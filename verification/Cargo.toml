[package]
name = "rivia_vfs"
version = "0.2.6"
edition = "2021"
publish = false

[dependencies]
rivia = "*"
lazy_static = "*"
