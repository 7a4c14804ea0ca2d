//! The filesystem backend as this crate sees it.
//!
//! A backend is a value of `rivia`'s `Vfs`: opaque here but for its variant. Every
//! filesystem operation is a call into `rivia`. What such a call returns depends on the
//! state of the filesystem behind the backend, which this crate does not model, so the
//! declarations below claim of a result only what holds whatever that state is: that the
//! empty path is refused, for one. Where a backend cannot take every path, the
//! declaration asks for the ones it can take, and the caller in this crate tests the
//! path before it makes the call.
//!
//! The in-memory backend guards its state with a lock and panics when that lock is
//! poisoned, that is when another thread has panicked in the middle of an operation on
//! the same backend. It also trusts its own bookkeeping: on a directory that lists an
//! entry which is not there, as a move that failed half-way leaves it, removing the
//! directory with all below it does not end.

use crate::text::{copies_safely, moves_safely};
use rivia::errors::{CoreError, RvError};
use rivia::prelude::ToStringExt;
use rivia::sys::{Chmod, Chown, Copier, Entries, Vfs, VfsEntry, VirtualFileSystem};
use std::path::{Path, PathBuf};
use vstd::prelude::*;

verus! {

/// The backend type of `rivia`: either the real filesystem or the in-memory one.
#[verifier::external_type_specification]
#[verifier::external_body]
pub struct ExVfs(Vfs);

/// The error type of `rivia`, handed on unchanged.
#[verifier::external_type_specification]
#[verifier::external_body]
pub struct ExRvError(RvError);

/// The builder of `rivia` for permission changes.
#[verifier::external_type_specification]
#[verifier::external_body]
pub struct ExChmod(Chmod);

/// The builder of `rivia` for ownership changes.
#[verifier::external_type_specification]
#[verifier::external_body]
pub struct ExChown(Chown);

/// The builder of `rivia` for copies.
#[verifier::external_type_specification]
#[verifier::external_body]
pub struct ExCopier(Copier);

/// The directory traversal of `rivia`.
#[verifier::external_type_specification]
#[verifier::external_body]
pub struct ExEntries(Entries);

/// A single filesystem entry of `rivia`.
#[verifier::external_type_specification]
#[verifier::external_body]
pub struct ExVfsEntry(VfsEntry);

/// An owned filesystem path of the standard library.
#[verifier::external_type_specification]
#[verifier::external_body]
pub struct ExPathBuf(PathBuf);

/// A borrowed filesystem path of the standard library.
#[verifier::external_type_specification]
#[verifier::external_body]
pub struct ExPath(Path);

/// Whether a backend is the in-memory variant (`Vfs::Memfs`) rather than the
/// real-filesystem variant (`Vfs::Stdfs`). `Vfs` has these two variants and no other.
pub uninterp spec fn holds_memfs(vfs: Vfs) -> bool;

/// Whether a path is the empty path, that is whether it equals `Path::new("")` as std
/// compares paths.
pub uninterp spec fn path_is_empty(path: &Path) -> bool;

/// Whether a path is the root directory, that is whether it equals `Path::new("/")` as
/// std compares paths.
pub uninterp spec fn path_is_root(path: PathBuf) -> bool;

/// The two variants a backend can have.
#[derive(Clone, Copy, Debug, PartialEq, Eq, Structural)]
pub enum BackendKind {
    /// Backed by the operating system's filesystem.
    Stdfs,
    /// Backed by an in-memory simulation.
    Memfs,
}

/// The variant of a backend.
pub open spec fn kind_of(vfs: Vfs) -> BackendKind {
    if holds_memfs(vfs) {
        BackendKind::Memfs
    } else {
        BackendKind::Stdfs
    }
}

/// Calls `Vfs::memfs`, which builds the `Vfs::Memfs` variant around a new, empty
/// in-memory filesystem.
#[verifier::external_body]
fn new_memfs() -> (vfs: Vfs)
    ensures
        holds_memfs(vfs),
{
    Vfs::memfs()
}

/// Calls `Vfs::stdfs`, which builds the `Vfs::Stdfs` variant.
#[verifier::external_body]
fn new_stdfs() -> (vfs: Vfs)
    ensures
        !holds_memfs(vfs),
{
    Vfs::stdfs()
}

/// Tells the two variants of `rivia`'s `Vfs` apart.
#[verifier::external_body]
fn is_memfs(vfs: &Vfs) -> (b: bool)
    ensures
        b == holds_memfs(*vfs),
{
    match vfs {
        Vfs::Memfs(_) => true,
        Vfs::Stdfs(_) => false,
    }
}

/// Compares the path with the empty path by `Path::eq` of std.
#[verifier::external_body]
fn equals_empty(path: &Path) -> (b: bool)
    ensures
        b == path_is_empty(path),
{
    path == Path::new("")
}

/// Compares the path with the root directory by `Path::eq` of std.
#[verifier::external_body]
fn equals_root(path: &PathBuf) -> (b: bool)
    ensures
        b == path_is_root(*path),
{
    path.as_path() == Path::new("/")
}

/// Whether the path is the empty path, which no backend resolves.
pub fn is_empty_path(path: &Path) -> (b: bool)
    ensures
        b == path_is_empty(path),
{
    equals_empty(path)
}

/// Whether the path is the root directory `/`.
pub fn is_root_path(path: &PathBuf) -> (b: bool)
    ensures
        b == path_is_root(*path),
{
    equals_root(path)
}

/// `PathBuf::deref` of std, which lends a path as a `Path`. Nothing is claimed of it.
pub assume_specification[ <PathBuf as std::ops::Deref>::deref ](buf: &PathBuf) -> (path: &Path);

/// Calls `ToStringExt::to_string` of `rivia` on the path, which gives the path's text
/// where the path is valid UTF-8 and an error where it is not.
#[verifier::external_body]
pub(crate) fn path_to_text(path: &Path) -> (text: Result<String, RvError>) {
    ToStringExt::to_string(path)
}

/// Calls `PathBuf::from` of std on the text, which makes the path with that text.
#[verifier::external_body]
pub(crate) fn text_to_path(text: &str) -> (path: PathBuf) {
    PathBuf::from(text)
}

/// Calls `CoreError::msg` of `rivia`, which makes an error that carries the message.
#[verifier::external_body]
pub(crate) fn refusal(message: &str) -> (e: RvError) {
    CoreError::msg(message).into()
}

impl BackendKind {
    /// The kind of the given backend.
    pub fn of(vfs: &Vfs) -> (kind: BackendKind)
        ensures
            kind == kind_of(*vfs),
    {
        if is_memfs(vfs) {
            BackendKind::Memfs
        } else {
            BackendKind::Stdfs
        }
    }

    /// A new backend of this kind.
    pub fn create(self) -> (vfs: Vfs)
        ensures
            kind_of(vfs) == self,
    {
        match self {
            BackendKind::Memfs => new_memfs(),
            BackendKind::Stdfs => new_stdfs(),
        }
    }
}

/// Calls `VirtualFileSystem::abs` of `rivia` on the backend.
/// Both backends resolve the path before anything else, and resolving the empty path
/// fails. Nothing else is claimed of the result.
#[verifier::external_body]
pub(crate) fn vfs_abs(vfs: &Vfs, path: &Path) -> (r: Result<PathBuf, RvError>)
    ensures
        path_is_empty(path) ==> r is Err,
{
    VirtualFileSystem::abs(vfs, path)
}

/// Calls `VirtualFileSystem::all_dirs` of `rivia` on the backend.
/// Both backends refuse a path that is no directory, which the empty path never is.
/// Nothing else is claimed of the result.
#[verifier::external_body]
pub(crate) fn vfs_all_dirs(vfs: &Vfs, path: &Path) -> (r: Result<Vec<PathBuf>, RvError>)
    ensures
        path_is_empty(path) ==> r is Err,
{
    VirtualFileSystem::all_dirs(vfs, path)
}

/// Calls `VirtualFileSystem::all_files` of `rivia` on the backend.
/// Both backends refuse a path that is no directory, which the empty path never is.
/// Nothing else is claimed of the result.
#[verifier::external_body]
pub(crate) fn vfs_all_files(vfs: &Vfs, path: &Path) -> (r: Result<Vec<PathBuf>, RvError>)
    ensures
        path_is_empty(path) ==> r is Err,
{
    VirtualFileSystem::all_files(vfs, path)
}

/// Calls `VirtualFileSystem::all_paths` of `rivia` on the backend.
/// Both backends refuse a path that is no directory, which the empty path never is.
/// Nothing else is claimed of the result.
#[verifier::external_body]
pub(crate) fn vfs_all_paths(vfs: &Vfs, path: &Path) -> (r: Result<Vec<PathBuf>, RvError>)
    ensures
        path_is_empty(path) ==> r is Err,
{
    VirtualFileSystem::all_paths(vfs, path)
}

/// Calls `VirtualFileSystem::chmod` of `rivia` on the backend.
/// Both backends resolve the path before anything else, and resolving the empty path
/// fails. Nothing else is claimed of the result.
#[verifier::external_body]
pub(crate) fn vfs_chmod(vfs: &Vfs, path: &Path, mode: u32) -> (r: Result<(), RvError>)
    ensures
        path_is_empty(path) ==> r is Err,
{
    VirtualFileSystem::chmod(vfs, path, mode)
}

/// Calls `VirtualFileSystem::chmod_b` of `rivia` on the backend.
/// Both backends resolve the path before anything else, and resolving the empty path
/// fails. Nothing else is claimed of the result.
#[verifier::external_body]
pub(crate) fn vfs_chmod_b(vfs: &Vfs, path: &Path) -> (r: Result<Chmod, RvError>)
    ensures
        path_is_empty(path) ==> r is Err,
{
    VirtualFileSystem::chmod_b(vfs, path)
}

/// Calls `VirtualFileSystem::chown` of `rivia` on the backend.
/// Both backends resolve the path before anything else, and resolving the empty path
/// fails. Nothing else is claimed of the result.
#[verifier::external_body]
pub(crate) fn vfs_chown(vfs: &Vfs, path: &Path, uid: u32, gid: u32) -> (r: Result<(), RvError>)
    ensures
        path_is_empty(path) ==> r is Err,
{
    VirtualFileSystem::chown(vfs, path, uid, gid)
}

/// Calls `VirtualFileSystem::chown_b` of `rivia` on the backend.
/// Both backends resolve the path before anything else, and resolving the empty path
/// fails. Nothing else is claimed of the result.
#[verifier::external_body]
pub(crate) fn vfs_chown_b(vfs: &Vfs, path: &Path) -> (r: Result<Chown, RvError>)
    ensures
        path_is_empty(path) ==> r is Err,
{
    VirtualFileSystem::chown_b(vfs, path)
}

/// Calls `VirtualFileSystem::copy` of `rivia` on the backend, with the source as text.
/// Both backends resolve the source and then cut its path off the path of each entry
/// at its count of characters. The text asked for is its own resolved path and is made
/// of characters of one byte, so the cut falls where the source's path ends. Both
/// backends resolve both paths before they change anything, and resolving the empty
/// path fails. Nothing else is claimed of the result.
#[verifier::external_body]
pub(crate) fn vfs_copy(vfs: &Vfs, src: &str, dst: &Path) -> (r: Result<(), RvError>)
    requires
        copies_safely(src@),
    ensures
        path_is_empty(dst) ==> r is Err,
{
    VirtualFileSystem::copy(vfs, src, dst)
}

/// Calls `VirtualFileSystem::copy_b` of `rivia` on the backend.
/// Both backends build the copier without looking at the paths or the filesystem, so
/// the call succeeds. Nothing is claimed of what the copier then does.
#[verifier::external_body]
pub(crate) fn vfs_copy_b(vfs: &Vfs, src: &Path, dst: &Path) -> (r: Result<Copier, RvError>)
    ensures
        r is Ok,
{
    VirtualFileSystem::copy_b(vfs, src, dst)
}

/// Calls `VirtualFileSystem::cwd` of `rivia` on the backend.
/// The in-memory backend always has a working directory to answer with. The
/// real-filesystem backend asks the operating system, which may fail.
#[verifier::external_body]
pub(crate) fn vfs_cwd(vfs: &Vfs) -> (r: Result<PathBuf, RvError>)
    ensures
        holds_memfs(*vfs) ==> r is Ok,
{
    VirtualFileSystem::cwd(vfs)
}

/// Calls `VirtualFileSystem::dirs` of `rivia` on the backend.
/// Both backends refuse a path that is no directory, which the empty path never is.
/// Nothing else is claimed of the result.
#[verifier::external_body]
pub(crate) fn vfs_dirs(vfs: &Vfs, path: &Path) -> (r: Result<Vec<PathBuf>, RvError>)
    ensures
        path_is_empty(path) ==> r is Err,
{
    VirtualFileSystem::dirs(vfs, path)
}

/// Calls `VirtualFileSystem::entries` of `rivia` on the backend.
/// Both backends resolve the path before anything else, and resolving the empty path
/// fails. Nothing else is claimed of the result.
#[verifier::external_body]
pub(crate) fn vfs_entries(vfs: &Vfs, path: &Path) -> (r: Result<Entries, RvError>)
    ensures
        path_is_empty(path) ==> r is Err,
{
    VirtualFileSystem::entries(vfs, path)
}

/// Calls `VirtualFileSystem::entry` of `rivia` on the backend.
/// Both backends resolve the path before anything else, and resolving the empty path
/// fails. Nothing else is claimed of the result.
#[verifier::external_body]
pub(crate) fn vfs_entry(vfs: &Vfs, path: &Path) -> (r: Result<VfsEntry, RvError>)
    ensures
        path_is_empty(path) ==> r is Err,
{
    VirtualFileSystem::entry(vfs, path)
}

/// Calls `VirtualFileSystem::exists` of `rivia` on the backend.
/// Both backends answer `false` for a path that does not resolve to an entry, as the
/// empty path never does. Nothing else is claimed of the result.
#[verifier::external_body]
pub(crate) fn vfs_exists(vfs: &Vfs, path: &Path) -> (r: bool)
    ensures
        path_is_empty(path) ==> !r,
{
    VirtualFileSystem::exists(vfs, path)
}

/// Calls `VirtualFileSystem::files` of `rivia` on the backend.
/// Both backends refuse a path that is no directory, which the empty path never is.
/// Nothing else is claimed of the result.
#[verifier::external_body]
pub(crate) fn vfs_files(vfs: &Vfs, path: &Path) -> (r: Result<Vec<PathBuf>, RvError>)
    ensures
        path_is_empty(path) ==> r is Err,
{
    VirtualFileSystem::files(vfs, path)
}

/// Calls `VirtualFileSystem::gid` of `rivia` on the backend.
/// Both backends resolve the path before anything else, and resolving the empty path
/// fails. Nothing else is claimed of the result.
#[verifier::external_body]
pub(crate) fn vfs_gid(vfs: &Vfs, path: &Path) -> (r: Result<u32, RvError>)
    ensures
        path_is_empty(path) ==> r is Err,
{
    VirtualFileSystem::gid(vfs, path)
}

/// Calls `VirtualFileSystem::is_exec` of `rivia` on the backend.
/// Both backends answer `false` for a path that does not resolve to an entry, as the
/// empty path never does. Nothing else is claimed of the result.
#[verifier::external_body]
pub(crate) fn vfs_is_exec(vfs: &Vfs, path: &Path) -> (r: bool)
    ensures
        path_is_empty(path) ==> !r,
{
    VirtualFileSystem::is_exec(vfs, path)
}

/// Calls `VirtualFileSystem::is_dir` of `rivia` on the backend.
/// Both backends answer `false` for a path that does not resolve to an entry, as the
/// empty path never does. Nothing else is claimed of the result.
#[verifier::external_body]
pub(crate) fn vfs_is_dir(vfs: &Vfs, path: &Path) -> (r: bool)
    ensures
        path_is_empty(path) ==> !r,
{
    VirtualFileSystem::is_dir(vfs, path)
}

/// Calls `VirtualFileSystem::is_file` of `rivia` on the backend.
/// Both backends answer `false` for a path that does not resolve to an entry, as the
/// empty path never does. Nothing else is claimed of the result.
#[verifier::external_body]
pub(crate) fn vfs_is_file(vfs: &Vfs, path: &Path) -> (r: bool)
    ensures
        path_is_empty(path) ==> !r,
{
    VirtualFileSystem::is_file(vfs, path)
}

/// Calls `VirtualFileSystem::is_readonly` of `rivia` on the backend.
/// Both backends answer `false` for a path that does not resolve to an entry, as the
/// empty path never does. Nothing else is claimed of the result.
#[verifier::external_body]
pub(crate) fn vfs_is_readonly(vfs: &Vfs, path: &Path) -> (r: bool)
    ensures
        path_is_empty(path) ==> !r,
{
    VirtualFileSystem::is_readonly(vfs, path)
}

/// Calls `VirtualFileSystem::is_symlink` of `rivia` on the backend.
/// Both backends answer `false` for a path that does not resolve to an entry, as the
/// empty path never does. Nothing else is claimed of the result.
#[verifier::external_body]
pub(crate) fn vfs_is_symlink(vfs: &Vfs, path: &Path) -> (r: bool)
    ensures
        path_is_empty(path) ==> !r,
{
    VirtualFileSystem::is_symlink(vfs, path)
}

/// Calls `VirtualFileSystem::is_symlink_dir` of `rivia` on the backend.
/// Both backends answer `false` for a path that does not resolve to an entry, as the
/// empty path never does. Nothing else is claimed of the result.
#[verifier::external_body]
pub(crate) fn vfs_is_symlink_dir(vfs: &Vfs, path: &Path) -> (r: bool)
    ensures
        path_is_empty(path) ==> !r,
{
    VirtualFileSystem::is_symlink_dir(vfs, path)
}

/// Calls `VirtualFileSystem::is_symlink_file` of `rivia` on the backend.
/// Both backends answer `false` for a path that does not resolve to an entry, as the
/// empty path never does. Nothing else is claimed of the result.
#[verifier::external_body]
pub(crate) fn vfs_is_symlink_file(vfs: &Vfs, path: &Path) -> (r: bool)
    ensures
        path_is_empty(path) ==> !r,
{
    VirtualFileSystem::is_symlink_file(vfs, path)
}

/// Calls `VirtualFileSystem::mkdir_m` of `rivia` on the backend.
/// Both backends resolve the path before anything else, and resolving the empty path
/// fails. Nothing else is claimed of the result.
#[verifier::external_body]
pub(crate) fn vfs_mkdir_m(vfs: &Vfs, path: &Path, mode: u32) -> (r: Result<PathBuf, RvError>)
    ensures
        path_is_empty(path) ==> r is Err,
{
    VirtualFileSystem::mkdir_m(vfs, path, mode)
}

/// Calls `VirtualFileSystem::mkdir_p` of `rivia` on the backend.
/// Both backends resolve the path before anything else, and resolving the empty path
/// fails. Nothing else is claimed of the result.
#[verifier::external_body]
pub(crate) fn vfs_mkdir_p(vfs: &Vfs, path: &Path) -> (r: Result<PathBuf, RvError>)
    ensures
        path_is_empty(path) ==> r is Err,
{
    VirtualFileSystem::mkdir_p(vfs, path)
}

/// Calls `VirtualFileSystem::mkfile` of `rivia` on the backend.
/// Both backends resolve the path before anything else, and resolving the empty path
/// fails. Nothing else is claimed of the result.
#[verifier::external_body]
pub(crate) fn vfs_mkfile(vfs: &Vfs, path: &Path) -> (r: Result<PathBuf, RvError>)
    ensures
        path_is_empty(path) ==> r is Err,
{
    VirtualFileSystem::mkfile(vfs, path)
}

/// Calls `VirtualFileSystem::mkfile_m` of `rivia` on the backend.
/// Both backends resolve the path before anything else, and resolving the empty path
/// fails. Nothing else is claimed of the result.
#[verifier::external_body]
pub(crate) fn vfs_mkfile_m(vfs: &Vfs, path: &Path, mode: u32) -> (r: Result<PathBuf, RvError>)
    ensures
        path_is_empty(path) ==> r is Err,
{
    VirtualFileSystem::mkfile_m(vfs, path, mode)
}

/// Calls `VirtualFileSystem::mode` of `rivia` on the backend.
/// Both backends resolve the path before anything else, and resolving the empty path
/// fails. Nothing else is claimed of the result.
#[verifier::external_body]
pub(crate) fn vfs_mode(vfs: &Vfs, path: &Path) -> (r: Result<u32, RvError>)
    ensures
        path_is_empty(path) ==> r is Err,
{
    VirtualFileSystem::mode(vfs, path)
}

/// Calls `VirtualFileSystem::move_p` of `rivia` on the backend, with both paths as text.
/// The real-filesystem backend renames and takes any path. The in-memory backend moves
/// entry by entry: it cuts the source's path off each entry's path at its count of
/// characters, and it may not end where the destination is the source or lies under
/// it, so of it the texts asked for are their own resolved paths, the source is made
/// of characters of one byte and the destination is neither the source nor under it.
/// Both backends resolve both paths before they change anything, and resolving the
/// empty path fails. Nothing else is claimed of the result.
#[verifier::external_body]
pub(crate) fn vfs_move_p(vfs: &Vfs, src: &str, dst: &str) -> (r: Result<(), RvError>)
    requires
        holds_memfs(*vfs) ==> moves_safely(src@, dst@),
    ensures
        src@.len() == 0 || dst@.len() == 0 ==> r is Err,
{
    VirtualFileSystem::move_p(vfs, src, dst)
}

/// Calls `VirtualFileSystem::owner` of `rivia` on the backend.
/// Both backends resolve the path before anything else, and resolving the empty path
/// fails. Nothing else is claimed of the result.
#[verifier::external_body]
pub(crate) fn vfs_owner(vfs: &Vfs, path: &Path) -> (r: Result<(u32, u32), RvError>)
    ensures
        path_is_empty(path) ==> r is Err,
{
    VirtualFileSystem::owner(vfs, path)
}

/// Calls `VirtualFileSystem::paths` of `rivia` on the backend.
/// Both backends refuse a path that is no directory, which the empty path never is.
/// Nothing else is claimed of the result.
#[verifier::external_body]
pub(crate) fn vfs_paths(vfs: &Vfs, path: &Path) -> (r: Result<Vec<PathBuf>, RvError>)
    ensures
        path_is_empty(path) ==> r is Err,
{
    VirtualFileSystem::paths(vfs, path)
}

/// Calls `VirtualFileSystem::read_all` of `rivia` on the backend.
/// Both backends resolve the path before anything else, and resolving the empty path
/// fails. Nothing else is claimed of the result.
#[verifier::external_body]
pub(crate) fn vfs_read_all(vfs: &Vfs, path: &Path) -> (r: Result<String, RvError>)
    ensures
        path_is_empty(path) ==> r is Err,
{
    VirtualFileSystem::read_all(vfs, path)
}

/// Calls `VirtualFileSystem::readlink` of `rivia` on the backend.
/// Both backends resolve the path before anything else, and resolving the empty path
/// fails. Nothing else is claimed of the result.
#[verifier::external_body]
pub(crate) fn vfs_readlink(vfs: &Vfs, path: &Path) -> (r: Result<PathBuf, RvError>)
    ensures
        path_is_empty(path) ==> r is Err,
{
    VirtualFileSystem::readlink(vfs, path)
}

/// Calls `VirtualFileSystem::readlink_abs` of `rivia` on the backend.
/// Both backends resolve the path before anything else, and resolving the empty path
/// fails. Nothing else is claimed of the result.
#[verifier::external_body]
pub(crate) fn vfs_readlink_abs(vfs: &Vfs, path: &Path) -> (r: Result<PathBuf, RvError>)
    ensures
        path_is_empty(path) ==> r is Err,
{
    VirtualFileSystem::readlink_abs(vfs, path)
}

/// Calls `VirtualFileSystem::remove` of `rivia` on the backend.
/// Both backends resolve the path before anything else, and resolving the empty path
/// fails. Nothing else is claimed of the result.
#[verifier::external_body]
pub(crate) fn vfs_remove(vfs: &Vfs, path: &Path) -> (r: Result<(), RvError>)
    ensures
        path_is_empty(path) ==> r is Err,
{
    VirtualFileSystem::remove(vfs, path)
}

/// Calls `VirtualFileSystem::remove_all` of `rivia` on the backend.
/// Both backends resolve the path before anything else, and resolving the empty path
/// fails. Nothing else is claimed of the result.
#[verifier::external_body]
pub(crate) fn vfs_remove_all(vfs: &Vfs, path: &Path) -> (r: Result<(), RvError>)
    ensures
        path_is_empty(path) ==> r is Err,
{
    VirtualFileSystem::remove_all(vfs, path)
}

/// Calls `VirtualFileSystem::root` of `rivia` on the backend.
/// The real-filesystem backend answers `/`. The in-memory backend answers the root it
/// was made with, which is `/` and is never changed.
#[verifier::external_body]
pub(crate) fn vfs_root(vfs: &Vfs) -> (r: PathBuf)
    ensures
        path_is_root(r),
{
    VirtualFileSystem::root(vfs)
}

/// Calls `VirtualFileSystem::set_cwd` of `rivia` on the backend.
/// Both backends resolve the path before anything else, and resolving the empty path
/// fails. Nothing else is claimed of the result.
#[verifier::external_body]
pub(crate) fn vfs_set_cwd(vfs: &Vfs, path: &Path) -> (r: Result<PathBuf, RvError>)
    ensures
        path_is_empty(path) ==> r is Err,
{
    VirtualFileSystem::set_cwd(vfs, path)
}

/// Calls `VirtualFileSystem::symlink` of `rivia` on the backend.
/// Both backends resolve the link's path before they change anything, and resolving
/// the empty path fails. Nothing else is claimed of the result.
#[verifier::external_body]
pub(crate) fn vfs_symlink(vfs: &Vfs, link: &Path, target: &Path) -> (r: Result<PathBuf, RvError>)
    ensures
        path_is_empty(link) ==> r is Err,
{
    VirtualFileSystem::symlink(vfs, link, target)
}

/// Calls `VirtualFileSystem::uid` of `rivia` on the backend.
/// Both backends resolve the path before anything else, and resolving the empty path
/// fails. Nothing else is claimed of the result.
#[verifier::external_body]
pub(crate) fn vfs_uid(vfs: &Vfs, path: &Path) -> (r: Result<u32, RvError>)
    ensures
        path_is_empty(path) ==> r is Err,
{
    VirtualFileSystem::uid(vfs, path)
}

/// Calls `VirtualFileSystem::write_all` of `rivia` on the backend.
/// Both backends resolve the path before anything else, and resolving the empty path
/// fails. Nothing else is claimed of the result.
#[verifier::external_body]
pub(crate) fn vfs_write_all(vfs: &Vfs, path: &Path, data: &[u8]) -> (r: Result<(), RvError>)
    ensures
        path_is_empty(path) ==> r is Err,
{
    VirtualFileSystem::write_all(vfs, path, data)
}

} // verus!
