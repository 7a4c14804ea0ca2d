//! The forwarding operations, each on a registry that was switched to an in-memory
//! backend, with the values that backend is documented to give.

use rivia::sys::{Entry, PathExt};
use rivia_vfs as vfs;
use rivia_vfs::Registry;
use std::path::{Path, PathBuf};

fn memfs() -> Registry {
    let mut registry = Registry::new();
    assert!(vfs::set_memfs(&mut registry).is_ok());
    registry
}

#[test]
fn test_abs_expands_home() {
    let registry = memfs();
    let home = rivia::sys::home_dir().unwrap();
    assert_eq!(vfs::abs(&registry, Path::new("~")).unwrap(), PathBuf::from(&home));
}

#[test]
fn test_abs_resolves_relative_segments() {
    let registry = memfs();
    assert_eq!(vfs::abs(&registry, Path::new("foo/../bar/./baz")).unwrap(), PathBuf::from("/bar/baz"));
}

#[test]
fn test_abs_of_empty_path_is_an_error() {
    let registry = memfs();
    assert!(vfs::abs(&registry, Path::new("")).is_err());
}

#[test]
fn test_abs_above_root_is_an_error() {
    let registry = memfs();
    assert!(vfs::abs(&registry, Path::new("../foo")).is_err());
}

#[test]
fn test_all_dirs_lists_descendants_sorted() {
    let registry = memfs();
    let tmpdir = vfs::root(&registry).mash("tmpdir");
    let dir1 = tmpdir.mash("dir1");
    let dir2 = dir1.mash("dir2");
    assert_eq!(vfs::mkdir_p(&registry, &tmpdir).unwrap(), tmpdir);
    assert_eq!(vfs::mkdir_p(&registry, &dir2).unwrap(), dir2);
    assert_eq!(vfs::all_dirs(&registry, &tmpdir).unwrap(), vec![dir1, dir2]);
}

#[test]
fn test_all_dirs_of_siblings_is_sorted_by_name() {
    let registry = memfs();
    let tmpdir = vfs::root(&registry).mash("tmpdir");
    let b = tmpdir.mash("b");
    let a = tmpdir.mash("a");
    let c = a.mash("c");
    assert!(vfs::mkdir_p(&registry, &b).is_ok());
    assert!(vfs::mkdir_p(&registry, &c).is_ok());
    assert_eq!(vfs::all_dirs(&registry, &tmpdir).unwrap(), vec![a, c, b]);
}

#[test]
fn test_all_dirs_of_a_missing_path_is_an_error() {
    let registry = memfs();
    assert!(vfs::all_dirs(&registry, Path::new("/missing")).is_err());
}

#[test]
fn test_all_files() {
    let registry = memfs();
    let tmpdir = vfs::root(&registry).mash("tmpdir");
    let file1 = tmpdir.mash("file1");
    let dir1 = tmpdir.mash("dir1");
    let file2 = dir1.mash("file2");
    assert!(vfs::mkdir_p(&registry, &dir1).is_ok());
    assert!(vfs::mkfile(&registry, &file1).is_ok());
    assert!(vfs::mkfile(&registry, &file2).is_ok());
    assert_eq!(vfs::all_files(&registry, &tmpdir).unwrap(), vec![file2, file1]);
}

#[test]
fn test_all_paths() {
    let registry = memfs();
    let tmpdir = vfs::root(&registry).mash("tmpdir");
    let dir1 = tmpdir.mash("dir1");
    let file1 = tmpdir.mash("file1");
    let file2 = dir1.mash("file2");
    let file3 = dir1.mash("file3");
    assert!(vfs::mkdir_p(&registry, &dir1).is_ok());
    assert!(vfs::mkfile(&registry, &file1).is_ok());
    assert!(vfs::mkfile(&registry, &file2).is_ok());
    assert!(vfs::mkfile(&registry, &file3).is_ok());
    assert_eq!(vfs::all_paths(&registry, &tmpdir).unwrap(), vec![dir1, file2, file3, file1]);
}

#[test]
fn test_chmod_and_mode() {
    let registry = memfs();
    let file = vfs::root(&registry).mash("file");
    assert!(vfs::mkfile(&registry, &file).is_ok());
    assert_eq!(vfs::mode(&registry, &file).unwrap(), 0o100644);
    assert!(vfs::chmod(&registry, &file, 0o555).is_ok());
    assert_eq!(vfs::mode(&registry, &file).unwrap(), 0o100555);
}

#[test]
fn test_chmod_of_a_missing_path_is_an_error() {
    let registry = memfs();
    assert!(vfs::chmod(&registry, Path::new("/missing"), 0o555).is_err());
    assert!(vfs::chmod(&registry, Path::new(""), 0o555).is_err());
    assert!(vfs::mode(&registry, Path::new("/missing")).is_err());
}

#[test]
fn test_chmod_b() {
    let registry = memfs();
    let dir = vfs::root(&registry).mash("dir");
    let file = dir.mash("file");
    assert!(vfs::mkdir_p(&registry, &dir).is_ok());
    assert!(vfs::mkfile(&registry, &file).is_ok());
    assert_eq!(vfs::mode(&registry, &dir).unwrap(), 0o40755);
    assert_eq!(vfs::mode(&registry, &file).unwrap(), 0o100644);
    assert!(vfs::chmod_b(&registry, &dir).unwrap().recurse().all(0o777).exec().is_ok());
    assert_eq!(vfs::mode(&registry, &dir).unwrap(), 0o40777);
    assert_eq!(vfs::mode(&registry, &file).unwrap(), 0o100777);
}

#[test]
fn test_chown_and_owner() {
    let registry = memfs();
    let file1 = vfs::root(&registry).mash("file1");
    assert!(vfs::mkfile(&registry, &file1).is_ok());
    assert!(vfs::chown(&registry, &file1, 5, 7).is_ok());
    assert_eq!(vfs::owner(&registry, &file1).unwrap(), (5, 7));
    assert_eq!(vfs::uid(&registry, &file1).unwrap(), 5);
    assert_eq!(vfs::gid(&registry, &file1).unwrap(), 7);
}

#[test]
fn test_chown_b() {
    let registry = memfs();
    let file1 = vfs::root(&registry).mash("file1");
    assert!(vfs::mkfile(&registry, &file1).is_ok());
    assert!(vfs::chown_b(&registry, &file1).unwrap().owner(5, 7).exec().is_ok());
    assert_eq!(vfs::owner(&registry, &file1).unwrap(), (5, 7));
}

#[test]
fn test_copy() {
    let registry = memfs();
    let file1 = vfs::root(&registry).mash("file1");
    let file2 = vfs::root(&registry).mash("file2");
    assert!(vfs::write_all(&registry, &file1, "this is a test".as_bytes()).is_ok());
    assert!(vfs::copy(&registry, &file1, &file2).is_ok());
    assert_eq!(vfs::read_all(&registry, &file2).unwrap(), "this is a test".to_string());
    assert_eq!(vfs::read_all(&registry, &file1).unwrap(), "this is a test".to_string());
}

#[test]
fn test_copy_b() {
    let registry = memfs();
    let file1 = vfs::root(&registry).mash("file1");
    let file2 = vfs::root(&registry).mash("file2");
    assert!(vfs::write_all(&registry, &file1, "this is a test".as_bytes()).is_ok());
    assert!(vfs::copy_b(&registry, &file1, &file2).unwrap().exec().is_ok());
    assert_eq!(vfs::read_all(&registry, &file2).unwrap(), "this is a test".to_string());
}

#[test]
fn test_cwd_and_set_cwd() {
    let registry = memfs();
    let dir = vfs::root(&registry).mash("dir");
    assert_eq!(vfs::cwd(&registry).unwrap(), vfs::root(&registry));
    assert_eq!(&vfs::mkdir_p(&registry, &dir).unwrap(), &dir);
    assert_eq!(&vfs::set_cwd(&registry, &dir).unwrap(), &dir);
    assert_eq!(&vfs::cwd(&registry).unwrap(), &dir);
    assert_eq!(vfs::abs(&registry, Path::new("file")).unwrap(), dir.mash("file"));
}

#[test]
fn test_set_cwd_to_a_missing_path_is_an_error() {
    let registry = memfs();
    assert!(vfs::set_cwd(&registry, Path::new("/missing")).is_err());
    assert_eq!(vfs::cwd(&registry).unwrap(), vfs::root(&registry));
}

#[test]
fn test_dirs() {
    let registry = memfs();
    let tmpdir = vfs::root(&registry).mash("tmpdir");
    let dir1 = tmpdir.mash("dir1");
    let dir2 = tmpdir.mash("dir2");
    let file1 = tmpdir.mash("file1");
    assert!(vfs::mkdir_p(&registry, &dir1).is_ok());
    assert!(vfs::mkdir_p(&registry, &dir2).is_ok());
    assert!(vfs::mkfile(&registry, &file1).is_ok());
    assert_eq!(vfs::dirs(&registry, &tmpdir).unwrap(), vec![dir1, dir2]);
}

#[test]
fn test_entries() {
    let registry = memfs();
    let root = vfs::root(&registry);
    let dir = root.mash("dir");
    let file = dir.mash("file");
    assert!(vfs::mkdir_p(&registry, &dir).is_ok());
    assert!(vfs::mkfile(&registry, &file).is_ok());
    let found: Vec<PathBuf> =
        vfs::entries(&registry, &root).unwrap().into_iter().map(|x| x.unwrap().path_buf()).collect();
    assert_eq!(found, vec![root, dir, file]);
}

#[test]
fn test_entry() {
    let registry = memfs();
    let file = vfs::root(&registry).mash("file");
    assert!(vfs::mkfile(&registry, &file).is_ok());
    let entry = vfs::entry(&registry, &file).unwrap();
    assert!(entry.is_file());
    assert_eq!(entry.path_buf(), file);
    assert!(vfs::entry(&registry, Path::new("/missing")).is_err());
}

#[test]
fn test_path_exists() {
    let registry = memfs();
    let dir = vfs::root(&registry).mash("foo");
    assert_eq!(vfs::path_exists(&registry, &dir), false);
    assert!(vfs::mkdir_p(&registry, &dir).is_ok());
    assert_eq!(vfs::path_exists(&registry, &dir), true);
}

#[test]
fn test_files() {
    let registry = memfs();
    let tmpdir = vfs::root(&registry).mash("tmpdir");
    let dir1 = tmpdir.mash("dir1");
    let file1 = tmpdir.mash("file1");
    let file2 = tmpdir.mash("file2");
    assert!(vfs::mkdir_p(&registry, &dir1).is_ok());
    assert!(vfs::mkfile(&registry, &file1).is_ok());
    assert!(vfs::mkfile(&registry, &file2).is_ok());
    assert_eq!(vfs::files(&registry, &tmpdir).unwrap(), vec![file1, file2]);
}

#[test]
fn test_owner_of_root() {
    let registry = memfs();
    let root = vfs::root(&registry);
    assert_eq!(vfs::gid(&registry, &root).unwrap(), 1000);
    assert_eq!(vfs::uid(&registry, &root).unwrap(), 1000);
    assert_eq!(vfs::owner(&registry, &root).unwrap(), (1000, 1000));
}

#[test]
fn test_is_exec() {
    let registry = memfs();
    let file = vfs::root(&registry).mash("file");
    assert!(vfs::mkfile_m(&registry, &file, 0o644).is_ok());
    assert_eq!(vfs::is_exec(&registry, &file), false);
    assert!(vfs::chmod(&registry, &file, 0o777).is_ok());
    assert_eq!(vfs::is_exec(&registry, &file), true);
}

#[test]
fn test_is_dir() {
    let registry = memfs();
    let dir = vfs::root(&registry).mash("dir");
    assert_eq!(vfs::is_dir(&registry, &dir), false);
    assert!(vfs::mkdir_p(&registry, &dir).is_ok());
    assert_eq!(vfs::is_dir(&registry, &dir), true);
    assert_eq!(vfs::is_file(&registry, &dir), false);
}

#[test]
fn test_is_file() {
    let registry = memfs();
    let file = vfs::root(&registry).mash("file");
    assert_eq!(vfs::is_file(&registry, &file), false);
    assert!(vfs::mkfile(&registry, &file).is_ok());
    assert_eq!(vfs::is_file(&registry, &file), true);
    assert_eq!(vfs::is_dir(&registry, &file), false);
}

#[test]
fn test_is_readonly() {
    let registry = memfs();
    let file = vfs::root(&registry).mash("file");
    assert!(vfs::mkfile_m(&registry, &file, 0o644).is_ok());
    assert_eq!(vfs::is_readonly(&registry, &file), false);
    assert!(vfs::chmod_b(&registry, &file).unwrap().readonly().exec().is_ok());
    assert_eq!(vfs::mode(&registry, &file).unwrap(), 0o100444);
    assert_eq!(vfs::is_readonly(&registry, &file), true);
}

#[test]
fn test_is_symlink() {
    let registry = memfs();
    let file = vfs::root(&registry).mash("file");
    let link = vfs::root(&registry).mash("link");
    assert_eq!(vfs::is_symlink(&registry, &link), false);
    assert_eq!(vfs::symlink(&registry, &link, &file).unwrap(), link);
    assert_eq!(vfs::is_symlink(&registry, &link), true);
}

#[test]
fn test_is_symlink_dir_and_file() {
    let registry = memfs();
    let dir = vfs::root(&registry).mash("dir");
    let file = vfs::root(&registry).mash("file");
    let link1 = vfs::root(&registry).mash("link1");
    let link2 = vfs::root(&registry).mash("link2");
    assert!(vfs::mkdir_p(&registry, &dir).is_ok());
    assert!(vfs::mkfile(&registry, &file).is_ok());
    assert!(vfs::symlink(&registry, &link1, &dir).is_ok());
    assert!(vfs::symlink(&registry, &link2, &file).is_ok());
    assert_eq!(vfs::is_symlink_dir(&registry, &link1), true);
    assert_eq!(vfs::is_symlink_dir(&registry, &link2), false);
    assert_eq!(vfs::is_symlink_file(&registry, &link1), false);
    assert_eq!(vfs::is_symlink_file(&registry, &link2), true);
}

#[test]
fn test_mkdir_m() {
    let registry = memfs();
    let dir = vfs::root(&registry).mash("dir");
    assert_eq!(vfs::mkdir_m(&registry, &dir, 0o555).unwrap(), dir);
    assert_eq!(vfs::mode(&registry, &dir).unwrap(), 0o40555);
}

#[test]
fn test_mkdir_p() {
    let registry = memfs();
    let dir = vfs::root(&registry).mash("dir");
    assert!(!vfs::path_exists(&registry, &dir));
    assert_eq!(&vfs::mkdir_p(&registry, &dir).unwrap(), &dir);
    assert!(vfs::is_dir(&registry, &dir));
}

#[test]
fn test_mkdir_p_over_a_file_is_an_error() {
    let registry = memfs();
    let file = vfs::root(&registry).mash("file");
    assert!(vfs::mkfile(&registry, &file).is_ok());
    assert!(vfs::mkdir_p(&registry, &file).is_err());
    assert!(vfs::is_file(&registry, &file));
}

#[test]
fn test_mkfile() {
    let registry = memfs();
    let file = vfs::root(&registry).mash("file");
    assert!(!vfs::path_exists(&registry, &file));
    assert_eq!(&vfs::mkfile(&registry, &file).unwrap(), &file);
    assert!(vfs::is_file(&registry, &file));
}

#[test]
fn test_mkfile_without_parent_is_an_error() {
    let registry = memfs();
    let file = vfs::root(&registry).mash("missing").mash("file");
    assert!(vfs::mkfile(&registry, &file).is_err());
    assert!(!vfs::path_exists(&registry, &file));
}

#[test]
fn test_mkfile_m() {
    let registry = memfs();
    let file = vfs::root(&registry).mash("file");
    assert_eq!(vfs::mkfile_m(&registry, &file, 0o555).unwrap(), file);
    assert_eq!(vfs::mode(&registry, &file).unwrap(), 0o100555);
}

#[test]
fn test_move_p() {
    let registry = memfs();
    let dir = vfs::root(&registry).mash("dir");
    let file = vfs::root(&registry).mash("file");
    let dirfile = dir.mash("file");
    assert!(vfs::mkdir_p(&registry, &dir).is_ok());
    assert!(vfs::mkfile(&registry, &file).is_ok());
    assert!(vfs::move_p(&registry, &file, &dir).is_ok());
    assert!(!vfs::path_exists(&registry, &file));
    assert!(vfs::is_file(&registry, &dirfile));
}

#[test]
fn test_move_p_of_a_missing_source_is_an_error() {
    let registry = memfs();
    let dir = vfs::root(&registry).mash("dir");
    assert!(vfs::mkdir_p(&registry, &dir).is_ok());
    assert!(vfs::move_p(&registry, Path::new("/missing"), &dir).is_err());
}

#[test]
fn test_paths() {
    let registry = memfs();
    let tmpdir = vfs::root(&registry).mash("tmpdir");
    let dir1 = tmpdir.mash("dir1");
    let dir2 = tmpdir.mash("dir2");
    let file1 = tmpdir.mash("file1");
    assert!(vfs::mkdir_p(&registry, &dir1).is_ok());
    assert!(vfs::mkdir_p(&registry, &dir2).is_ok());
    assert!(vfs::mkfile(&registry, &file1).is_ok());
    assert_eq!(vfs::paths(&registry, &tmpdir).unwrap(), vec![dir1, dir2, file1]);
}

#[test]
fn test_read_all_of_a_missing_file_is_an_error() {
    let registry = memfs();
    assert!(vfs::read_all(&registry, Path::new("/missing")).is_err());
}

#[test]
fn test_read_all_of_a_directory_is_an_error() {
    let registry = memfs();
    let dir = vfs::root(&registry).mash("dir");
    assert!(vfs::mkdir_p(&registry, &dir).is_ok());
    assert!(vfs::read_all(&registry, &dir).is_err());
}

#[test]
fn test_readlink() {
    let registry = memfs();
    let dir = vfs::root(&registry).mash("dir");
    let link = dir.mash("link");
    let file = vfs::root(&registry).mash("file");
    assert!(vfs::mkdir_p(&registry, &dir).is_ok());
    assert!(vfs::mkfile(&registry, &file).is_ok());
    assert_eq!(vfs::symlink(&registry, &link, &file).unwrap(), link);
    assert_eq!(vfs::readlink(&registry, &link).unwrap(), PathBuf::from("..").mash("file"));
}

#[test]
fn test_readlink_abs() {
    let registry = memfs();
    let file = vfs::root(&registry).mash("file");
    let link = vfs::root(&registry).mash("link");
    assert!(vfs::mkfile(&registry, &file).is_ok());
    assert_eq!(vfs::symlink(&registry, &link, &file).unwrap(), link);
    assert_eq!(vfs::readlink_abs(&registry, &link).unwrap(), file);
}

#[test]
fn test_remove() {
    let registry = memfs();
    let file = vfs::root(&registry).mash("file");
    assert!(vfs::mkfile(&registry, &file).is_ok());
    assert!(vfs::path_exists(&registry, &file));
    assert!(vfs::remove(&registry, &file).is_ok());
    assert!(!vfs::path_exists(&registry, &file));
}

#[test]
fn test_remove_of_a_non_empty_directory_fails_and_remove_all_succeeds() {
    let registry = memfs();
    let dir = vfs::root(&registry).mash("dir");
    let sub = dir.mash("sub");
    let file = sub.mash("file");
    assert!(vfs::mkdir_p(&registry, &sub).is_ok());
    assert!(vfs::mkfile(&registry, &file).is_ok());

    assert!(vfs::remove(&registry, &dir).is_err());
    assert!(vfs::is_dir(&registry, &dir));
    assert!(vfs::is_file(&registry, &file));

    assert!(vfs::remove_all(&registry, &dir).is_ok());
    assert!(!vfs::path_exists(&registry, &file));
    assert!(!vfs::path_exists(&registry, &sub));
    assert!(!vfs::path_exists(&registry, &dir));
}

#[test]
fn test_remove_all() {
    let registry = memfs();
    let dir = vfs::root(&registry).mash("dir");
    let file = dir.mash("file");
    assert!(vfs::mkdir_p(&registry, &dir).is_ok());
    assert!(vfs::mkfile(&registry, &file).is_ok());
    assert!(vfs::is_file(&registry, &file));
    assert!(vfs::remove_all(&registry, &dir).is_ok());
    assert!(!vfs::path_exists(&registry, &file));
    assert!(!vfs::path_exists(&registry, &dir));
}

#[test]
fn test_root() {
    let registry = memfs();
    assert_eq!(vfs::root(&registry), PathBuf::from("/"));
    assert_eq!(vfs::root(&Registry::new()), PathBuf::from("/"));
}

#[test]
fn test_write_all_then_read_all() {
    let registry = memfs();
    let file = vfs::root(&registry).mash("file");
    assert!(!vfs::path_exists(&registry, &file));
    assert!(vfs::write_all(&registry, &file, "foobar 1".as_bytes()).is_ok());
    assert!(vfs::is_file(&registry, &file));
    assert_eq!(vfs::read_all(&registry, &file).unwrap(), "foobar 1".to_string());
}

#[test]
fn test_write_all_round_trips_each_content() {
    let registry = memfs();
    let file = vfs::root(&registry).mash("file");
    let contents = ["a", "two words", "line one\nline two\n", "\t tabs and spaces ", "üñí-çødé ✓", "0"];
    for content in contents {
        assert!(vfs::write_all(&registry, &file, content.as_bytes()).is_ok());
        assert_eq!(vfs::read_all(&registry, &file).unwrap(), content.to_string());
    }
}

#[test]
fn test_read_all_of_bytes_that_are_not_text_is_an_error() {
    let registry = memfs();
    let file = vfs::root(&registry).mash("file");
    assert!(vfs::write_all(&registry, &file, &[0xff, 0xfe]).is_ok());
    assert!(vfs::is_file(&registry, &file));
    assert!(vfs::read_all(&registry, &file).is_err());
}

#[test]
fn test_write_all_of_nothing_gives_an_empty_file() {
    let registry = memfs();
    let file = vfs::root(&registry).mash("file");
    assert!(vfs::write_all(&registry, &file, b"").is_ok());
    assert!(vfs::is_file(&registry, &file));
    assert_eq!(vfs::read_all(&registry, &file).unwrap(), String::new());
}

#[test]
fn test_write_all_truncates() {
    let registry = memfs();
    let file = vfs::root(&registry).mash("file");
    assert!(vfs::write_all(&registry, &file, b"a longer first content").is_ok());
    assert!(vfs::write_all(&registry, &file, b"short").is_ok());
    assert_eq!(vfs::read_all(&registry, &file).unwrap(), "short".to_string());
}

#[test]
fn test_write_all_without_parent_is_an_error() {
    let registry = memfs();
    let file = vfs::root(&registry).mash("missing").mash("file");
    assert!(vfs::write_all(&registry, &file, b"data").is_err());
}

#[test]
fn test_write_all_over_a_directory_is_an_error() {
    let registry = memfs();
    let dir = vfs::root(&registry).mash("dir");
    assert!(vfs::mkdir_p(&registry, &dir).is_ok());
    assert!(vfs::write_all(&registry, &dir, b"data").is_err());
}

#[test]
fn test_write_read_remove_scenario() {
    let registry = memfs();
    let tmpdir = PathBuf::from("/tmpdir");
    let file1 = tmpdir.mash("file1");
    assert_eq!(vfs::mkdir_p(&registry, &tmpdir).unwrap(), tmpdir);
    assert!(vfs::write_all(&registry, &file1, "this is a test".as_bytes()).is_ok());
    assert_eq!(vfs::read_all(&registry, &file1).unwrap(), "this is a test".to_string());
    assert!(vfs::remove_all(&registry, &tmpdir).is_ok());
    assert!(!vfs::path_exists(&registry, &tmpdir));
    assert!(!vfs::path_exists(&registry, &file1));
}
