//! A namespaced facade over a swappable virtual-filesystem backend.
//!
//! A [`Registry`] holds the backend that is currently active: the real filesystem by
//! default, or an in-memory simulation. Every operation of this crate takes the
//! registry, takes a handle to its current backend and forwards the call to it,
//! handing back the backend's result or error unchanged. What the result is depends on
//! the filesystem behind the backend; the contracts state the little that does not.
//!
//! Copying and moving are the exception. A backend cannot copy from or move every
//! path, so [`copy`], [`copy_text`], [`move_p`] and [`move_text`] resolve the paths
//! first, test them, and refuse with an error of their own what the backend cannot
//! take.
//!
//! ```ignore
//! let mut registry = rivia_vfs::Registry::new();
//! rivia_vfs::set_memfs(&mut registry).unwrap();
//! let root = rivia_vfs::root(&registry);
//! ```

pub mod backend;
pub mod moving;
pub mod registry;
pub mod text;

pub use backend::{is_empty_path, is_root_path, BackendKind};
pub use registry::Registry;

use backend::{holds_memfs, kind_of, path_is_empty, path_is_root};
use moving::{move_step, path_to_hand, MoveStep};
use rivia::errors::RvError;
use rivia::sys::{Chmod, Chown, Copier, Entries, Vfs, VfsEntry};
use std::path::{Path, PathBuf};
use text::{
    copies_safely, copies_safely_text, is_within_text, moves_safely, moves_safely_text, parent_text,
};
use vstd::prelude::*;

verus! {

/// Sets the backend that the registry hands out from now on.
///
/// Handles taken before the call keep the backend they were taken for.
pub fn set(registry: &mut Registry, vfs: Vfs) -> (r: Result<(), RvError>)
    ensures
        r is Ok,
        old(registry).replaced_by(vfs, *final(registry)),
{
    registry.replace(vfs)
}

/// Switches the registry to a new in-memory backend, unless its current backend is
/// in-memory already.
pub fn set_memfs(registry: &mut Registry) -> (r: Result<(), RvError>)
    ensures
        r is Ok,
        old(registry).switched_to(BackendKind::Memfs, *final(registry)),
        kind_of(final(registry)@) == BackendKind::Memfs,
{
    registry.replace_if_different(BackendKind::Memfs)
}

/// Switches the registry to the real-filesystem backend, unless its current backend is
/// the real filesystem already.
pub fn set_stdfs(registry: &mut Registry) -> (r: Result<(), RvError>)
    ensures
        r is Ok,
        old(registry).switched_to(BackendKind::Stdfs, *final(registry)),
        kind_of(final(registry)@) == BackendKind::Stdfs,
{
    registry.replace_if_different(BackendKind::Stdfs)
}

/// Returns the path in an absolute clean form, as the current backend resolves it.
///
/// Fails on the empty path.
pub fn abs(registry: &Registry, path: &Path) -> (r: Result<PathBuf, RvError>)
    ensures
        path_is_empty(path) ==> r is Err,
{
    let handle = registry.get_current();
    backend::vfs_abs(&handle, path)
}

/// Returns all directories below the given path, recursively, as the current backend lists them.
///
/// Fails on the empty path.
pub fn all_dirs(registry: &Registry, path: &Path) -> (r: Result<Vec<PathBuf>, RvError>)
    ensures
        path_is_empty(path) ==> r is Err,
{
    let handle = registry.get_current();
    backend::vfs_all_dirs(&handle, path)
}

/// Returns all files below the given path, recursively, as the current backend lists them.
///
/// Fails on the empty path.
pub fn all_files(registry: &Registry, path: &Path) -> (r: Result<Vec<PathBuf>, RvError>)
    ensures
        path_is_empty(path) ==> r is Err,
{
    let handle = registry.get_current();
    backend::vfs_all_files(&handle, path)
}

/// Returns all paths below the given path, recursively, as the current backend lists them.
///
/// Fails on the empty path.
pub fn all_paths(registry: &Registry, path: &Path) -> (r: Result<Vec<PathBuf>, RvError>)
    ensures
        path_is_empty(path) ==> r is Err,
{
    let handle = registry.get_current();
    backend::vfs_all_paths(&handle, path)
}

/// Changes the permissions of the path, recursively, on the current backend.
///
/// Fails on the empty path.
pub fn chmod(registry: &Registry, path: &Path, mode: u32) -> (r: Result<(), RvError>)
    ensures
        path_is_empty(path) ==> r is Err,
{
    let handle = registry.get_current();
    backend::vfs_chmod(&handle, path, mode)
}

/// Returns the current backend's builder for advanced permission changes on the path.
///
/// Fails on the empty path.
pub fn chmod_b(registry: &Registry, path: &Path) -> (r: Result<Chmod, RvError>)
    ensures
        path_is_empty(path) ==> r is Err,
{
    let handle = registry.get_current();
    backend::vfs_chmod_b(&handle, path)
}

/// Changes the ownership of the path, recursively, on the current backend.
///
/// Fails on the empty path.
pub fn chown(registry: &Registry, path: &Path, uid: u32, gid: u32) -> (r: Result<(), RvError>)
    ensures
        path_is_empty(path) ==> r is Err,
{
    let handle = registry.get_current();
    backend::vfs_chown(&handle, path, uid, gid)
}

/// Returns the current backend's builder for advanced ownership changes on the path.
///
/// Fails on the empty path.
pub fn chown_b(registry: &Registry, path: &Path) -> (r: Result<Chown, RvError>)
    ensures
        path_is_empty(path) ==> r is Err,
{
    let handle = registry.get_current();
    backend::vfs_chown_b(&handle, path)
}

/// Copies `src` to `dst`, recursively, on the current backend.
///
/// The source is resolved first, and the copy is made from its resolved path: see
/// [`copy_text`] for the sources that are refused. Fails where either path is empty.
pub fn copy(registry: &Registry, src: &Path, dst: &Path) -> (r: Result<(), RvError>)
    ensures
        path_is_empty(src) || path_is_empty(dst) ==> r is Err,
{
    let handle = registry.get_current();
    match backend::vfs_abs(&handle, src) {
        Err(e) => Err(e),
        Ok(resolved) => match backend::path_to_text(&resolved) {
            Err(e) => Err(e),
            Ok(text) => copy_text(registry, text.as_str(), dst),
        },
    }
}

/// Copies from the source with the given text to `dst`, recursively, on the current
/// backend.
///
/// A backend cannot copy from every source: it is handed the text only where the text
/// is absolute, holds neither `~` nor `$` and is made of characters of one byte. Any
/// other text is refused with an error, and so is an empty `dst`.
pub fn copy_text(registry: &Registry, src: &str, dst: &Path) -> (r: Result<(), RvError>)
    ensures
        !copies_safely(src@) ==> r is Err,
        path_is_empty(dst) ==> r is Err,
{
    if copies_safely_text(src) {
        let handle = registry.get_current();
        backend::vfs_copy(&handle, src, dst)
    } else {
        Err(backend::refusal("cannot copy from this path"))
    }
}

/// Returns the current backend's builder for advanced copies of `src` to `dst`.
///
/// Always succeeds: the paths are looked at only when the copier runs.
pub fn copy_b(registry: &Registry, src: &Path, dst: &Path) -> (r: Result<Copier, RvError>)
    ensures
        r is Ok,
{
    let handle = registry.get_current();
    backend::vfs_copy_b(&handle, src, dst)
}

/// Returns the working directory of the current backend.
///
/// Always succeeds on the in-memory backend.
pub fn cwd(registry: &Registry) -> (r: Result<PathBuf, RvError>)
    ensures
        holds_memfs(registry@) ==> r is Ok,
{
    let handle = registry.get_current();
    backend::vfs_cwd(&handle)
}

/// Returns the directories directly under the given path, as the current backend lists them.
///
/// Fails on the empty path.
pub fn dirs(registry: &Registry, path: &Path) -> (r: Result<Vec<PathBuf>, RvError>)
    ensures
        path_is_empty(path) ==> r is Err,
{
    let handle = registry.get_current();
    backend::vfs_dirs(&handle, path)
}

/// Returns the current backend's traversal of the given path.
///
/// Fails on the empty path.
pub fn entries(registry: &Registry, path: &Path) -> (r: Result<Entries, RvError>)
    ensures
        path_is_empty(path) ==> r is Err,
{
    let handle = registry.get_current();
    backend::vfs_entries(&handle, path)
}

/// Returns the current backend's entry for the given path.
///
/// Fails on the empty path.
pub fn entry(registry: &Registry, path: &Path) -> (r: Result<VfsEntry, RvError>)
    ensures
        path_is_empty(path) ==> r is Err,
{
    let handle = registry.get_current();
    backend::vfs_entry(&handle, path)
}

/// Whether the path exists on the current backend.
///
/// The empty path gives `false`.
pub fn path_exists(registry: &Registry, path: &Path) -> (r: bool)
    ensures
        path_is_empty(path) ==> !r,
{
    let handle = registry.get_current();
    backend::vfs_exists(&handle, path)
}

/// Returns the files directly under the given path, as the current backend lists them.
///
/// Fails on the empty path.
pub fn files(registry: &Registry, path: &Path) -> (r: Result<Vec<PathBuf>, RvError>)
    ensures
        path_is_empty(path) ==> r is Err,
{
    let handle = registry.get_current();
    backend::vfs_files(&handle, path)
}

/// Returns the group id that owns the path on the current backend.
///
/// Fails on the empty path.
pub fn gid(registry: &Registry, path: &Path) -> (r: Result<u32, RvError>)
    ensures
        path_is_empty(path) ==> r is Err,
{
    let handle = registry.get_current();
    backend::vfs_gid(&handle, path)
}

/// Whether the path exists on the current backend and is executable.
///
/// The empty path gives `false`.
pub fn is_exec(registry: &Registry, path: &Path) -> (r: bool)
    ensures
        path_is_empty(path) ==> !r,
{
    let handle = registry.get_current();
    backend::vfs_is_exec(&handle, path)
}

/// Whether the path exists on the current backend and is a directory.
///
/// The empty path gives `false`.
pub fn is_dir(registry: &Registry, path: &Path) -> (r: bool)
    ensures
        path_is_empty(path) ==> !r,
{
    let handle = registry.get_current();
    backend::vfs_is_dir(&handle, path)
}

/// Whether the path exists on the current backend and is a file.
///
/// The empty path gives `false`.
pub fn is_file(registry: &Registry, path: &Path) -> (r: bool)
    ensures
        path_is_empty(path) ==> !r,
{
    let handle = registry.get_current();
    backend::vfs_is_file(&handle, path)
}

/// Whether the path exists on the current backend and is read-only.
///
/// The empty path gives `false`.
pub fn is_readonly(registry: &Registry, path: &Path) -> (r: bool)
    ensures
        path_is_empty(path) ==> !r,
{
    let handle = registry.get_current();
    backend::vfs_is_readonly(&handle, path)
}

/// Whether the path exists on the current backend and is a symbolic link.
///
/// The empty path gives `false`.
pub fn is_symlink(registry: &Registry, path: &Path) -> (r: bool)
    ensures
        path_is_empty(path) ==> !r,
{
    let handle = registry.get_current();
    backend::vfs_is_symlink(&handle, path)
}

/// Whether the path exists on the current backend and is a symbolic link to a directory.
///
/// The empty path gives `false`.
pub fn is_symlink_dir(registry: &Registry, path: &Path) -> (r: bool)
    ensures
        path_is_empty(path) ==> !r,
{
    let handle = registry.get_current();
    backend::vfs_is_symlink_dir(&handle, path)
}

/// Whether the path exists on the current backend and is a symbolic link to a file.
///
/// The empty path gives `false`.
pub fn is_symlink_file(registry: &Registry, path: &Path) -> (r: bool)
    ensures
        path_is_empty(path) ==> !r,
{
    let handle = registry.get_current();
    backend::vfs_is_symlink_file(&handle, path)
}

/// Creates the directory and any missing parents with the given mode on the current backend.
///
/// Fails on the empty path.
pub fn mkdir_m(registry: &Registry, path: &Path, mode: u32) -> (r: Result<PathBuf, RvError>)
    ensures
        path_is_empty(path) ==> r is Err,
{
    let handle = registry.get_current();
    backend::vfs_mkdir_m(&handle, path, mode)
}

/// Creates the directory and any missing parents on the current backend.
///
/// Fails on the empty path.
pub fn mkdir_p(registry: &Registry, path: &Path) -> (r: Result<PathBuf, RvError>)
    ensures
        path_is_empty(path) ==> r is Err,
{
    let handle = registry.get_current();
    backend::vfs_mkdir_p(&handle, path)
}

/// Creates an empty file on the current backend.
///
/// Fails on the empty path.
pub fn mkfile(registry: &Registry, path: &Path) -> (r: Result<PathBuf, RvError>)
    ensures
        path_is_empty(path) ==> r is Err,
{
    let handle = registry.get_current();
    backend::vfs_mkfile(&handle, path)
}

/// Creates an empty file with the given mode on the current backend.
///
/// Fails on the empty path.
pub fn mkfile_m(registry: &Registry, path: &Path, mode: u32) -> (r: Result<PathBuf, RvError>)
    ensures
        path_is_empty(path) ==> r is Err,
{
    let handle = registry.get_current();
    backend::vfs_mkfile_m(&handle, path, mode)
}

/// Returns the permissions of the path on the current backend.
///
/// Fails on the empty path.
pub fn mode(registry: &Registry, path: &Path) -> (r: Result<u32, RvError>)
    ensures
        path_is_empty(path) ==> r is Err,
{
    let handle = registry.get_current();
    backend::vfs_mode(&handle, path)
}

/// Moves a file or directory on the current backend.
///
/// Both paths are resolved first. The in-memory backend is then handed the resolved
/// paths and the real-filesystem backend the paths as they were given, each as text:
/// see [`move_text`] for the moves that are refused. Fails where either path is empty.
pub fn move_p(registry: &Registry, src: &Path, dst: &Path) -> (r: Result<(), RvError>)
    ensures
        path_is_empty(src) || path_is_empty(dst) ==> r is Err,
{
    let handle = registry.get_current();
    let from = match backend::vfs_abs(&handle, src) {
        Err(e) => { return Err(e); },
        Ok(resolved) => resolved,
    };
    let to = match backend::vfs_abs(&handle, dst) {
        Err(e) => { return Err(e); },
        Ok(resolved) => resolved,
    };
    let kind = registry.kind();
    let from = match backend::path_to_text(path_to_hand(kind, src, &from)) {
        Err(e) => { return Err(e); },
        Ok(text) => text,
    };
    let to = match backend::path_to_text(path_to_hand(kind, dst, &to)) {
        Err(e) => { return Err(e); },
        Ok(text) => text,
    };
    move_text(registry, from.as_str(), to.as_str())
}

/// Moves the file or directory with the text `src` to the text `dst` on the current
/// backend.
///
/// What is done with the move is decided by [`move_step`]. The real-filesystem backend
/// is handed any two texts. The in-memory backend cannot make every move: it is
/// handed the texts only where both are resolved paths, the source is made of
/// characters of one byte and the destination is neither the source nor under it.
/// Any other move on it is refused with an error, and so is an empty text on either
/// backend.
///
/// The in-memory backend moves the source before it looks for the directory that is
/// to hold it, and leaves it half moved where there is none. So it is asked first, and
/// handed only a destination that is a directory or stands in one; any other is
/// refused too.
pub fn move_text(registry: &Registry, src: &str, dst: &str) -> (r: Result<(), RvError>)
    ensures
        kind_of(registry@) == BackendKind::Memfs && !moves_safely(src@, dst@) ==> r is Err,
        src@.len() == 0 || dst@.len() == 0 ==> r is Err,
{
    let handle = registry.get_current();
    let kind = BackendKind::of(&handle);
    let safe = moves_safely_text(src, dst);
    let within = is_within_text(dst, src);
    let asked = kind == BackendKind::Memfs && safe;
    let dst_holds = asked && holds_entries(&handle, dst);
    let parent_holds = asked && holds_entries(&handle, parent_text(dst));
    match move_step(kind, safe, within, dst_holds, parent_holds) {
        MoveStep::HandOn => backend::vfs_move_p(&handle, src, dst),
        MoveStep::RefuseSelf => Err(backend::refusal("cannot move a path onto or into itself")),
        MoveStep::RefusePath => Err(backend::refusal("cannot move from or to this path in memory")),
        MoveStep::RefuseNoDirectory => Err(
            backend::refusal("cannot move to a path that stands in no directory"),
        ),
    }
}

/// Asks the backend whether the text names a directory of it, or a link to one.
fn holds_entries(vfs: &Vfs, text: &str) -> (b: bool) {
    let path = backend::text_to_path(text);
    backend::vfs_is_dir(vfs, &path) || backend::vfs_is_symlink_dir(vfs, &path)
}

/// Returns the user id and group id that own the path on the current backend.
///
/// Fails on the empty path.
pub fn owner(registry: &Registry, path: &Path) -> (r: Result<(u32, u32), RvError>)
    ensures
        path_is_empty(path) ==> r is Err,
{
    let handle = registry.get_current();
    backend::vfs_owner(&handle, path)
}

/// Returns the paths directly under the given path, as the current backend lists them.
///
/// Fails on the empty path.
pub fn paths(registry: &Registry, path: &Path) -> (r: Result<Vec<PathBuf>, RvError>)
    ensures
        path_is_empty(path) ==> r is Err,
{
    let handle = registry.get_current();
    backend::vfs_paths(&handle, path)
}

/// Reads the whole file at the path from the current backend.
///
/// Fails on the empty path.
pub fn read_all(registry: &Registry, path: &Path) -> (r: Result<String, RvError>)
    ensures
        path_is_empty(path) ==> r is Err,
{
    let handle = registry.get_current();
    backend::vfs_read_all(&handle, path)
}

/// Returns the relative path of the target that the link points to on the current backend.
///
/// Fails on the empty path.
pub fn readlink(registry: &Registry, path: &Path) -> (r: Result<PathBuf, RvError>)
    ensures
        path_is_empty(path) ==> r is Err,
{
    let handle = registry.get_current();
    backend::vfs_readlink(&handle, path)
}

/// Returns the absolute path of the target that the link points to on the current backend.
///
/// Fails on the empty path.
pub fn readlink_abs(registry: &Registry, path: &Path) -> (r: Result<PathBuf, RvError>)
    ensures
        path_is_empty(path) ==> r is Err,
{
    let handle = registry.get_current();
    backend::vfs_readlink_abs(&handle, path)
}

/// Removes the file or empty directory at the path from the current backend.
///
/// Fails on the empty path.
pub fn remove(registry: &Registry, path: &Path) -> (r: Result<(), RvError>)
    ensures
        path_is_empty(path) ==> r is Err,
{
    let handle = registry.get_current();
    backend::vfs_remove(&handle, path)
}

/// Removes the path and everything below it from the current backend.
///
/// Fails on the empty path.
pub fn remove_all(registry: &Registry, path: &Path) -> (r: Result<(), RvError>)
    ensures
        path_is_empty(path) ==> r is Err,
{
    let handle = registry.get_current();
    backend::vfs_remove_all(&handle, path)
}

/// Returns the root directory of the current backend.
///
/// Both kinds of backend are rooted at `/`.
pub fn root(registry: &Registry) -> (r: PathBuf)
    ensures
        path_is_root(r),
{
    let handle = registry.get_current();
    backend::vfs_root(&handle)
}

/// Sets the working directory of the current backend.
///
/// Fails on the empty path.
pub fn set_cwd(registry: &Registry, path: &Path) -> (r: Result<PathBuf, RvError>)
    ensures
        path_is_empty(path) ==> r is Err,
{
    let handle = registry.get_current();
    backend::vfs_set_cwd(&handle, path)
}

/// Creates a symbolic link at `link` that points to `target` on the current backend.
///
/// Fails where the link's path is empty.
pub fn symlink(registry: &Registry, link: &Path, target: &Path) -> (r: Result<PathBuf, RvError>)
    ensures
        path_is_empty(link) ==> r is Err,
{
    let handle = registry.get_current();
    backend::vfs_symlink(&handle, link, target)
}

/// Returns the user id that owns the path on the current backend.
///
/// Fails on the empty path.
pub fn uid(registry: &Registry, path: &Path) -> (r: Result<u32, RvError>)
    ensures
        path_is_empty(path) ==> r is Err,
{
    let handle = registry.get_current();
    backend::vfs_uid(&handle, path)
}

/// Writes the data to the file at the path on the current backend, creating or truncating it.
///
/// Fails on the empty path.
pub fn write_all(registry: &Registry, path: &Path, data: &[u8]) -> (r: Result<(), RvError>)
    ensures
        path_is_empty(path) ==> r is Err,
{
    let handle = registry.get_current();
    backend::vfs_write_all(&handle, path, data)
}

} // verus!
