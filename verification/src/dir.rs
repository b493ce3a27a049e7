//! A view of a directory handle.
//!
//! Every operation of the handle is offered. An operation that only reads
//! is handed to the handle whatever the policy is. An operation that would
//! change the directory tree consults the guard first; the functions at the
//! end of this file that reach the handle for such an operation demand
//! that the policy lets mutation through, so a view that skipped the guard
//! would not verify.

use crate::error::{denied, forward, ViewError};
use crate::open_options::OpenOptions;
use crate::read_dir::ReadDirView;
use crate::view_kind::{check_mutation_pair, ViewKind};
use cap_std::fs::{Dir, DirBuilder, File, Metadata, Permissions, ReadDir};
use cap_std::AmbientAuthority;
use std::path::{Path, PathBuf};
use vstd::prelude::*;

verus! {

/// A view of a [`Dir`].
///
/// This provides the operations of `Dir`, but imposes restrictions
/// according to the view kind.
#[derive(Debug)]
pub struct DirView {
    dir: Dir,
    view_kind: ViewKind,
}

impl DirView {
    /// The handle this view wraps.
    pub closed spec fn handle(&self) -> Dir {
        self.dir
    }

    /// The policy of this view.
    pub closed spec fn spec_view_kind(&self) -> ViewKind {
        self.view_kind
    }

    /// The policy of this view. It is fixed when the view is made.
    #[verifier::when_used_as_spec(spec_view_kind)]
    pub fn view_kind(&self) -> (kind: ViewKind)
        ensures
            kind == self.view_kind(),
    {
        self.view_kind
    }

    /// Constructs a new instance of `Self` from the given [`Dir`] and
    /// [`ViewKind`].
    pub fn from_dir(dir: Dir, view_kind: ViewKind) -> (view: Self)
        ensures
            view.handle() == dir,
            view.view_kind() == view_kind,
    {
        Self { dir, view_kind }
    }

    /// Wraps a directory that a handle has opened with the given policy,
    /// or carries the handle's error.
    pub fn adopt(opened: Result<Dir, std::io::Error>, view_kind: ViewKind) -> (res: Result<
        Self,
        ViewError,
    >)
        ensures
            match opened {
                Ok(dir) => res matches Ok(view) && view.handle() == dir && view.view_kind()
                    == view_kind,
                Err(e) => res matches Err(ViewError::Io(carried)) && carried == e,
            },
    {
        match opened {
            Ok(dir) => Ok(Self::from_dir(dir, view_kind)),
            Err(e) => Err(ViewError::Io(e)),
        }
    }

    /// Attempts to open a file in read-only mode.
    ///
    /// This corresponds to `std::fs::File::open`, but only accesses paths
    /// relative to `self`.
    pub fn open(&self, path: &Path) -> (res: Result<File, ViewError>)
        ensures
            !denied(res),
    {
        forward(dir_open(&self.dir, path))
    }

    /// Opens a file at `path` with the options specified by `options`.
    ///
    /// A read-only view does not refuse options that ask for writing: it
    /// clears them and opens the file with what is left. Where what is
    /// left is no combination that a handle accepts, the handle fails: so
    /// does, under a read-only view, every request that does not ask to
    /// read.
    pub fn open_with(&self, path: &Path, options: &OpenOptions) -> (res: Result<File, ViewError>)
        ensures
            !denied(res),
            !options.restricted_to(self.view_kind()).is_valid() ==> res is Err,
    {
        let options = options.restrict(self.view_kind);
        forward(dir_open_with(self, path, &options))
    }

    /// Attempts to open a directory. The new view has the policy of this
    /// one.
    pub fn open_dir(&self, path: &Path) -> (res: Result<Self, ViewError>)
        ensures
            !denied(res),
            res matches Ok(view) ==> view.view_kind() == self.view_kind(),
    {
        Self::adopt(dir_open_dir(&self.dir, path), self.view_kind)
    }

    /// Creates a new, empty directory at the provided path.
    ///
    /// This corresponds to `std::fs::create_dir`, but only accesses paths
    /// relative to `self`.
    pub fn create_dir(&self, path: &Path) -> (res: Result<(), ViewError>)
        ensures
            denied(res) <==> self.view_kind() is Readonly,
    {
        match self.view_kind.check_mutation() {
            Ok(()) => forward(dir_create_dir(self, path)),
            Err(e) => Err(e),
        }
    }

    /// Recursively create a directory and all of its parent components if
    /// they are missing.
    pub fn create_dir_all(&self, path: &Path) -> (res: Result<(), ViewError>)
        ensures
            denied(res) <==> self.view_kind() is Readonly,
    {
        match self.view_kind.check_mutation() {
            Ok(()) => forward(dir_create_dir_all(self, path)),
            Err(e) => Err(e),
        }
    }

    /// Creates the specified directory with the options configured in the
    /// builder.
    pub fn create_dir_with(&self, path: &Path, dir_builder: &DirBuilder) -> (res: Result<
        (),
        ViewError,
    >)
        ensures
            denied(res) <==> self.view_kind() is Readonly,
    {
        match self.view_kind.check_mutation() {
            Ok(()) => forward(dir_create_dir_with(self, path, dir_builder)),
            Err(e) => Err(e),
        }
    }

    /// Opens a file in write-only mode, creating it if it is missing and
    /// truncating it if it is there.
    pub fn create(&self, path: &Path) -> (res: Result<File, ViewError>)
        ensures
            denied(res) <==> self.view_kind() is Readonly,
    {
        match self.view_kind.check_mutation() {
            Ok(()) => forward(dir_create(self, path)),
            Err(e) => Err(e),
        }
    }

    /// Returns the canonical form of a path with all intermediate
    /// components normalized and symbolic links resolved, relative to the
    /// directory represented by `self`.
    pub fn canonicalize(&self, path: &Path) -> (res: Result<PathBuf, ViewError>)
        ensures
            !denied(res),
    {
        forward(dir_canonicalize(&self.dir, path))
    }

    /// Copies the contents of one file to another, together with its
    /// permission bits. Both views must let mutation through.
    pub fn copy(&self, from: &Path, to_dir: &Self, to: &Path) -> (res: Result<u64, ViewError>)
        ensures
            denied(res) <==> (self.view_kind() is Readonly || to_dir.view_kind() is Readonly),
    {
        match check_mutation_pair(self.view_kind, to_dir.view_kind) {
            Ok(()) => forward(dir_copy(self, from, to_dir, to)),
            Err(e) => Err(e),
        }
    }

    /// Creates a new hard link on a filesystem. Both views must let
    /// mutation through.
    pub fn hard_link(&self, src: &Path, dst_dir: &Self, dst: &Path) -> (res: Result<(), ViewError>)
        ensures
            denied(res) <==> (self.view_kind() is Readonly || dst_dir.view_kind() is Readonly),
    {
        match check_mutation_pair(self.view_kind, dst_dir.view_kind) {
            Ok(()) => forward(dir_hard_link(self, src, dst_dir, dst)),
            Err(e) => Err(e),
        }
    }

    /// Given a path, query the file system to get information about a
    /// file, directory, etc.
    pub fn metadata(&self, path: &Path) -> (res: Result<Metadata, ViewError>)
        ensures
            !denied(res),
    {
        forward(dir_metadata(&self.dir, path))
    }

    /// Queries metadata about the underlying directory.
    pub fn dir_metadata(&self) -> (res: Result<Metadata, ViewError>)
        ensures
            !denied(res),
    {
        forward(dir_dir_metadata(&self.dir))
    }

    /// Returns a listing of the entries within `self`. The listing has
    /// the policy of this view.
    pub fn entries(&self) -> (res: Result<ReadDirView, ViewError>)
        ensures
            !denied(res),
            res matches Ok(listing) ==> listing.view_kind() == self.view_kind(),
    {
        ReadDirView::adopt(dir_entries(&self.dir), self.view_kind)
    }

    /// Returns a listing of the entries within a directory. The listing
    /// has the policy of this view.
    pub fn read_dir(&self, path: &Path) -> (res: Result<ReadDirView, ViewError>)
        ensures
            !denied(res),
            res matches Ok(listing) ==> listing.view_kind() == self.view_kind(),
    {
        ReadDirView::adopt(dir_read_dir(&self.dir, path), self.view_kind)
    }

    /// Read the entire contents of a file into a bytes vector.
    pub fn read(&self, path: &Path) -> (res: Result<Vec<u8>, ViewError>)
        ensures
            !denied(res),
    {
        forward(dir_read(&self.dir, path))
    }

    /// Reads a symbolic link, returning the file that the link points to.
    pub fn read_link(&self, path: &Path) -> (res: Result<PathBuf, ViewError>)
        ensures
            !denied(res),
    {
        forward(dir_read_link(&self.dir, path))
    }

    /// Read the entire contents of a file into a string.
    pub fn read_to_string(&self, path: &Path) -> (res: Result<String, ViewError>)
        ensures
            !denied(res),
    {
        forward(dir_read_to_string(&self.dir, path))
    }

    /// Removes an empty directory.
    pub fn remove_dir(&self, path: &Path) -> (res: Result<(), ViewError>)
        ensures
            denied(res) <==> self.view_kind() is Readonly,
    {
        match self.view_kind.check_mutation() {
            Ok(()) => forward(dir_remove_dir(self, path)),
            Err(e) => Err(e),
        }
    }

    /// Removes a directory at this path, after removing all its contents.
    /// Use carefully!
    pub fn remove_dir_all(&self, path: &Path) -> (res: Result<(), ViewError>)
        ensures
            denied(res) <==> self.view_kind() is Readonly,
    {
        match self.view_kind.check_mutation() {
            Ok(()) => forward(dir_remove_dir_all(self, path)),
            Err(e) => Err(e),
        }
    }

    /// Remove the directory referenced by `self` and consume `self`.
    ///
    /// Removal is not guaranteed to be atomic with respect to a concurrent
    /// rename of the directory.
    pub fn remove_open_dir(self) -> (res: Result<(), ViewError>)
        ensures
            denied(res) <==> self.view_kind() is Readonly,
    {
        match self.view_kind.check_mutation() {
            Ok(()) => forward(dir_remove_open_dir(self)),
            Err(e) => Err(e),
        }
    }

    /// Removes the directory referenced by `self`, after removing all its
    /// contents, and consume `self`. Use carefully!
    pub fn remove_open_dir_all(self) -> (res: Result<(), ViewError>)
        ensures
            denied(res) <==> self.view_kind() is Readonly,
    {
        match self.view_kind.check_mutation() {
            Ok(()) => forward(dir_remove_open_dir_all(self)),
            Err(e) => Err(e),
        }
    }

    /// Removes a file from a filesystem.
    pub fn remove_file(&self, path: &Path) -> (res: Result<(), ViewError>)
        ensures
            denied(res) <==> self.view_kind() is Readonly,
    {
        match self.view_kind.check_mutation() {
            Ok(()) => forward(dir_remove_file(self, path)),
            Err(e) => Err(e),
        }
    }

    /// Rename a file or directory to a new name, replacing the file at
    /// `to` if it already exists. Both views must let mutation through.
    pub fn rename(&self, from: &Path, to_dir: &Self, to: &Path) -> (res: Result<(), ViewError>)
        ensures
            denied(res) <==> (self.view_kind() is Readonly || to_dir.view_kind() is Readonly),
    {
        match check_mutation_pair(self.view_kind, to_dir.view_kind) {
            Ok(()) => forward(dir_rename(self, from, to_dir, to)),
            Err(e) => Err(e),
        }
    }

    /// Changes the permissions found on a file or a directory.
    pub fn set_permissions(&self, path: &Path, perm: Permissions) -> (res: Result<(), ViewError>)
        ensures
            denied(res) <==> self.view_kind() is Readonly,
    {
        match self.view_kind.check_mutation() {
            Ok(()) => forward(dir_set_permissions(self, path, perm)),
            Err(e) => Err(e),
        }
    }

    /// Query the metadata about a file without following symlinks.
    pub fn symlink_metadata(&self, path: &Path) -> (res: Result<Metadata, ViewError>)
        ensures
            !denied(res),
    {
        forward(dir_symlink_metadata(&self.dir, path))
    }

    /// Write a slice as the entire contents of a file.
    pub fn write(&self, path: &Path, contents: &[u8]) -> (res: Result<(), ViewError>)
        ensures
            denied(res) <==> self.view_kind() is Readonly,
    {
        match self.view_kind.check_mutation() {
            Ok(()) => forward(dir_write(self, path, contents)),
            Err(e) => Err(e),
        }
    }

    /// Creates a new symbolic link on a filesystem.
    ///
    /// The `target` argument provides what the symlink points at. The
    /// `link` argument provides the name of the created symlink, and is
    /// resolved relative to `self`; `target` is not resolved here.
    pub fn symlink(&self, target: &Path, link: &Path) -> (res: Result<(), ViewError>)
        ensures
            denied(res) <==> self.view_kind() is Readonly,
    {
        match self.view_kind.check_mutation() {
            Ok(()) => forward(dir_symlink(self, target, link)),
            Err(e) => Err(e),
        }
    }

    /// Creates a new view that shares the same underlying file handle as
    /// the existing one, with the same policy.
    pub fn try_clone(&self) -> (res: Result<Self, ViewError>)
        ensures
            !denied(res),
            res matches Ok(view) ==> view.view_kind() == self.view_kind(),
    {
        Self::adopt(dir_try_clone(&self.dir), self.view_kind)
    }

    /// Returns `true` if the path points at an existing entity.
    pub fn path_exists(&self, path: &Path) -> bool {
        dir_exists(&self.dir, path)
    }

    /// Returns `true` if the path points at an existing entity, and the
    /// handle's error if that cannot be told.
    pub fn try_exists(&self, path: &Path) -> (res: Result<bool, ViewError>)
        ensures
            !denied(res),
    {
        forward(dir_try_exists(&self.dir, path))
    }

    /// Returns `true` if the path exists on disk and is pointing at a
    /// regular file.
    pub fn is_file(&self, path: &Path) -> bool {
        dir_is_file(&self.dir, path)
    }

    /// Checks if `path` is a directory.
    pub fn is_dir(&self, path: &Path) -> bool {
        dir_is_dir(&self.dir, path)
    }

    /// Constructs a new instance of `Self` by opening the given path as a
    /// directory using the host process' ambient authority.
    ///
    /// This function is not sandboxed and may access any path that the
    /// host process has access to. The view has the policy given here.
    pub fn open_ambient_dir(
        path: &Path,
        view_kind: ViewKind,
        ambient_authority: AmbientAuthority,
    ) -> (res: Result<Self, ViewError>)
        ensures
            !denied(res),
            res matches Ok(view) ==> view.view_kind() == view_kind,
    {
        Self::adopt(dir_open_ambient_dir(path, ambient_authority), view_kind)
    }

    /// Constructs a new instance of `Self` by opening the parent directory
    /// (aka "..") of `self`, using the host process' ambient authority.
    ///
    /// This function accesses a directory outside of the `self` subtree.
    /// The view has the policy given here, whatever the policy of `self`.
    pub fn open_parent_dir(&self, view_kind: ViewKind, ambient_authority: AmbientAuthority) -> (res:
        Result<Self, ViewError>)
        ensures
            !denied(res),
            res matches Ok(view) ==> view.view_kind() == view_kind,
    {
        Self::adopt(dir_open_parent_dir(&self.dir, ambient_authority), view_kind)
    }

    /// Constructs a new instance of `Self` by opening anew the directory
    /// that `dir` refers to. The view has the policy given here.
    pub fn reopen_dir(dir: &Dir, view_kind: ViewKind) -> (res: Result<Self, ViewError>)
        ensures
            !denied(res),
            res matches Ok(view) ==> view.view_kind() == view_kind,
    {
        Self::adopt(dir_reopen_dir(dir), view_kind)
    }
}

/// Calls `cap_std::fs::Dir::open`.
#[verifier::external_body]
fn dir_open(dir: &Dir, path: &Path) -> (res: Result<File, std::io::Error>) {
    dir.open(path)
}

/// Calls `cap_std::fs::Dir::open_with` on the handle of `view`, with the
/// six flags of `options` set on a new `cap_std::fs::OpenOptions`. Under a
/// read-only policy the options must not ask for writing.
///
/// The call fails on a combination of flags that is not valid: before it
/// opens the file, `cap_primitives` turns the options into open flags
/// (`compute_oflags`), and that fails with `InvalidInput` on the
/// combinations that `std::fs::OpenOptions::open` documents as invalid.
#[verifier::external_body]
fn dir_open_with(view: &DirView, path: &Path, options: &OpenOptions) -> (res: Result<
    File,
    std::io::Error,
>)
    requires
        view.view_kind() is Readonly ==> !options.requests_write(),
    ensures
        !options.is_valid() ==> res is Err,
{
    let mut handle_options = cap_std::fs::OpenOptions::new();
    handle_options.read(options.read).write(options.write).append(options.append);
    handle_options.truncate(options.truncate).create(options.create).create_new(options.create_new);
    view.dir.open_with(path, &handle_options)
}

/// Calls `cap_std::fs::Dir::open_dir`.
#[verifier::external_body]
fn dir_open_dir(dir: &Dir, path: &Path) -> (res: Result<Dir, std::io::Error>) {
    dir.open_dir(path)
}

/// Calls `cap_std::fs::Dir::create_dir` on the handle of `view`, whose
/// policy must let mutation through.
#[verifier::external_body]
fn dir_create_dir(view: &DirView, path: &Path) -> (res: Result<(), std::io::Error>)
    requires
        view.view_kind().permits_mutation(),
{
    view.dir.create_dir(path)
}

/// Calls `cap_std::fs::Dir::create_dir_all` on the handle of `view`, whose
/// policy must let mutation through.
#[verifier::external_body]
fn dir_create_dir_all(view: &DirView, path: &Path) -> (res: Result<(), std::io::Error>)
    requires
        view.view_kind().permits_mutation(),
{
    view.dir.create_dir_all(path)
}

/// Calls `cap_std::fs::Dir::create_dir_with` on the handle of `view`,
/// whose policy must let mutation through.
#[verifier::external_body]
fn dir_create_dir_with(view: &DirView, path: &Path, dir_builder: &DirBuilder) -> (res: Result<
    (),
    std::io::Error,
>)
    requires
        view.view_kind().permits_mutation(),
{
    view.dir.create_dir_with(path, dir_builder)
}

/// Calls `cap_std::fs::Dir::create` on the handle of `view`, whose policy
/// must let mutation through.
#[verifier::external_body]
fn dir_create(view: &DirView, path: &Path) -> (res: Result<File, std::io::Error>)
    requires
        view.view_kind().permits_mutation(),
{
    view.dir.create(path)
}

/// Calls `cap_std::fs::Dir::canonicalize`.
#[verifier::external_body]
fn dir_canonicalize(dir: &Dir, path: &Path) -> (res: Result<PathBuf, std::io::Error>) {
    dir.canonicalize(path)
}

/// Calls `cap_std::fs::Dir::copy` from the handle of `view` to the handle
/// of `to_dir`. The policies of both must let mutation through.
#[verifier::external_body]
fn dir_copy(view: &DirView, from: &Path, to_dir: &DirView, to: &Path) -> (res: Result<
    u64,
    std::io::Error,
>)
    requires
        view.view_kind().permits_mutation(),
        to_dir.view_kind().permits_mutation(),
{
    view.dir.copy(from, &to_dir.dir, to)
}

/// Calls `cap_std::fs::Dir::hard_link` from the handle of `view` to the
/// handle of `dst_dir`. The policies of both must let mutation through.
#[verifier::external_body]
fn dir_hard_link(view: &DirView, src: &Path, dst_dir: &DirView, dst: &Path) -> (res: Result<
    (),
    std::io::Error,
>)
    requires
        view.view_kind().permits_mutation(),
        dst_dir.view_kind().permits_mutation(),
{
    view.dir.hard_link(src, &dst_dir.dir, dst)
}

/// Calls `cap_std::fs::Dir::metadata`.
#[verifier::external_body]
fn dir_metadata(dir: &Dir, path: &Path) -> (res: Result<Metadata, std::io::Error>) {
    dir.metadata(path)
}

/// Calls `cap_std::fs::Dir::dir_metadata`.
#[verifier::external_body]
fn dir_dir_metadata(dir: &Dir) -> (res: Result<Metadata, std::io::Error>) {
    dir.dir_metadata()
}

/// Calls `cap_std::fs::Dir::entries`.
#[verifier::external_body]
fn dir_entries(dir: &Dir) -> (res: Result<ReadDir, std::io::Error>) {
    dir.entries()
}

/// Calls `cap_std::fs::Dir::read_dir`.
#[verifier::external_body]
fn dir_read_dir(dir: &Dir, path: &Path) -> (res: Result<ReadDir, std::io::Error>) {
    dir.read_dir(path)
}

/// Calls `cap_std::fs::Dir::read`.
#[verifier::external_body]
fn dir_read(dir: &Dir, path: &Path) -> (res: Result<Vec<u8>, std::io::Error>) {
    dir.read(path)
}

/// Calls `cap_std::fs::Dir::read_link`.
#[verifier::external_body]
fn dir_read_link(dir: &Dir, path: &Path) -> (res: Result<PathBuf, std::io::Error>) {
    dir.read_link(path)
}

/// Calls `cap_std::fs::Dir::read_to_string`.
#[verifier::external_body]
fn dir_read_to_string(dir: &Dir, path: &Path) -> (res: Result<String, std::io::Error>) {
    dir.read_to_string(path)
}

/// Calls `cap_std::fs::Dir::remove_dir` on the handle of `view`, whose
/// policy must let mutation through.
#[verifier::external_body]
fn dir_remove_dir(view: &DirView, path: &Path) -> (res: Result<(), std::io::Error>)
    requires
        view.view_kind().permits_mutation(),
{
    view.dir.remove_dir(path)
}

/// Calls `cap_std::fs::Dir::remove_dir_all` on the handle of `view`, whose
/// policy must let mutation through.
#[verifier::external_body]
fn dir_remove_dir_all(view: &DirView, path: &Path) -> (res: Result<(), std::io::Error>)
    requires
        view.view_kind().permits_mutation(),
{
    view.dir.remove_dir_all(path)
}

/// Calls `cap_std::fs::Dir::remove_open_dir` on the handle of `view`,
/// whose policy must let mutation through.
#[verifier::external_body]
fn dir_remove_open_dir(view: DirView) -> (res: Result<(), std::io::Error>)
    requires
        view.view_kind().permits_mutation(),
{
    view.dir.remove_open_dir()
}

/// Calls `cap_std::fs::Dir::remove_open_dir_all` on the handle of `view`,
/// whose policy must let mutation through.
#[verifier::external_body]
fn dir_remove_open_dir_all(view: DirView) -> (res: Result<(), std::io::Error>)
    requires
        view.view_kind().permits_mutation(),
{
    view.dir.remove_open_dir_all()
}

/// Calls `cap_std::fs::Dir::remove_file` on the handle of `view`, whose
/// policy must let mutation through.
#[verifier::external_body]
fn dir_remove_file(view: &DirView, path: &Path) -> (res: Result<(), std::io::Error>)
    requires
        view.view_kind().permits_mutation(),
{
    view.dir.remove_file(path)
}

/// Calls `cap_std::fs::Dir::rename` from the handle of `view` to the
/// handle of `to_dir`. The policies of both must let mutation through.
#[verifier::external_body]
fn dir_rename(view: &DirView, from: &Path, to_dir: &DirView, to: &Path) -> (res: Result<
    (),
    std::io::Error,
>)
    requires
        view.view_kind().permits_mutation(),
        to_dir.view_kind().permits_mutation(),
{
    view.dir.rename(from, &to_dir.dir, to)
}

/// Calls `cap_std::fs::Dir::set_permissions` on the handle of `view`,
/// whose policy must let mutation through.
#[verifier::external_body]
fn dir_set_permissions(view: &DirView, path: &Path, perm: Permissions) -> (res: Result<
    (),
    std::io::Error,
>)
    requires
        view.view_kind().permits_mutation(),
{
    view.dir.set_permissions(path, perm)
}

/// Calls `cap_std::fs::Dir::symlink_metadata`.
#[verifier::external_body]
fn dir_symlink_metadata(dir: &Dir, path: &Path) -> (res: Result<Metadata, std::io::Error>) {
    dir.symlink_metadata(path)
}

/// Calls `cap_std::fs::Dir::write` on the handle of `view`, whose policy
/// must let mutation through.
#[verifier::external_body]
fn dir_write(view: &DirView, path: &Path, contents: &[u8]) -> (res: Result<(), std::io::Error>)
    requires
        view.view_kind().permits_mutation(),
{
    view.dir.write(path, contents)
}

/// Calls `cap_std::fs::Dir::symlink` on the handle of `view`, whose policy
/// must let mutation through.
#[verifier::external_body]
fn dir_symlink(view: &DirView, target: &Path, link: &Path) -> (res: Result<(), std::io::Error>)
    requires
        view.view_kind().permits_mutation(),
{
    view.dir.symlink(target, link)
}

/// Calls `cap_std::fs::Dir::try_clone`.
#[verifier::external_body]
fn dir_try_clone(dir: &Dir) -> (res: Result<Dir, std::io::Error>) {
    dir.try_clone()
}

/// Calls `cap_std::fs::Dir::exists`.
#[verifier::external_body]
fn dir_exists(dir: &Dir, path: &Path) -> (found: bool) {
    dir.exists(path)
}

/// Calls `cap_std::fs::Dir::try_exists`.
#[verifier::external_body]
fn dir_try_exists(dir: &Dir, path: &Path) -> (res: Result<bool, std::io::Error>) {
    dir.try_exists(path)
}

/// Calls `cap_std::fs::Dir::is_file`.
#[verifier::external_body]
fn dir_is_file(dir: &Dir, path: &Path) -> (found: bool) {
    dir.is_file(path)
}

/// Calls `cap_std::fs::Dir::is_dir`.
#[verifier::external_body]
fn dir_is_dir(dir: &Dir, path: &Path) -> (found: bool) {
    dir.is_dir(path)
}

/// Calls `cap_std::fs::Dir::open_ambient_dir`.
#[verifier::external_body]
fn dir_open_ambient_dir(path: &Path, ambient_authority: AmbientAuthority) -> (res: Result<
    Dir,
    std::io::Error,
>) {
    Dir::open_ambient_dir(path, ambient_authority)
}

/// Calls `cap_std::fs::Dir::open_parent_dir`.
#[verifier::external_body]
fn dir_open_parent_dir(dir: &Dir, ambient_authority: AmbientAuthority) -> (res: Result<
    Dir,
    std::io::Error,
>) {
    dir.open_parent_dir(ambient_authority)
}

/// Calls `cap_std::fs::Dir::reopen_dir` with a `Dir` as the handle to
/// open anew.
#[verifier::external_body]
fn dir_reopen_dir(dir: &Dir) -> (res: Result<Dir, std::io::Error>) {
    Dir::reopen_dir(dir)
}

} // verus!
