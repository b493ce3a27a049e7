//! An entry of a directory, seen through a view whose paths are UTF-8
//! text.

use crate::dir_utf8::DirViewUtf8;
use crate::error::{denied, forward, ViewError};
use crate::open_options::OpenOptions;
use crate::read_dir_utf8::ReadDirViewUtf8;
use crate::view_kind::ViewKind;
use cap_std::fs::{FileType, Metadata};
use cap_std::fs_utf8::{Dir, DirEntry, File};
use vstd::prelude::*;

verus! {

/// Entries returned by a [`ReadDirViewUtf8`](crate::read_dir_utf8::ReadDirViewUtf8).
///
/// This corresponds to `std::fs::DirEntry`.
///
/// Unlike `std::fs::DirEntry`, this has no `path`: a path that leads
/// outside the view would let its holder step around the policy. There is
/// `file_name`, and there are `open`, `open_with`, `open_dir`,
/// `remove_file` and `remove_dir` to open or remove the entry directly.
#[derive(Debug)]
pub struct DirEntryViewUtf8 {
    entry: DirEntry,
    view_kind: ViewKind,
}

impl DirEntryViewUtf8 {
    /// The entry this view wraps.
    pub closed spec fn handle(&self) -> DirEntry {
        self.entry
    }

    /// The policy of this entry.
    pub closed spec fn spec_view_kind(&self) -> ViewKind {
        self.view_kind
    }

    /// The policy of this entry. It is the policy of the listing that
    /// handed the entry out.
    #[verifier::when_used_as_spec(spec_view_kind)]
    pub fn view_kind(&self) -> (kind: ViewKind)
        ensures
            kind == self.view_kind(),
    {
        self.view_kind
    }

    /// Wraps what a cursor has found with the given policy: the end of
    /// the listing stays the end, an entry is wrapped, an error is
    /// carried.
    pub(crate) fn adopt(
        found: Option<Result<DirEntry, std::io::Error>>,
        view_kind: ViewKind,
    ) -> (item: Option<Result<Self, ViewError>>)
        ensures
            match found {
                None => item is None,
                Some(Ok(entry)) => item matches Some(Ok(wrapped)) && wrapped.handle() == entry
                    && wrapped.view_kind() == view_kind,
                Some(Err(e)) => item matches Some(Err(ViewError::Io(carried))) && carried == e,
            },
    {
        match found {
            None => None,
            Some(Ok(entry)) => Some(Ok(Self { entry, view_kind })),
            Some(Err(e)) => Some(Err(ViewError::Io(e))),
        }
    }

    /// Open the file for reading.
    pub fn open(&self) -> (res: Result<File, ViewError>)
        ensures
            !denied(res),
    {
        forward(entry_open(&self.entry))
    }

    /// Open the file with the given options.
    ///
    /// A read-only entry does not refuse options that ask for writing: it
    /// clears them and opens the file with what is left. Where what is
    /// left is no combination that a handle accepts, the handle fails: so
    /// does, under a read-only entry, every request that does not ask to
    /// read.
    pub fn open_with(&self, options: &OpenOptions) -> (res: Result<File, ViewError>)
        ensures
            !denied(res),
            !options.restricted_to(self.view_kind()).is_valid() ==> res is Err,
    {
        let options = options.restrict(self.view_kind);
        forward(entry_open_with(self, &options))
    }

    /// Open the entry as a directory. The new view has the policy of this
    /// entry.
    pub fn open_dir(&self) -> (res: Result<DirViewUtf8, ViewError>)
        ensures
            !denied(res),
            res matches Ok(view) ==> view.view_kind() == self.view_kind(),
    {
        DirViewUtf8::adopt(entry_open_dir(&self.entry), self.view_kind)
    }

    /// Removes the file from its filesystem.
    pub fn remove_file(&self) -> (res: Result<(), ViewError>)
        ensures
            denied(res) <==> self.view_kind() is Readonly,
    {
        match self.view_kind.check_mutation() {
            Ok(()) => forward(entry_remove_file(self)),
            Err(e) => Err(e),
        }
    }

    /// Removes the directory from its filesystem.
    pub fn remove_dir(&self) -> (res: Result<(), ViewError>)
        ensures
            denied(res) <==> self.view_kind() is Readonly,
    {
        match self.view_kind.check_mutation() {
            Ok(()) => forward(entry_remove_dir(self)),
            Err(e) => Err(e),
        }
    }

    /// Returns the metadata for the file that this entry points at.
    pub fn metadata(&self) -> (res: Result<Metadata, ViewError>)
        ensures
            !denied(res),
    {
        forward(entry_metadata(&self.entry))
    }

    /// Returns the metadata for the file that this entry points at, with
    /// everything the platform can tell of it.
    pub fn full_metadata(&self) -> (res: Result<Metadata, ViewError>)
        ensures
            !denied(res),
    {
        forward(entry_full_metadata(&self.entry))
    }

    /// Returns the file type for the file that this entry points at.
    pub fn file_type(&self) -> (res: Result<FileType, ViewError>)
        ensures
            !denied(res),
    {
        forward(entry_file_type(&self.entry))
    }

    /// Returns the bare file name of this directory entry without any
    /// other leading path component, or the handle's error if the name is
    /// not UTF-8 text.
    pub fn file_name(&self) -> (res: Result<String, ViewError>)
        ensures
            !denied(res),
    {
        forward(entry_file_name(&self.entry))
    }

    /// Returns the inode number of this entry.
    pub fn ino(&self) -> u64 {
        entry_ino(&self.entry)
    }
}

/// An entry listed through a read-only view refuses mutation.
///
/// A listing has the policy of the view that was listed, and an entry has
/// the policy of the listing that handed it out. So the entry is read-only
/// as the view is, its guard fails with the policy violation, and
/// `remove_file` and `remove_dir` return that failure.
pub proof fn lemma_entries_of_readonly_view_refuse_mutation(
    view: DirViewUtf8,
    listing: ReadDirViewUtf8,
    entry: DirEntryViewUtf8,
)
    requires
        view.view_kind() is Readonly,
        listing.view_kind() == view.view_kind(),
        entry.view_kind() == listing.view_kind(),
    ensures
        entry.view_kind() is Readonly,
        entry.view_kind().mutation_check() == Err::<(), ViewError>(ViewError::ReadOnly),
{
}

/// Calls `cap_std::fs_utf8::DirEntry::open`.
#[verifier::external_body]
fn entry_open(entry: &DirEntry) -> (res: Result<File, std::io::Error>) {
    entry.open()
}

/// Calls `cap_std::fs_utf8::DirEntry::open_with` on the entry of `view`, with
/// the six flags of `options` set on a new `cap_std::fs::OpenOptions`.
/// Under a read-only policy the options must not ask for writing.
///
/// The call fails on a combination of flags that is not valid: before it
/// opens the file, `cap_primitives` turns the options into open flags
/// (`compute_oflags`), and that fails with `InvalidInput` on the
/// combinations that `std::fs::OpenOptions::open` documents as invalid.
#[verifier::external_body]
fn entry_open_with(view: &DirEntryViewUtf8, options: &OpenOptions) -> (res: Result<
    File,
    std::io::Error,
>)
    requires
        view.view_kind() is Readonly ==> !options.requests_write(),
    ensures
        !options.is_valid() ==> res is Err,
{
    let mut handle_options = cap_std::fs::OpenOptions::new();
    handle_options.read(options.read).write(options.write).append(options.append);
    handle_options.truncate(options.truncate).create(options.create).create_new(options.create_new);
    view.entry.open_with(&handle_options)
}

/// Calls `cap_std::fs_utf8::DirEntry::open_dir`.
#[verifier::external_body]
fn entry_open_dir(entry: &DirEntry) -> (res: Result<Dir, std::io::Error>) {
    entry.open_dir()
}

/// Calls `cap_std::fs_utf8::DirEntry::remove_file` on the entry of `view`,
/// whose policy must let mutation through.
#[verifier::external_body]
fn entry_remove_file(view: &DirEntryViewUtf8) -> (res: Result<(), std::io::Error>)
    requires
        view.view_kind().permits_mutation(),
{
    view.entry.remove_file()
}

/// Calls `cap_std::fs_utf8::DirEntry::remove_dir` on the entry of `view`,
/// whose policy must let mutation through.
#[verifier::external_body]
fn entry_remove_dir(view: &DirEntryViewUtf8) -> (res: Result<(), std::io::Error>)
    requires
        view.view_kind().permits_mutation(),
{
    view.entry.remove_dir()
}

/// Calls `cap_std::fs_utf8::DirEntry::metadata`.
#[verifier::external_body]
fn entry_metadata(entry: &DirEntry) -> (res: Result<Metadata, std::io::Error>) {
    entry.metadata()
}

/// Calls `cap_fs_ext::DirEntryExt::full_metadata` for a
/// `cap_std::fs_utf8::DirEntry`.
#[verifier::external_body]
fn entry_full_metadata(entry: &DirEntry) -> (res: Result<Metadata, std::io::Error>) {
    cap_fs_ext::DirEntryExt::full_metadata(entry)
}

/// Calls `cap_std::fs_utf8::DirEntry::file_type`.
#[verifier::external_body]
fn entry_file_type(entry: &DirEntry) -> (res: Result<FileType, std::io::Error>) {
    entry.file_type()
}

/// Calls `cap_std::fs_utf8::DirEntry::file_name`.
#[verifier::external_body]
fn entry_file_name(entry: &DirEntry) -> (res: Result<String, std::io::Error>) {
    entry.file_name()
}

/// Calls `rustix::fs::DirEntryExt::ino` for a
/// `cap_std::fs_utf8::DirEntry`.
#[verifier::external_body]
fn entry_ino(entry: &DirEntry) -> (ino: u64) {
    rustix::fs::DirEntryExt::ino(entry)
}

} // verus!
