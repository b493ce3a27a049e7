//! A listing of the entries of a directory, seen through a view whose
//! paths are UTF-8 text.

use crate::dir_entry_utf8::DirEntryViewUtf8;
use crate::error::{denied, ViewError};
use crate::view_kind::ViewKind;
use cap_std::fs_utf8::{DirEntry, ReadDir};
use vstd::prelude::*;

verus! {

/// A cursor over the entries in a directory.
///
/// This corresponds to `std::fs::ReadDir`. It is made only by listing a
/// directory through a view, and the entries it hands out carry the policy
/// of that view. The entries come in the order of the wrapped cursor; a
/// listing cannot be started again.
#[derive(Debug)]
pub struct ReadDirViewUtf8 {
    read_dir: ReadDir,
    view_kind: ViewKind,
}

impl ReadDirViewUtf8 {
    /// The cursor this listing wraps.
    pub closed spec fn handle(&self) -> ReadDir {
        self.read_dir
    }

    /// The policy of this listing.
    pub closed spec fn spec_view_kind(&self) -> ViewKind {
        self.view_kind
    }

    /// The policy of this listing. It is the policy of the view that was
    /// listed.
    #[verifier::when_used_as_spec(spec_view_kind)]
    pub fn view_kind(&self) -> (kind: ViewKind)
        ensures
            kind == self.view_kind(),
    {
        self.view_kind
    }

    /// Wraps a cursor that a handle has opened with the given policy, or
    /// carries the handle's error.
    pub(crate) fn adopt(listed: Result<ReadDir, std::io::Error>, view_kind: ViewKind) -> (res:
        Result<Self, ViewError>)
        ensures
            match listed {
                Ok(read_dir) => res matches Ok(listing) && listing.handle() == read_dir
                    && listing.view_kind() == view_kind,
                Err(e) => res matches Err(ViewError::Io(carried)) && carried == e,
            },
    {
        match listed {
            Ok(read_dir) => Ok(Self { read_dir, view_kind }),
            Err(e) => Err(ViewError::Io(e)),
        }
    }

    /// Advances the listing: `None` when it is exhausted, else the next
    /// entry with the policy of this listing, or the error that the
    /// wrapped cursor met.
    pub fn next(&mut self) -> (item: Option<Result<DirEntryViewUtf8, ViewError>>)
        ensures
            final(self).view_kind() == old(self).view_kind(),
            item matches Some(res) ==> !denied(res),
            item matches Some(Ok(entry)) ==> entry.view_kind() == old(self).view_kind(),
    {
        let found = read_dir_next(&mut self.read_dir);
        DirEntryViewUtf8::adopt(found, self.view_kind)
    }
}

/// Calls `next` of `cap_std::fs_utf8::ReadDir`, which advances the cursor.
#[verifier::external_body]
fn read_dir_next(read_dir: &mut ReadDir) -> (found: Option<Result<DirEntry, std::io::Error>>) {
    read_dir.next()
}

} // verus!
