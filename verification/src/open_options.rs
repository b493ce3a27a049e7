//! Options for opening a file through a view, and how a read-only view
//! restricts them.

use crate::view_kind::ViewKind;
use vstd::prelude::*;

verus! {

/// Options and flags which can be used to configure how a file is opened.
///
/// The access flags are plain values, so that a view can restrict them
/// before the wrapped handle sees them.
#[derive(Copy, Clone, Debug, PartialEq, Eq, Structural)]
pub struct OpenOptions {
    /// Open for reading.
    pub read: bool,
    /// Open for writing.
    pub write: bool,
    /// Open for appending.
    pub append: bool,
    /// Truncate the file when it is opened.
    pub truncate: bool,
    /// Create the file if it is missing.
    pub create: bool,
    /// Create the file, and fail if it is there already.
    pub create_new: bool,
}

impl OpenOptions {
    /// The options with every flag off.
    pub open spec fn empty() -> Self {
        OpenOptions {
            read: false,
            write: false,
            append: false,
            truncate: false,
            create: false,
            create_new: false,
        }
    }

    /// Whether the options ask for anything that could change the file or
    /// the directory it is in.
    pub open spec fn requests_write(self) -> bool {
        self.write || self.append || self.truncate || self.create || self.create_new
    }

    /// Whether the flags are a combination that a handle accepts. A handle
    /// fails on any other, whatever the directory holds: one that asks for
    /// no access at all, one that asks to truncate or to create without
    /// `write` or `append`, and one that asks to append and to truncate
    /// without `create_new`.
    pub open spec fn is_valid(self) -> bool {
        &&& self.read || self.write || self.append
        &&& self.truncate || self.create || self.create_new ==> self.write || self.append
        &&& self.append && self.truncate ==> self.create_new
    }

    /// The options with every flag that allows writing cleared. `read` is
    /// kept as it is.
    pub open spec fn without_write(self) -> Self {
        OpenOptions {
            read: self.read,
            write: false,
            append: false,
            truncate: false,
            create: false,
            create_new: false,
        }
    }

    /// The options that a view of the given kind hands to its handle.
    pub open spec fn restricted_to(self, kind: ViewKind) -> Self {
        match kind {
            ViewKind::Full => self,
            ViewKind::Readonly => self.without_write(),
        }
    }

    /// Creates a blank new set of options ready for configuration.
    pub fn new() -> (options: Self)
        ensures
            options == Self::empty(),
    {
        OpenOptions {
            read: false,
            write: false,
            append: false,
            truncate: false,
            create: false,
            create_new: false,
        }
    }

    /// Sets the option for read access.
    pub fn read(&mut self, read: bool) -> (same: &mut Self)
        ensures
            *same == (OpenOptions { read, ..*old(self) }),
            *final(self) == *final(same),
    {
        self.read = read;
        self
    }

    /// Sets the option for write access.
    pub fn write(&mut self, write: bool) -> (same: &mut Self)
        ensures
            *same == (OpenOptions { write, ..*old(self) }),
            *final(self) == *final(same),
    {
        self.write = write;
        self
    }

    /// Sets the option for the append mode.
    pub fn append(&mut self, append: bool) -> (same: &mut Self)
        ensures
            *same == (OpenOptions { append, ..*old(self) }),
            *final(self) == *final(same),
    {
        self.append = append;
        self
    }

    /// Sets the option for truncating a previous file.
    pub fn truncate(&mut self, truncate: bool) -> (same: &mut Self)
        ensures
            *same == (OpenOptions { truncate, ..*old(self) }),
            *final(self) == *final(same),
    {
        self.truncate = truncate;
        self
    }

    /// Sets the option to create a new file, or open it if it already
    /// exists.
    pub fn create(&mut self, create: bool) -> (same: &mut Self)
        ensures
            *same == (OpenOptions { create, ..*old(self) }),
            *final(self) == *final(same),
    {
        self.create = create;
        self
    }

    /// Sets the option to create a new file, failing if it already exists.
    pub fn create_new(&mut self, create_new: bool) -> (same: &mut Self)
        ensures
            *same == (OpenOptions { create_new, ..*old(self) }),
            *final(self) == *final(same),
    {
        self.create_new = create_new;
        self
    }

    /// Restricts the options to what a view of the given kind may ask of
    /// its handle: unchanged under `Full`, with every flag that allows
    /// writing cleared under `Readonly`.
    pub fn restrict(&self, kind: ViewKind) -> (options: Self)
        ensures
            options == self.restricted_to(kind),
    {
        match kind {
            ViewKind::Full => *self,
            ViewKind::Readonly => OpenOptions {
                read: self.read,
                write: false,
                append: false,
                truncate: false,
                create: false,
                create_new: false,
            },
        }
    }
}

/// What a read-only view hands to its handle asks for nothing that allows
/// writing, and asks to read exactly if the caller did. A full view hands
/// on what it was given, and so does any view for options that ask for no
/// writing. Restricting twice is restricting once.
pub proof fn lemma_restriction_clears_write(options: OpenOptions, kind: ViewKind)
    ensures
        kind is Readonly ==> !options.restricted_to(kind).requests_write(),
        options.restricted_to(kind).read == options.read,
        kind is Full ==> options.restricted_to(kind) == options,
        !options.requests_write() ==> options.restricted_to(kind) == options,
        options.restricted_to(kind).restricted_to(kind) == options.restricted_to(kind),
{
}

/// Through a read-only view a file can be opened for reading and for
/// nothing else. What is left of a request after the restriction is a
/// combination that a handle accepts exactly if the request asked to read;
/// a request that did not, such as one to write only, fails at the handle.
/// Under a full view the restriction changes nothing of that.
pub proof fn lemma_readonly_request_needs_read(options: OpenOptions, kind: ViewKind)
    ensures
        kind is Readonly ==> (options.restricted_to(kind).is_valid() <==> options.read),
        kind is Full ==> (options.restricted_to(kind).is_valid() <==> options.is_valid()),
        options.is_valid() && options.read ==> options.restricted_to(kind).is_valid(),
{
}

} // verus!
