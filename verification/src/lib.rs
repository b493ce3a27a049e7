//! Views of capability directories that enforce an access policy.
//!
//! A [`DirView`] wraps a directory handle that is already confined to its own
//! subtree and adds a [`ViewKind`]: under [`ViewKind::Full`] every operation
//! is forwarded to the handle, under [`ViewKind::Readonly`] every operation
//! that would change the directory tree is refused with
//! [`ViewError::ReadOnly`] before the handle is asked, and files can only be
//! opened for reading. An operation that only reads is forwarded whatever
//! the policy is.
//!
//! The policy of a view is fixed when the view is made. Views that are
//! opened below a view, the listings of its entries, the entries themselves
//! and the directories opened from those entries all carry the same policy.
//! A view that is opened outside the subtree, through the ambient authority
//! of the process, has the policy that the caller names.
//!
//! [`DirViewUtf8`], [`ReadDirViewUtf8`] and [`DirEntryViewUtf8`] are the same
//! views over handles whose paths are UTF-8 text.

pub mod dir;
pub mod dir_entry;
pub mod dir_entry_utf8;
pub mod dir_utf8;
pub mod error;
pub mod foreign;
pub mod open_options;
pub mod read_dir;
pub mod read_dir_utf8;
pub mod view_kind;

pub use cap_std::{ambient_authority, AmbientAuthority};
pub use dir::DirView;
pub use dir_entry::DirEntryView;
pub use dir_entry_utf8::DirEntryViewUtf8;
pub use dir_utf8::DirViewUtf8;
pub use error::{denied, forward, forwarded, ViewError, READONLY_MESSAGE};
pub use open_options::OpenOptions;
pub use read_dir::ReadDirView;
pub use read_dir_utf8::ReadDirViewUtf8;
pub use view_kind::{check_mutation_pair, pair_check, ViewKind};
