//! The error type of every view operation.

use vstd::prelude::*;

verus! {

/// The message of a policy violation.
pub const READONLY_MESSAGE: &'static str =
    "attempt to modify a directory tree through a read-only view";

/// Why an operation on a view failed.
#[derive(Debug)]
pub enum ViewError {
    /// The view is read-only and the operation would have changed the
    /// directory tree. The wrapped handle was not asked.
    ReadOnly,
    /// The wrapped handle was asked and failed; its error is carried
    /// unchanged.
    Io(std::io::Error),
}

/// Whether a result is the refusal of a read-only view.
pub open spec fn denied<T>(r: Result<T, ViewError>) -> bool {
    r matches Err(ViewError::ReadOnly)
}

/// What a view returns for an answer of the wrapped handle.
pub open spec fn forwarded<T>(r: Result<T, std::io::Error>) -> Result<T, ViewError> {
    match r {
        Ok(v) => Ok(v),
        Err(e) => Err(ViewError::Io(e)),
    }
}

/// Turns an answer of the wrapped handle into the answer of a view: a
/// success is kept, a failure is carried as [`ViewError::Io`].
pub fn forward<T>(r: Result<T, std::io::Error>) -> (res: Result<T, ViewError>)
    ensures
        res == forwarded(r),
        !denied(res),
{
    match r {
        Ok(v) => Ok(v),
        Err(e) => Err(ViewError::Io(e)),
    }
}

impl ViewError {
    /// Whether this error is a policy violation.
    pub fn is_read_only(&self) -> (b: bool)
        ensures
            b <==> self is ReadOnly,
    {
        match self {
            ViewError::ReadOnly => true,
            ViewError::Io(_) => false,
        }
    }

    /// The kind of this error: a policy violation is
    /// `PermissionDenied`, a failure of the handle has the kind the handle
    /// gave it.
    pub fn kind(&self) -> (k: std::io::ErrorKind)
        ensures
            self is ReadOnly ==> k == std::io::ErrorKind::PermissionDenied,
    {
        match self {
            ViewError::ReadOnly => std::io::ErrorKind::PermissionDenied,
            ViewError::Io(e) => io_error_kind(e),
        }
    }

    /// The message of this error: [`READONLY_MESSAGE`] for a policy
    /// violation, the handle's own text for a failure of the handle.
    pub fn message(&self) -> (s: String)
        ensures
            self is ReadOnly ==> s@ == READONLY_MESSAGE@,
    {
        match self {
            ViewError::ReadOnly => READONLY_MESSAGE.to_owned(),
            ViewError::Io(e) => e.to_string(),
        }
    }
}

/// Calls `std::io::Error::kind`. Nothing is claimed of the kind returned.
#[verifier::external_body]
fn io_error_kind(e: &std::io::Error) -> (k: std::io::ErrorKind) {
    e.kind()
}

} // verus!
