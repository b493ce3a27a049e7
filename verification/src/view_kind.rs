//! The policy tag of a view and the guard that every mutating operation
//! consults.

use crate::error::ViewError;
use vstd::prelude::*;

verus! {

/// The kind of a view.
#[derive(Copy, Clone, Debug, PartialEq, Eq, Hash, Structural)]
pub enum ViewKind {
    /// Expose everything the wrapped handle can do.
    Full,
    /// Expose a read-only view: nothing may be created, renamed, relinked
    /// or removed, and files can only be opened for reading.
    Readonly,
}

impl ViewKind {
    /// Whether a view of this kind lets a mutating operation through.
    pub open spec fn permits_mutation(self) -> bool {
        self is Full
    }

    /// What the guard answers for a view of this kind.
    pub open spec fn mutation_check(self) -> Result<(), ViewError> {
        match self {
            ViewKind::Full => Ok(()),
            ViewKind::Readonly => Err(ViewError::ReadOnly),
        }
    }

    /// The guard in front of every mutating operation: passes under
    /// `Full`, fails with [`ViewError::ReadOnly`] under `Readonly`.
    pub fn check_mutation(self) -> (r: Result<(), ViewError>)
        ensures
            r == self.mutation_check(),
    {
        match self {
            ViewKind::Full => Ok(()),
            ViewKind::Readonly => Err(ViewError::ReadOnly),
        }
    }
}

/// What the guard answers for an operation that spans two views: both
/// must let it through.
pub open spec fn pair_check(source: ViewKind, destination: ViewKind) -> Result<(), ViewError> {
    if source is Full && destination is Full {
        Ok(())
    } else {
        Err(ViewError::ReadOnly)
    }
}

/// The guard in front of an operation that changes the tree on both of two
/// views.
pub fn check_mutation_pair(source: ViewKind, destination: ViewKind) -> (r: Result<(), ViewError>)
    ensures
        r == pair_check(source, destination),
{
    match source.check_mutation() {
        Ok(()) => destination.check_mutation(),
        Err(e) => Err(e),
    }
}

/// The guard passes exactly for `Full`, and its only failure is the
/// policy violation.
pub proof fn lemma_guard_passes_iff_full(kind: ViewKind)
    ensures
        kind.mutation_check() is Ok <==> kind is Full,
        kind.mutation_check() is Err <==> kind is Readonly,
        kind.mutation_check() is Err ==> kind.mutation_check() == Err::<(), ViewError>(
            ViewError::ReadOnly,
        ),
        kind.permits_mutation() <==> kind.mutation_check() is Ok,
{
}

/// An operation on two views is refused if either of them is read-only,
/// and let through only when both are full.
pub proof fn lemma_pair_refused_iff_either_readonly(source: ViewKind, destination: ViewKind)
    ensures
        pair_check(source, destination) is Err <==> (source is Readonly || destination is Readonly),
        pair_check(source, destination) is Ok <==> (source is Full && destination is Full),
        pair_check(source, destination) is Ok <==> (source.mutation_check() is Ok
            && destination.mutation_check() is Ok),
        pair_check(source, destination) == pair_check(destination, source),
{
}

} // verus!
