use vstd::prelude::*;

use crate::error::DataError;

verus! {

/// The transition function of the two-state identity machine: an
/// unassigned identifier accepts the assignment, an already assigned one
/// is left untouched.  The machine runs Unassigned → Assigned once and
/// never moves again.
pub open spec fn assign_id(cur: Option<usize>, id: usize) -> Option<usize> {
    match cur {
        None => Some(id),
        Some(existing) => Some(existing),
    }
}

/// Whether an assignment is accepted in identifier state `cur`: only an
/// unassigned identifier may be assigned.
pub open spec fn assign_accepted(cur: Option<usize>) -> bool {
    cur is None
}

/// The identity contract shared by every persisted entity type.
///
/// An entity is constructed with an unassigned identifier; a store
/// operation persists it and assigns the identifier exactly once; once
/// assigned, the identifier is immutable for the lifetime of the
/// in-memory object.
pub trait DataItem {
    /// The entity's identifier state: `None` until a store assigns one.
    spec fn spec_id(&self) -> Option<usize>;

    /// The assigned identifier, or a [`DataError::DataAccessFailure`] if
    /// the entity has never been persisted.
    fn get_id(&self) -> (r: Result<usize, DataError>)
        ensures
            match self.spec_id() {
                Some(id) => r == Result::<usize, DataError>::Ok(id),
                None => r matches Err(DataError::DataAccessFailure(_)),
            },
    ;

    /// Assign the identifier if and only if none is assigned yet.  A second
    /// assignment fails with [`DataError::DataAccessFailure`] and leaves
    /// the existing identifier untouched.
    fn set_id(&mut self, id: usize) -> (r: Result<(), DataError>)
        ensures
            final(self).spec_id() == assign_id(old(self).spec_id(), id),
            r is Ok <==> assign_accepted(old(self).spec_id()),
            r matches Err(e) ==> e matches DataError::DataAccessFailure(_),
    ;
}

/// Law: an assignment to an unassigned identifier is accepted and stores
/// exactly the given value, so an immediate read yields that value.
pub proof fn lemma_fresh_assignment(id: usize)
    ensures
        assign_accepted(None),
        assign_id(None, id) == Some(id),
{
}

/// Law: an assignment to an already assigned identifier is refused,
/// whatever value it carries, and the originally assigned identifier is
/// unchanged.
pub proof fn lemma_single_assignment(existing: usize, id: usize)
    ensures
        !assign_accepted(Some(existing)),
        assign_id(Some(existing), id) == Some(existing),
{
}

} // verus!
