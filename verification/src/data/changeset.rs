//! Changesets.
use vstd::prelude::*;

verus! {

#[derive(Copy, Clone, Debug, PartialEq, Eq, PartialOrd, Ord, Hash, Structural)]
pub struct ChangeSetId(pub i64);

/// A changeset of a block. Only its identity is read.
pub struct ChangeSet {
    pub id: ChangeSetId,
}

impl ChangeSet {
    /// The changeset with the identity that the message gives.
    pub fn from_pbf(id: i64) -> (changeset: Self)
        ensures
            changeset.id.0 == id,
    {
        ChangeSet { id: ChangeSetId(id) }
    }
}

} // verus!
