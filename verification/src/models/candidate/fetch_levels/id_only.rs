//! A candidate given by its identifier alone.

use vstd::prelude::*;
use vstd::std_specs::convert::FromSpecImpl;

use crate::ids::EntityId;
use crate::models::candidate::db::DbCandidate;

verus! {

/// A candidate given by its identifier alone.
#[derive(Debug, Clone, Copy, PartialEq, Eq)]
pub struct IdOnlyCandidate {
    pub id: EntityId,
}

impl From<DbCandidate> for IdOnlyCandidate {
    fn from(table: DbCandidate) -> (c: IdOnlyCandidate) {
        IdOnlyCandidate { id: table.id }
    }
}

impl FromSpecImpl<DbCandidate> for IdOnlyCandidate {
    open spec fn obeys_from_spec() -> bool {
        true
    }

    open spec fn from_spec(table: DbCandidate) -> IdOnlyCandidate {
        IdOnlyCandidate { id: table.id }
    }
}

} // verus!
