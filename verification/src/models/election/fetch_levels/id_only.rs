//! An election given by its identifier alone.

use vstd::prelude::*;
use vstd::std_specs::convert::FromSpecImpl;

use crate::ids::EntityId;
use crate::models::election::db::DbElection;

verus! {

/// An election given by its identifier alone.
#[derive(Debug, Clone, Copy, PartialEq, Eq)]
pub struct IdOnlyElection {
    pub id: EntityId,
}

impl From<DbElection> for IdOnlyElection {
    fn from(table: DbElection) -> (v: IdOnlyElection) {
        IdOnlyElection { id: table.id }
    }
}

impl FromSpecImpl<DbElection> for IdOnlyElection {
    open spec fn obeys_from_spec() -> bool {
        true
    }

    open spec fn from_spec(table: DbElection) -> IdOnlyElection {
        IdOnlyElection { id: table.id }
    }
}

} // verus!
