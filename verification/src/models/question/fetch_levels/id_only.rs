//! A question given by its identifier alone.

use vstd::prelude::*;
use vstd::std_specs::convert::FromSpecImpl;

use crate::ids::EntityId;
use crate::models::question::db::DbQuestion;

verus! {

/// A question given by its identifier alone.
#[derive(Debug, Clone, Copy, PartialEq, Eq)]
pub struct IdOnlyQuestion {
    pub id: EntityId,
}

impl From<DbQuestion> for IdOnlyQuestion {
    fn from(table: DbQuestion) -> (v: IdOnlyQuestion) {
        IdOnlyQuestion { id: table.id }
    }
}

impl FromSpecImpl<DbQuestion> for IdOnlyQuestion {
    open spec fn obeys_from_spec() -> bool {
        true
    }

    open spec fn from_spec(table: DbQuestion) -> IdOnlyQuestion {
        IdOnlyQuestion { id: table.id }
    }
}

} // verus!
