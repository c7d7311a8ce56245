//! A project given by its identifier alone.

use vstd::prelude::*;
use vstd::std_specs::convert::FromSpecImpl;

use crate::ids::EntityId;
use crate::models::project::db::DbProject;

verus! {

/// A project given by its identifier alone.
#[derive(Debug, Clone, Copy, PartialEq, Eq)]
pub struct IdOnlyProject {
    pub id: EntityId,
}

impl From<DbProject> for IdOnlyProject {
    fn from(table: DbProject) -> (v: IdOnlyProject) {
        IdOnlyProject { id: table.id }
    }
}

impl FromSpecImpl<DbProject> for IdOnlyProject {
    open spec fn obeys_from_spec() -> bool {
        true
    }

    open spec fn from_spec(table: DbProject) -> IdOnlyProject {
        IdOnlyProject { id: table.id }
    }
}

} // verus!
