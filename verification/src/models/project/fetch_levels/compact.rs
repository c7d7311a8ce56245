//! A project with its name and how many elections and members it has.

use vstd::prelude::*;

use crate::ids::EntityId;
use crate::models::project::db::DbProject;

verus! {

/// A project with its name and how many elections and members it has.
#[derive(Debug, PartialEq, Eq)]
pub struct CompactProject {
    pub id: EntityId,
    pub name: String,
    pub election_count: i64,
    pub member_count: i64,
}

impl CompactProject {
    /// The project of row `table`, which has `election_count` elections and `member_count` members.
    pub fn from_table(table: DbProject, election_count: i64, member_count: i64) -> (p: CompactProject)
        ensures
            p == (CompactProject {
                id: table.id,
                name: table.name,
                election_count: election_count,
                member_count: member_count,
            }),
    {
        CompactProject { id: table.id, name: table.name, election_count, member_count }
    }
}

} // verus!
