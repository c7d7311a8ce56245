//! The `elections` table and who may act on an election.

use vstd::prelude::*;
use vstd::string::*;

use crate::error::Error;
use crate::ids::EntityId;
use crate::permissions::authorizer::{ActionType, count_found_any, found_any};

verus! {

/// A row of the `elections` table. Times are microseconds since the Unix epoch.
#[derive(Debug)]
pub struct DbElection {
    pub id: EntityId,
    pub created_at: Option<i64>,
    pub project_id: EntityId,
    pub label: String,
    pub name_th: String,
    pub name_en: String,
    pub header_th: String,
    pub header_en: String,
    pub detail_th: Option<String>,
    pub detail_en: Option<String>,
}

impl DbElection {
    /// Decides whether a user may perform `action` on an election: only owners
    /// and members of the election's project may, whatever the action. The
    /// counts are what the lookups of the user among the project's owners and
    /// among its members returned.
    pub fn authorize(owner_count: Option<i64>, member_count: Option<i64>, action: ActionType) -> (res: Result<(), Error>)
        ensures
            res is Ok <==> found_any(owner_count) || found_any(member_count),
            res matches Err(e) ==> e matches Error::InvalidPermission(source, msg) && source@
                == "Election Authorizer"@ && msg@ == "User is not authorized to create election"@,
    {
        let is_owner = count_found_any(owner_count);
        let is_member = count_found_any(member_count);
        if is_owner || is_member {
            Ok(())
        } else {
            Err(
                Error::InvalidPermission(
                    String::from_str("Election Authorizer"),
                    String::from_str("User is not authorized to create election"),
                ),
            )
        }
    }
}

} // verus!
