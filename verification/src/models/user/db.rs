//! The `users` table.

use vstd::prelude::*;

use crate::ids::EntityId;

verus! {

/// A row of the `users` table. Times are microseconds since the Unix epoch.
#[derive(Debug, PartialEq, Eq)]
pub struct DbUser {
    pub id: EntityId,
    pub created_at: Option<i64>,
    pub email: String,
    pub username: String,
    pub profile: String,
    pub first_name: String,
    pub last_name: String,
    pub is_admin: bool,
}

} // verus!
