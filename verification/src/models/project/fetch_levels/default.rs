//! A project with its elections, members and owner.

use vstd::prelude::*;

use crate::ids::EntityId;
use crate::models::project::db::DbProject;
use crate::models::user::User;

verus! {

/// A project with its elections, in the shape `E` the caller fetched them in,
/// its members and its owner.
#[derive(Debug)]
pub struct DefaultProject<E> {
    pub id: EntityId,
    pub name: String,
    pub elections: Vec<E>,
    pub members: Vec<User>,
    pub owner: User,
}

impl<E> DefaultProject<E> {
    /// The project of row `table`, with `elections` and `members` (fetched by
    /// the identifiers of the project's elections and members) and `owner`
    /// (fetched by the row's `owner_id`).
    pub fn from_table(table: DbProject, elections: Vec<E>, members: Vec<User>, owner: User) -> (p: DefaultProject<E>)
        ensures
            p == (DefaultProject { id: table.id, name: table.name, elections: elections, members: members, owner: owner }),
    {
        DefaultProject { id: table.id, name: table.name, elections, members, owner }
    }
}

} // verus!
