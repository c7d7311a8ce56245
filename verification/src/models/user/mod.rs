//! Users of the system.

pub mod db;

use vstd::prelude::*;
use vstd::std_specs::convert::FromSpecImpl;

use crate::ids::EntityId;
use crate::models::user::db::DbUser;

verus! {

/// A user as the API presents it. Times are microseconds since the Unix epoch.
#[derive(Debug, PartialEq, Eq)]
pub struct User {
    pub id: EntityId,
    pub created_at: Option<i64>,
    pub email: String,
    pub username: String,
    pub profile: String,
    pub first_name: String,
    pub last_name: String,
    pub is_admin: bool,
}

/// The user a row of the `users` table describes: every column carried over.
pub open spec fn user_of(user: DbUser) -> User {
    User {
        id: user.id,
        created_at: user.created_at,
        email: user.email,
        username: user.username,
        profile: user.profile,
        first_name: user.first_name,
        last_name: user.last_name,
        is_admin: user.is_admin,
    }
}

/// A user built from a row of the `users` table carries each column over to
/// the field of the same name.
pub proof fn lemma_user_of_keeps_columns(row: DbUser)
    ensures
        user_of(row).id == row.id,
        user_of(row).created_at == row.created_at,
        user_of(row).email == row.email,
        user_of(row).username == row.username,
        user_of(row).profile == row.profile,
        user_of(row).first_name == row.first_name,
        user_of(row).last_name == row.last_name,
        user_of(row).is_admin == row.is_admin,
{
}

impl From<DbUser> for User {
    fn from(user: DbUser) -> (u: User) {
        User {
            id: user.id,
            created_at: user.created_at,
            email: user.email,
            username: user.username,
            profile: user.profile,
            first_name: user.first_name,
            last_name: user.last_name,
            is_admin: user.is_admin,
        }
    }
}

impl FromSpecImpl<DbUser> for User {
    open spec fn obeys_from_spec() -> bool {
        true
    }

    open spec fn from_spec(user: DbUser) -> User {
        user_of(user)
    }
}

impl User {
    /// The users of the given rows, in the same order.
    pub fn from_db_users(users: Vec<DbUser>) -> (res: Vec<User>)
        ensures
            res@.len() == users@.len(),
            forall|i: int| 0 <= i < users@.len() ==> res@[i] == user_of(#[trigger] users@[i]),
    {
        let ghost rows = users@;
        let mut res: Vec<User> = Vec::new();
        let mut rest = users;
        while rest.len() > 0
            invariant
                res@.len() + rest@.len() == rows.len(),
                forall|i: int| 0 <= i < res@.len() ==> res@[i] == user_of(#[trigger] rows[i]),
                forall|j: int| 0 <= j < rest@.len() ==> rest@[j] == rows[res@.len() + j],
            decreases rest@.len(),
        {
            let user = rest.remove(0);
            res.push(User::from(user));
        }
        res
    }
}

} // verus!
