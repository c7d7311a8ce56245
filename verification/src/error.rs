//! The errors the library's decisions return.

use vstd::prelude::*;

verus! {

/// An error, with a message and the place (or resource) it concerns.
#[derive(Debug, PartialEq, Eq)]
pub enum Error {
    /// The requested entity does not exist.
    EntityNotFound(String, String),
    /// The user may not perform the action.
    InvalidPermission(String, String),
    /// Something failed on the server's side.
    InternalServerError(String, String),
}

} // verus!
