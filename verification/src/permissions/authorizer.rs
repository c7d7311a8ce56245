//! Actions on entities and the authorizers that decide on them.

use std::sync::Arc;
use vstd::prelude::*;

verus! {

/// An action a user asks to perform on an entity.
#[derive(Debug, Clone, Copy, PartialEq, Eq)]
pub enum ActionType {
    Create,
    ReadIdOnly,
    ReadCompact,
    ReadDefault,
    ReadDetailed,
    Update,
    Delete,
}

/// The authorizer used when nothing more specific is configured. It holds
/// no state, so every handle to it decides alike.
#[derive(Debug, Clone, Copy, PartialEq, Eq)]
pub struct DefaultAuthorizer;

impl DefaultAuthorizer {
    /// A shared handle to a default authorizer.
    pub fn clone_to_arc(&self) -> (a: Arc<DefaultAuthorizer>)
        ensures
            *a == *self,
    {
        Arc::new(DefaultAuthorizer)
    }
}

/// Whether a `COUNT(*)` lookup found at least one row (no count reads as zero).
pub open spec fn found_any(count: Option<i64>) -> bool {
    match count {
        Some(n) => n > 0,
        None => false,
    }
}

/// The number of rows a `COUNT(*)` lookup reported; no count reads as zero.
pub open spec fn count_of(count: Option<i64>) -> i64 {
    match count {
        Some(n) => n,
        None => 0,
    }
}

/// The number of rows a `COUNT(*)` lookup reported, as `count_of` says.
pub fn count_or_zero(count: Option<i64>) -> (n: i64)
    ensures
        n == count_of(count),
{
    count.unwrap_or(0)
}

/// Decides, as `found_any` says, whether a `COUNT(*)` lookup found a row.
pub fn count_found_any(count: Option<i64>) -> (b: bool)
    ensures
        b == found_any(count),
{
    count_or_zero(count) > 0
}

} // verus!
