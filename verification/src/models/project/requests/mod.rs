//! How projects are requested.

pub mod queryable;
pub mod sortable;
