//! How candidates are requested.

pub mod sortable;
pub mod queryable;
