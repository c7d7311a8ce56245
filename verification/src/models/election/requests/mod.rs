//! How elections are requested.

pub mod sortable;
pub mod queryable;
