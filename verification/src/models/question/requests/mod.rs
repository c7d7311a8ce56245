//! How questions are requested.

pub mod sortable;
