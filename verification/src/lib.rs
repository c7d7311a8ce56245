//! Verified core of the election management backend: canonical identifiers,
//! export statements, authorization decisions, query filters and sort keys.

pub mod text;
pub mod error;
pub mod ids;
pub mod models;
pub mod permissions;
pub mod query;
pub mod common;
pub mod archive;
