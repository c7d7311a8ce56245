//! Elections of a project.

pub mod db;
pub mod fetch_levels;
pub mod requests;
