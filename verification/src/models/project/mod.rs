//! Projects: the owner's container of elections.

pub mod db;
pub mod fetch_levels;
pub mod requests;
