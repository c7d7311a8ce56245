//! Questions of an election.

pub mod db;
pub mod fetch_levels;
pub mod requests;
