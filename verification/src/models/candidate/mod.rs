//! Candidates (choices) of a question.

pub mod db;
pub mod requests;
pub mod fetch_levels;
