//! The election data model: projects hold elections, elections hold questions,
//! questions hold candidates.

pub mod candidate;
pub mod election;
pub mod project;
pub mod question;
pub mod user;
