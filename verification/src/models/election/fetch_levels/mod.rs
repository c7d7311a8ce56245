//! The shapes in which an election is returned, from least to most detailed.

pub mod compact;
pub mod default;
pub mod id_only;
