//! The shapes in which a question is returned, from least to most detailed.

pub mod default;
pub mod id_only;
