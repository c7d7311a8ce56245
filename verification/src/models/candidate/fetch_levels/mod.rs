//! The shapes in which a candidate is returned, from least to most detailed.

pub mod compact;
pub mod default;
pub mod id_only;
