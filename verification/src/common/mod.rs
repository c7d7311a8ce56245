//! Types shared by all entities.

pub mod response;
pub mod string;
