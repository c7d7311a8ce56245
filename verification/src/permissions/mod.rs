//! Who may do what.

pub mod authorizer;
