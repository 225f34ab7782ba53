//! The tools that a client can call.

pub mod analytics;
pub mod inference;
pub mod registry;
