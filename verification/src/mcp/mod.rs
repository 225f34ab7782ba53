//! The protocol: its messages and the server that answers them.

pub mod server;
pub mod types;
