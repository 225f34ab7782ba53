//! A Model Context Protocol server core: message framing, the JSON-RPC 2.0
//! envelope, method dispatch and the mapping of failures to error codes.

pub mod api;
pub mod codec;
pub mod config;
pub mod errors;
pub mod json;
pub mod mcp;
pub mod text;
pub mod tools;
pub mod util;
