//! The backend, seen from the server: the calls to make and the answers.

pub mod client;
