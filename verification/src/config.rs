//! What the server is started with.

use vstd::prelude::*;

verus! {

/// Where the backend is and how to authenticate against it.
#[derive(Debug, Clone, PartialEq, Eq)]
pub struct Config {
    /// The URL of the backend API.
    pub aion_r_api_url: String,
    /// An optional API key for the backend API.
    pub aion_r_api_key: Option<String>,
}

} // verus!
