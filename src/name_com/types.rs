//! Shared data of the Name.com API.
use vstd::prelude::*;

verus! {

/// The answer to `hello`: it confirms that the API can be reached.
#[derive(Debug, Clone)]
pub struct Hello {
    pub motd: String,
    pub server_name: String,
    pub server_time: String,
    pub username: String,
}

} // verus!
