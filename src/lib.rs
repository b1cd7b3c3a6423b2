//! A typed client core for two domain-registrar REST APIs.
//!
//! The library holds what the client decides: how a raw response becomes a
//! value or an error under each vendor's policy, how a list is gathered page
//! by page, how credentials travel with a request, and which path each
//! operation addresses. Sending requests and decoding typed bodies is left to
//! the caller's transport.
use vstd::prelude::*;

pub mod text;
pub mod json;
pub mod name_com;
pub mod normalize;
pub mod paginate;
pub mod porkbun;
pub mod transport;

verus! {

/// The error of every registrar operation.
#[derive(Debug)]
pub enum Error {
    /// The HTTP exchange itself failed (network, TLS, DNS, or a status that
    /// the transport treats as a failure), with the transport's message.
    Http(String),
    /// A body did not have the expected JSON shape, with the decoder's message.
    Json(String),
    /// The registrar rejected the request, with its message.
    Api(String),
    /// A paginated list did not advance past the cursor it was fetched at.
    Stalled(u64),
}

/// The result of every registrar operation.
pub type Result<T> = core::result::Result<T, Error>;

} // verus!
