//! Shared data of the Porkbun API.
use vstd::prelude::*;
use std::collections::HashMap;

verus! {

/// The API key and its secret, merged into the body of every authenticated
/// request.
#[derive(Debug, Clone)]
pub struct Auth {
    pub secretapikey: String,
    pub apikey: String,
}

/// The envelope of every answer, and the whole answer of operations that
/// return nothing else.
#[derive(Debug, Clone)]
pub struct StatusResponse {
    pub status: String,
    pub message: Option<String>,
}

/// The answer to `ping`: the caller's public address.
#[derive(Debug, Clone)]
pub struct PingResponse {
    pub status: String,
    pub your_ip: String,
}

/// The prices of one top-level domain.
#[derive(Debug, Clone)]
pub struct TldPricing {
    pub registration: String,
    pub renewal: String,
    pub transfer: String,
}

/// The prices of every top-level domain, keyed by its name (`"com"`).
#[derive(Debug, Clone)]
pub struct PricingResponse {
    pub status: String,
    pub pricing: HashMap<String, TldPricing>,
}

} // verus!
