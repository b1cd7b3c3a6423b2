//! The Porkbun v3 API: every request a POST whose JSON body carries the
//! credentials, every answer an envelope with a `status`, and the domain list
//! paginated by offset.
pub mod client;
pub mod dns;
pub mod domain;
pub mod endpoints;
pub mod ssl;
pub mod types;

pub use client::Porkbun;
