//! The Name.com Core V1 API: status-driven responses, Basic authentication,
//! and lists paginated by an explicit next-page number.
pub mod client;
pub mod dns;
pub mod domain;
pub mod endpoints;
pub mod types;
pub mod url_forwarding;
pub mod vanity_ns;

pub use client::NameDotCom;
