//! The Name.com client: where it sends requests and with which credentials.
use vstd::prelude::*;
use super::dns::DnsClient;
use super::domain::DomainsClient;
use super::endpoints;
use super::url_forwarding::UrlForwardingClient;
use super::vanity_ns::VanityNameserverClient;
use crate::normalize::Policy;
use crate::transport::Credentials;

verus! {

/// The production API host.
pub const PRODUCTION_HOST: &'static str = "https://api.name.com";

/// The development API host.
pub const DEVELOPMENT_HOST: &'static str = "https://api.dev.name.com";

/// The client for the Name.com Core V1 API: a host and the username and
/// token sent as Basic authentication with every request.
#[derive(Debug, Clone)]
pub struct NameDotCom {
    host: String,
    username: String,
    token: String,
}

/// What a [`NameDotCom`] holds.
pub struct NameDotComView {
    pub host: Seq<char>,
    pub username: Seq<char>,
    pub token: Seq<char>,
}

impl View for NameDotCom {
    type V = NameDotComView;

    closed spec fn view(&self) -> NameDotComView {
        NameDotComView { host: self.host@, username: self.username@, token: self.token@ }
    }
}

impl NameDotCom {
    /// A client for the production environment.
    pub fn new(username: String, token: String) -> (r: Self)
        ensures
            r@ == (NameDotComView { host: PRODUCTION_HOST@, username: username@, token: token@ }),
    {
        Self::with_host(String::from_str(PRODUCTION_HOST), username, token)
    }

    /// A client for the development environment.
    pub fn new_dev(username: String, token: String) -> (r: Self)
        ensures
            r@ == (NameDotComView { host: DEVELOPMENT_HOST@, username: username@, token: token@ }),
    {
        Self::with_host(String::from_str(DEVELOPMENT_HOST), username, token)
    }

    /// A client for the environment at `host`.
    pub fn with_host(host: String, username: String, token: String) -> (r: Self)
        ensures
            r@ == (NameDotComView { host: host@, username: username@, token: token@ }),
    {
        NameDotCom { host, username, token }
    }

    /// The authentication strategy: Basic authentication with the username
    /// and token.
    pub fn credentials(&self) -> (r: Credentials)
        ensures
            r matches Credentials::Header { username, token } && username@ == self@.username
                && token@ == self@.token,
    {
        Credentials::Header { username: self.username.clone(), token: self.token.clone() }
    }

    /// How this client's responses are read.
    pub fn policy(&self) -> (r: Policy)
        ensures
            r == Policy::StatusDriven,
    {
        Policy::StatusDriven
    }

    /// The full URL of `path` on this client's host.
    pub fn url(&self, path: &str) -> (r: String)
        ensures
            r@ == self@.host + path@,
    {
        let mut r = self.host.clone();
        r.append(path);
        r
    }

    /// The path of the connectivity check.
    pub fn hello_path(&self) -> (r: String)
        ensures
            r@ == endpoints::HELLO@,
    {
        String::from_str(endpoints::HELLO)
    }

    /// Operations on the account's domains.
    pub fn domains<'a>(&'a self) -> (r: DomainsClient<'a>)
        ensures
            r.owner() == *self,
    {
        DomainsClient::new(self)
    }

    /// DNS and DNSSEC operations on `domain_name`.
    pub fn dns<'a>(&'a self, domain_name: &'a str) -> (r: DnsClient<'a>)
        ensures
            r.owner() == *self,
            r.domain() == domain_name@,
    {
        DnsClient::new(self, domain_name)
    }

    /// URL-forwarding operations on `domain_name`.
    pub fn url_forwarding<'a>(&'a self, domain_name: &'a str) -> (r: UrlForwardingClient<'a>)
        ensures
            r.owner() == *self,
            r.domain() == domain_name@,
    {
        UrlForwardingClient::new(self, domain_name)
    }

    /// Vanity-nameserver operations on `domain_name`.
    pub fn vanity_ns<'a>(&'a self, domain_name: &'a str) -> (r: VanityNameserverClient<'a>)
        ensures
            r.owner() == *self,
            r.domain() == domain_name@,
    {
        VanityNameserverClient::new(self, domain_name)
    }
}

} // verus!
