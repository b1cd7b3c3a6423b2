//! The Porkbun client: its credentials and the paths shared by its groups.
use vstd::prelude::*;
use super::dns::Dns;
use super::domain::Domain;
use super::endpoints;
use super::ssl::Ssl;
use super::types::Auth;
use crate::text::{decimal, push_decimal, push_segment};
use crate::normalize::Policy;
use crate::transport::Credentials;

verus! {

/// The path of `endpoint` for `domain`.
pub open spec fn domain_endpoint(endpoint: Seq<char>, domain: Seq<char>) -> Seq<char> {
    endpoint + domain
}

/// The path of `endpoint` for the item `key` of `domain`.
pub open spec fn domain_item_endpoint(endpoint: Seq<char>, domain: Seq<char>, key: Seq<char>) -> Seq<char> {
    endpoint + domain + "/"@ + key
}

/// The path of `endpoint` for `domain`.
pub fn domain_path(endpoint: &str, domain: &str) -> (r: String)
    ensures
        r@ == domain_endpoint(endpoint@, domain@),
{
    let mut r = String::from_str(endpoint);
    r.append(domain);
    r
}

/// The path of `endpoint` for the item `key` of `domain`.
pub fn domain_item_path(endpoint: &str, domain: &str, key: &str) -> (r: String)
    ensures
        r@ == domain_item_endpoint(endpoint@, domain@, key@),
{
    let mut r = domain_path(endpoint, domain);
    push_segment(&mut r, key);
    r
}

/// The path of `endpoint` for the item numbered `id` of `domain`.
pub fn domain_id_path(endpoint: &str, domain: &str, id: u64) -> (r: String)
    ensures
        r@ == domain_item_endpoint(endpoint@, domain@, decimal(id as nat)),
{
    let mut r = domain_path(endpoint, domain);
    r.append("/");
    push_decimal(&mut r, id);
    r
}

/// The client for the Porkbun v3 API.
#[derive(Debug, Clone)]
pub struct Porkbun {
    pub(crate) auth: Auth,
}

impl Porkbun {
    /// A client that authenticates with `apikey` and `secretapikey`.
    pub fn new(apikey: String, secretapikey: String) -> (r: Self)
        ensures
            r.key() == apikey@,
            r.secret() == secretapikey@,
    {
        Porkbun { auth: Auth { apikey, secretapikey } }
    }

    /// The API key.
    pub closed spec fn key(&self) -> Seq<char> {
        self.auth.apikey@
    }

    /// The secret API key.
    pub closed spec fn secret(&self) -> Seq<char> {
        self.auth.secretapikey@
    }

    /// The credentials, as the body of requests that send nothing else.
    pub fn auth(&self) -> (r: &Auth)
        ensures
            r.apikey@ == self.key(),
            r.secretapikey@ == self.secret(),
    {
        &self.auth
    }

    /// The authentication strategy: the key and secret merged into every
    /// request body.
    pub fn credentials(&self) -> (r: Credentials)
        ensures
            r matches Credentials::Embedded { apikey, secretapikey } && apikey@ == self.key()
                && secretapikey@ == self.secret(),
    {
        Credentials::Embedded {
            apikey: self.auth.apikey.clone(),
            secretapikey: self.auth.secretapikey.clone(),
        }
    }

    /// How this client's responses are read.
    pub fn policy(&self) -> (r: Policy)
        ensures
            r == Policy::EnvelopeDriven,
    {
        Policy::EnvelopeDriven
    }

    /// The full URL of `path`.
    pub fn url(&self, path: &str) -> (r: String)
        ensures
            r@ == endpoints::BASE_URL@ + path@,
    {
        let mut r = String::from_str(endpoints::BASE_URL);
        r.append(path);
        r
    }

    /// The path of the credentials check.
    pub fn ping_path(&self) -> (r: String)
        ensures
            r@ == endpoints::PING@,
    {
        String::from_str(endpoints::PING)
    }

    /// The path of the price list, which is read without credentials.
    pub fn get_pricing_path(&self) -> (r: String)
        ensures
            r@ == endpoints::PRICING_GET@,
    {
        String::from_str(endpoints::PRICING_GET)
    }

    /// Operations on the domain `domain`.
    pub fn domain<'a>(&'a self, domain: &'a str) -> (r: Domain<'a>)
        ensures
            r.owner() == *self,
            r.name() == domain@,
    {
        Domain::new(self, domain)
    }

    /// DNS and DNSSEC operations on `domain`.
    pub fn dns<'a>(&'a self, domain: &'a str) -> (r: Dns<'a>)
        ensures
            r.owner() == *self,
            r.name() == domain@,
    {
        Dns::new(self, domain)
    }

    /// SSL operations on `domain`.
    pub fn ssl<'a>(&'a self, domain: &'a str) -> (r: Ssl<'a>)
        ensures
            r.owner() == *self,
            r.name() == domain@,
    {
        Ssl::new(self, domain)
    }
}

} // verus!
