//! The SSL certificate bundle of one Porkbun domain.
use vstd::prelude::*;
use super::client::{domain_endpoint, domain_path, Porkbun};
use super::endpoints::SSL_RETRIEVE_BUNDLE;

verus! {

/// A domain's certificate bundle; each part in PEM form.
#[derive(Debug, Clone)]
pub struct SslBundleResponse {
    pub status: String,
    pub certificatechain: String,
    pub privatekey: String,
    pub publickey: String,
}

/// SSL operations on one domain.
pub struct Ssl<'a> {
    client: &'a Porkbun,
    domain: &'a str,
}

impl<'a> Ssl<'a> {
    pub(crate) fn new(client: &'a Porkbun, domain: &'a str) -> (r: Self)
        ensures
            r.owner() == *client,
            r.name() == domain@,
    {
        Ssl { client, domain }
    }

    /// The client this operates through.
    pub closed spec fn owner(&self) -> Porkbun {
        *self.client
    }

    /// The domain this operates on.
    pub closed spec fn name(&self) -> Seq<char> {
        self.domain@
    }

    /// The client this operates through.
    pub fn client(&self) -> (r: &'a Porkbun)
        ensures
            *r == self.owner(),
    {
        self.client
    }

    /// The path of the domain's certificate bundle.
    pub fn retrieve_bundle_path(&self) -> (r: String)
        ensures
            r@ == domain_endpoint(SSL_RETRIEVE_BUNDLE@, self.name()),
    {
        domain_path(SSL_RETRIEVE_BUNDLE, self.domain)
    }
}

} // verus!
