//! Vanity nameservers of one Name.com domain.
use vstd::prelude::*;
use super::client::NameDotCom;
use super::endpoints::{
    collection_path, domain_collection, domain_collection_member, domain_collection_page, member_path, page_path,
    CORE_V1_VANITY_NS_SUFFIX,
};

verus! {

/// A vanity nameserver: a host name of the domain and its addresses.
#[derive(Debug, Clone)]
pub struct VanityNameserver {
    pub domain_name: String,
    pub hostname: String,
    pub ips: Vec<String>,
}

/// The body that creates a vanity nameserver.
#[derive(Debug, Clone)]
pub struct VanityNsCreatePayload<'a> {
    pub hostname: &'a str,
    pub ips: Vec<&'a str>,
}

/// The body that replaces the addresses of a vanity nameserver.
#[derive(Debug, Clone)]
pub struct VanityNsUpdatePayload<'a> {
    pub ips: Vec<&'a str>,
}

/// Vanity-nameserver operations on one domain.
pub struct VanityNameserverClient<'a> {
    client: &'a NameDotCom,
    domain_name: &'a str,
}

impl<'a> VanityNameserverClient<'a> {
    pub(crate) fn new(client: &'a NameDotCom, domain_name: &'a str) -> (r: Self)
        ensures
            r.owner() == *client,
            r.domain() == domain_name@,
    {
        VanityNameserverClient { client, domain_name }
    }

    /// The client this operates through.
    pub closed spec fn owner(&self) -> NameDotCom {
        *self.client
    }

    /// The domain this operates on.
    pub closed spec fn domain(&self) -> Seq<char> {
        self.domain_name@
    }

    /// The client this operates through.
    pub fn client(&self) -> (r: &'a NameDotCom)
        ensures
            *r == self.owner(),
    {
        self.client
    }

    /// The path of page `page` of the vanity nameservers; the list is gathered by a
    /// next-page sweep.
    pub fn list_path(&self, page: u64) -> (r: String)
        ensures
            r@ == domain_collection_page(self.domain(), CORE_V1_VANITY_NS_SUFFIX@, page),
    {
        page_path(self.domain_name, CORE_V1_VANITY_NS_SUFFIX, page)
    }

    /// The path of the vanity nameserver `hostname`: read with GET, replaced with PUT,
    /// removed with DELETE.
    pub fn hostname_path(&self, hostname: &str) -> (r: String)
        ensures
            r@ == domain_collection_member(self.domain(), CORE_V1_VANITY_NS_SUFFIX@, hostname@),
    {
        member_path(self.domain_name, CORE_V1_VANITY_NS_SUFFIX, hostname)
    }

    /// The path that a new vanity nameserver is posted to.
    pub fn create_path(&self) -> (r: String)
        ensures
            r@ == domain_collection(self.domain(), CORE_V1_VANITY_NS_SUFFIX@),
    {
        collection_path(self.domain_name, CORE_V1_VANITY_NS_SUFFIX)
    }
}

} // verus!
