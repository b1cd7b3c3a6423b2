//! URL-forwarding rules of one Name.com domain.
use vstd::prelude::*;
use super::client::NameDotCom;
use super::endpoints::{
    collection_path, domain_collection, domain_collection_member, domain_collection_page, member_path, page_path,
    CORE_V1_URL_FORWARDING_SUFFIX,
};

verus! {

/// A URL-forwarding rule.
#[derive(Debug, Clone)]
pub struct UrlForwardingRecord {
    pub domain_name: String,
    pub host: String,
    pub forwards_to: String,
    /// `"redirect"`, `"masked"` or `"302"`.
    pub forward_type: String,
    pub title: Option<String>,
    pub meta: Option<String>,
}

/// The body that creates a URL-forwarding rule.
#[derive(Debug, Clone)]
pub struct UrlForwardingCreatePayload<'a> {
    pub domain_name: &'a str,
    pub host: &'a str,
    pub forwards_to: &'a str,
    pub forward_type: &'a str,
    pub title: Option<&'a str>,
    pub meta: Option<&'a str>,
}

/// The body that updates a URL-forwarding rule; its host is in the path.
#[derive(Debug, Clone)]
pub struct UrlForwardingUpdatePayload<'a> {
    pub forwards_to: &'a str,
    pub forward_type: &'a str,
    pub title: Option<&'a str>,
    pub meta: Option<&'a str>,
}

/// URL-forwarding operations on one domain.
pub struct UrlForwardingClient<'a> {
    client: &'a NameDotCom,
    domain_name: &'a str,
}

impl<'a> UrlForwardingClient<'a> {
    pub(crate) fn new(client: &'a NameDotCom, domain_name: &'a str) -> (r: Self)
        ensures
            r.owner() == *client,
            r.domain() == domain_name@,
    {
        UrlForwardingClient { client, domain_name }
    }

    /// The client this operates through.
    pub closed spec fn owner(&self) -> NameDotCom {
        *self.client
    }

    /// The domain this operates on.
    pub closed spec fn domain(&self) -> Seq<char> {
        self.domain_name@
    }

    /// The client this operates through.
    pub fn client(&self) -> (r: &'a NameDotCom)
        ensures
            *r == self.owner(),
    {
        self.client
    }

    /// The path of page `page` of the rules; the list is gathered by a
    /// next-page sweep.
    pub fn list_path(&self, page: u64) -> (r: String)
        ensures
            r@ == domain_collection_page(self.domain(), CORE_V1_URL_FORWARDING_SUFFIX@, page),
    {
        page_path(self.domain_name, CORE_V1_URL_FORWARDING_SUFFIX, page)
    }

    /// The path of the rule for `host`: read with GET, replaced with PUT,
    /// removed with DELETE.
    pub fn host_path(&self, host: &str) -> (r: String)
        ensures
            r@ == domain_collection_member(self.domain(), CORE_V1_URL_FORWARDING_SUFFIX@, host@),
    {
        member_path(self.domain_name, CORE_V1_URL_FORWARDING_SUFFIX, host)
    }

    /// The path that a new rule is posted to.
    pub fn create_path(&self) -> (r: String)
        ensures
            r@ == domain_collection(self.domain(), CORE_V1_URL_FORWARDING_SUFFIX@),
    {
        collection_path(self.domain_name, CORE_V1_URL_FORWARDING_SUFFIX)
    }
}

} // verus!
