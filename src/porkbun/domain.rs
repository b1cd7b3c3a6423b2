//! Nameservers, listing, URL forwarding, availability and glue records of
//! Porkbun domains.
use vstd::prelude::*;
use super::client::{domain_endpoint, domain_id_path, domain_item_endpoint, domain_item_path, domain_path, Porkbun};
use super::endpoints::{
    DOMAIN_ADD_URL_FORWARD, DOMAIN_CHECK, DOMAIN_CREATE_GLUE, DOMAIN_DELETE_GLUE, DOMAIN_DELETE_URL_FORWARD,
    DOMAIN_GET_GLUE, DOMAIN_GET_NS, DOMAIN_GET_URL_FORWARDING, DOMAIN_LIST_ALL, DOMAIN_UPDATE_GLUE,
    DOMAIN_UPDATE_NS,
};
use crate::text::decimal;

verus! {

/// The answer that lists a domain's nameservers.
#[derive(Debug, Clone)]
pub struct NameserverListResponse {
    pub status: String,
    pub ns: Vec<String>,
}

/// A label attached to a domain.
#[derive(Debug, Clone)]
pub struct Label {
    pub id: String,
    pub title: String,
    pub color: String,
}

/// One domain of the account.
#[derive(Debug, Clone)]
pub struct DomainInfo {
    pub domain: String,
    pub status: String,
    pub tld: String,
    pub create_date: String,
    pub expire_date: String,
    /// `"1"` or `"0"`.
    pub security_lock: String,
    /// `"1"` or `"0"`.
    pub whois_privacy: String,
    /// 1 or 0.
    pub auto_renew: u8,
    /// 1 or 0.
    pub not_local: u8,
    pub labels: Vec<Label>,
}

/// One batch of the account's domains.
#[derive(Debug, Clone)]
pub struct DomainListResponse {
    pub status: String,
    pub domains: Vec<DomainInfo>,
}

/// The body of one batch request of the domain list, besides credentials.
#[derive(Debug, Clone)]
pub struct DomainListRequest {
    /// The offset of the batch.
    pub start: Option<u64>,
    /// `"yes"` to have labels included.
    pub include_labels: Option<String>,
}

/// A URL-forwarding rule.
#[derive(Debug, Clone)]
pub struct UrlForwardRecord {
    pub id: String,
    /// Empty for the domain itself.
    pub subdomain: String,
    pub location: String,
    /// `"temporary"` or `"permanent"`.
    pub forward_type: String,
    /// `"yes"` or `"no"`.
    pub include_path: String,
    /// `"yes"` or `"no"`.
    pub wildcard: String,
}

/// The answer that lists URL-forwarding rules.
#[derive(Debug, Clone)]
pub struct UrlForwardListResponse {
    pub status: String,
    pub forwards: Vec<UrlForwardRecord>,
}

/// The body that adds a URL-forwarding rule, besides credentials.
#[derive(Debug, Clone)]
pub struct UrlForwardCreateRequest<'a> {
    pub subdomain: Option<&'a str>,
    pub location: &'a str,
    pub forward_type: &'a str,
    pub include_path: &'a str,
    pub wildcard: &'a str,
}

/// A price and its kind.
#[derive(Debug, Clone)]
pub struct PriceInfo {
    pub price_type: String,
    pub price: String,
    pub regular_price: String,
}

/// Renewal and transfer prices.
#[derive(Debug, Clone)]
pub struct AdditionalPricing {
    pub renewal: PriceInfo,
    pub transfer: PriceInfo,
}

/// Whether a domain can be registered, and at what price.
#[derive(Debug, Clone)]
pub struct DomainAvailability {
    /// `"yes"` or `"no"`.
    pub avail: String,
    pub availability_type: String,
    pub price: String,
    /// `"yes"` or `"no"`.
    pub first_year_promo: String,
    pub regular_price: String,
    /// `"yes"` or `"no"`.
    pub premium: String,
    pub additional: AdditionalPricing,
}

/// How much of the availability-check allowance is used.
#[derive(Debug, Clone)]
pub struct RateLimitInfo {
    pub ttl: String,
    pub limit: String,
    pub used: u64,
    pub natural_language: String,
}

/// The answer to an availability check.
#[derive(Debug, Clone)]
pub struct DomainCheckResponse {
    pub status: String,
    pub response: DomainAvailability,
    pub limits: RateLimitInfo,
}

/// The body of the batch at offset `start` of the domain list.
pub fn list_all_request(start: u64, include_labels: bool) -> (r: DomainListRequest)
    ensures
        r.start == Some(start),
        include_labels ==> (r.include_labels matches Some(s) && s@ == "yes"@),
        !include_labels ==> r.include_labels is None,
{
    DomainListRequest {
        start: Some(start),
        include_labels: if include_labels {
            Some(String::from_str("yes"))
        } else {
            None
        },
    }
}

/// The body that adds the rule `options`: an empty subdomain is left out.
pub fn url_forward_request<'a>(options: &'a UrlForwardRecord) -> (r: UrlForwardCreateRequest<'a>)
    ensures
        options.subdomain@.len() == 0 ==> r.subdomain is None,
        options.subdomain@.len() != 0 ==> (r.subdomain matches Some(s) && s@ == options.subdomain@),
        r.location@ == options.location@,
        r.forward_type@ == options.forward_type@,
        r.include_path@ == options.include_path@,
        r.wildcard@ == options.wildcard@,
{
    UrlForwardCreateRequest {
        subdomain: if options.subdomain.as_str().is_empty() {
            None
        } else {
            Some(options.subdomain.as_str())
        },
        location: options.location.as_str(),
        forward_type: options.forward_type.as_str(),
        include_path: options.include_path.as_str(),
        wildcard: options.wildcard.as_str(),
    }
}

/// Operations on one domain.
pub struct Domain<'a> {
    client: &'a Porkbun,
    domain: &'a str,
}

impl<'a> Domain<'a> {
    pub(crate) fn new(client: &'a Porkbun, domain: &'a str) -> (r: Self)
        ensures
            r.owner() == *client,
            r.name() == domain@,
    {
        Domain { client, domain }
    }

    /// The client this operates through.
    pub closed spec fn owner(&self) -> Porkbun {
        *self.client
    }

    /// The domain this operates on.
    pub closed spec fn name(&self) -> Seq<char> {
        self.domain@
    }

    /// The client this operates through.
    pub fn client(&self) -> (r: &'a Porkbun)
        ensures
            *r == self.owner(),
    {
        self.client
    }

    /// The path that new nameservers are posted to.
    pub fn update_nameservers_path(&self) -> (r: String)
        ensures
            r@ == domain_endpoint(DOMAIN_UPDATE_NS@, self.name()),
    {
        domain_path(DOMAIN_UPDATE_NS, self.domain)
    }

    /// The path that lists the nameservers.
    pub fn get_nameservers_path(&self) -> (r: String)
        ensures
            r@ == domain_endpoint(DOMAIN_GET_NS@, self.name()),
    {
        domain_path(DOMAIN_GET_NS, self.domain)
    }

    /// The path of every batch of the account's domain list, which is
    /// gathered by an offset sweep.
    pub fn list_all_path(&self) -> (r: String)
        ensures
            r@ == DOMAIN_LIST_ALL@,
    {
        String::from_str(DOMAIN_LIST_ALL)
    }

    /// The path that a new URL-forwarding rule is posted to.
    pub fn add_url_forward_path(&self) -> (r: String)
        ensures
            r@ == domain_endpoint(DOMAIN_ADD_URL_FORWARD@, self.name()),
    {
        domain_path(DOMAIN_ADD_URL_FORWARD, self.domain)
    }

    /// The path that lists the URL-forwarding rules.
    pub fn get_url_forwarding_path(&self) -> (r: String)
        ensures
            r@ == domain_endpoint(DOMAIN_GET_URL_FORWARDING@, self.name()),
    {
        domain_path(DOMAIN_GET_URL_FORWARDING, self.domain)
    }

    /// The path that removes the URL-forwarding rule `record_id`.
    pub fn delete_url_forward_path(&self, record_id: u64) -> (r: String)
        ensures
            r@ == domain_item_endpoint(DOMAIN_DELETE_URL_FORWARD@, self.name(), decimal(record_id as nat)),
    {
        domain_id_path(DOMAIN_DELETE_URL_FORWARD, self.domain, record_id)
    }

    /// The path of the availability check.
    pub fn check_path(&self) -> (r: String)
        ensures
            r@ == domain_endpoint(DOMAIN_CHECK@, self.name()),
    {
        domain_path(DOMAIN_CHECK, self.domain)
    }

    /// The path that creates the glue record of `subdomain`.
    pub fn create_glue_record_path(&self, subdomain: &str) -> (r: String)
        ensures
            r@ == domain_item_endpoint(DOMAIN_CREATE_GLUE@, self.name(), subdomain@),
    {
        domain_item_path(DOMAIN_CREATE_GLUE, self.domain, subdomain)
    }

    /// The path that replaces the addresses of the glue record of `subdomain`.
    pub fn update_glue_record_path(&self, subdomain: &str) -> (r: String)
        ensures
            r@ == domain_item_endpoint(DOMAIN_UPDATE_GLUE@, self.name(), subdomain@),
    {
        domain_item_path(DOMAIN_UPDATE_GLUE, self.domain, subdomain)
    }

    /// The path that removes the glue record of `subdomain`.
    pub fn delete_glue_record_path(&self, subdomain: &str) -> (r: String)
        ensures
            r@ == domain_item_endpoint(DOMAIN_DELETE_GLUE@, self.name(), subdomain@),
    {
        domain_item_path(DOMAIN_DELETE_GLUE, self.domain, subdomain)
    }

    /// The path that lists the glue records.
    pub fn get_glue_records_path(&self) -> (r: String)
        ensures
            r@ == domain_endpoint(DOMAIN_GET_GLUE@, self.name()),
    {
        domain_path(DOMAIN_GET_GLUE, self.domain)
    }
}

} // verus!
