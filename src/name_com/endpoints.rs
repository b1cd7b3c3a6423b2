//! Path constants of the Name.com Core V1 API, and the paths built from
//! them: a path that names a domain is a prefix, the domain name and a suffix.
use vstd::prelude::*;
use crate::text::{concat3, decimal, push_page_query, push_segment};

verus! {

pub const HELLO: &'static str = "/core/v1/hello";

/// Followed by a domain name.
pub const CORE_V1_DOMAINS_PREFIX: &'static str = "/core/v1/domains/";

pub const CORE_V1_RECORDS_SUFFIX: &'static str = "/records";

pub const CORE_V1_DNSSEC_SUFFIX: &'static str = "/dnssec";

pub const CORE_V1_URL_FORWARDING_SUFFIX: &'static str = "/url/forwarding";

pub const CORE_V1_VANITY_NS_SUFFIX: &'static str = "/vanity_nameservers";

pub const CORE_V1_ACTION_GET_AUTH_CODE: &'static str = ":getAuthCode";

pub const CORE_V1_ACTION_SET_NAMESERVERS: &'static str = ":setNameservers";

pub const CORE_V1_ACTION_CHECK_AVAILABILITY: &'static str = ":checkAvailability";

/// The path of the collection `suffix` of `domain`.
pub open spec fn domain_collection(domain: Seq<char>, suffix: Seq<char>) -> Seq<char> {
    CORE_V1_DOMAINS_PREFIX@ + domain + suffix
}

/// The path of the member `key` of the collection `suffix` of `domain`.
pub open spec fn domain_collection_member(domain: Seq<char>, suffix: Seq<char>, key: Seq<char>) -> Seq<char> {
    domain_collection(domain, suffix) + "/"@ + key
}

/// The path of page `page` of the collection `suffix` of `domain`.
pub open spec fn domain_collection_page(domain: Seq<char>, suffix: Seq<char>, page: u64) -> Seq<char> {
    domain_collection(domain, suffix) + "?page="@ + decimal(page as nat)
}

/// The path of the collection `suffix` of `domain`.
pub fn collection_path(domain: &str, suffix: &str) -> (r: String)
    ensures
        r@ == domain_collection(domain@, suffix@),
{
    concat3(CORE_V1_DOMAINS_PREFIX, domain, suffix)
}

/// The path of the member `key` of the collection `suffix` of `domain`.
pub fn member_path(domain: &str, suffix: &str, key: &str) -> (r: String)
    ensures
        r@ == domain_collection_member(domain@, suffix@, key@),
{
    let mut r = collection_path(domain, suffix);
    push_segment(&mut r, key);
    r
}

/// The path of page `page` of the collection `suffix` of `domain`.
pub fn page_path(domain: &str, suffix: &str, page: u64) -> (r: String)
    ensures
        r@ == domain_collection_page(domain@, suffix@, page),
{
    let mut r = collection_path(domain, suffix);
    push_page_query(&mut r, page);
    r
}

} // verus!
