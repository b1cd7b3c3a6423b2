//! DNS and DNSSEC records of one Name.com domain.
use vstd::prelude::*;
use super::client::NameDotCom;
use super::endpoints::{
    collection_path, domain_collection, domain_collection_member, domain_collection_page, member_path, page_path,
    CORE_V1_DNSSEC_SUFFIX, CORE_V1_RECORDS_SUFFIX,
};
use crate::text::{push_signed_decimal, signed_decimal};

verus! {

/// A DNS record as the API returns it.
#[derive(Debug, Clone)]
pub struct DnsRecord {
    pub id: i32,
    pub domain_name: String,
    pub host: Option<String>,
    pub fqdn: String,
    pub record_type: String,
    pub answer: String,
    pub ttl: i64,
    pub priority: Option<i64>,
}

/// The body that creates or updates a DNS record.
#[derive(Debug, Clone)]
pub struct DnsRecordPayload<'a> {
    pub host: Option<&'a str>,
    pub record_type: &'a str,
    pub answer: &'a str,
    pub ttl: i64,
    pub priority: Option<i64>,
}

/// A DNSSEC record.
#[derive(Debug, Clone)]
pub struct DnssecRecord {
    pub domain_name: String,
    pub digest: String,
    pub digest_type: i32,
    pub key_tag: i32,
    pub algorithm: i32,
}

/// The body that creates a DNSSEC record.
#[derive(Debug, Clone)]
pub struct DnssecCreatePayload<'a> {
    pub digest: &'a str,
    pub digest_type: i32,
    pub key_tag: i32,
    pub algorithm: i32,
}

/// DNS and DNSSEC operations on one domain.
pub struct DnsClient<'a> {
    client: &'a NameDotCom,
    domain_name: &'a str,
}

impl<'a> DnsClient<'a> {
    pub(crate) fn new(client: &'a NameDotCom, domain_name: &'a str) -> (r: Self)
        ensures
            r.owner() == *client,
            r.domain() == domain_name@,
    {
        DnsClient { client, domain_name }
    }

    /// The client this operates through.
    pub closed spec fn owner(&self) -> NameDotCom {
        *self.client
    }

    /// The domain this operates on.
    pub closed spec fn domain(&self) -> Seq<char> {
        self.domain_name@
    }

    /// The client this operates through.
    pub fn client(&self) -> (r: &'a NameDotCom)
        ensures
            *r == self.owner(),
    {
        self.client
    }

    /// The path of page `page` of the DNS records; the list is gathered by a
    /// next-page sweep.
    pub fn list_records_path(&self, page: u64) -> (r: String)
        ensures
            r@ == domain_collection_page(self.domain(), CORE_V1_RECORDS_SUFFIX@, page),
    {
        page_path(self.domain_name, CORE_V1_RECORDS_SUFFIX, page)
    }

    /// The path of the DNS record `record_id`: read with GET, replaced with
    /// PUT, removed with DELETE.
    pub fn record_path(&self, record_id: i32) -> (r: String)
        ensures
            r@ == domain_collection(self.domain(), CORE_V1_RECORDS_SUFFIX@) + "/"@ + signed_decimal(
                record_id as int,
            ),
    {
        let mut r = collection_path(self.domain_name, CORE_V1_RECORDS_SUFFIX);
        r.append("/");
        push_signed_decimal(&mut r, record_id as i64);
        r
    }

    /// The path that a new DNS record is posted to.
    pub fn create_record_path(&self) -> (r: String)
        ensures
            r@ == domain_collection(self.domain(), CORE_V1_RECORDS_SUFFIX@),
    {
        collection_path(self.domain_name, CORE_V1_RECORDS_SUFFIX)
    }

    /// The path of the DNSSEC records: listed with GET, created with POST.
    pub fn dnssec_path(&self) -> (r: String)
        ensures
            r@ == domain_collection(self.domain(), CORE_V1_DNSSEC_SUFFIX@),
    {
        collection_path(self.domain_name, CORE_V1_DNSSEC_SUFFIX)
    }

    /// The path of the DNSSEC record with `digest`: read with GET, removed
    /// with DELETE.
    pub fn dnssec_record_path(&self, digest: &str) -> (r: String)
        ensures
            r@ == domain_collection_member(self.domain(), CORE_V1_DNSSEC_SUFFIX@, digest@),
    {
        member_path(self.domain_name, CORE_V1_DNSSEC_SUFFIX, digest)
    }
}

} // verus!
