//! DNS and DNSSEC records of one Porkbun domain.
use vstd::prelude::*;
use std::collections::HashMap;
use super::client::{
    domain_endpoint, domain_id_path, domain_item_endpoint, domain_item_path, domain_path, Porkbun,
};
use super::endpoints::{
    DNSSEC_CREATE, DNSSEC_DELETE, DNSSEC_GET, DNS_CREATE, DNS_DELETE_BY_ID, DNS_EDIT_BY_ID,
    DNS_RETRIEVE_BY_DOMAIN, DNS_RETRIEVE_BY_NAME_TYPE,
};
use crate::text::{decimal, push_segment};

verus! {

/// A DNS record as the API returns it; numbers come as text.
#[derive(Debug, Clone)]
pub struct DnsRecord {
    pub id: String,
    pub name: String,
    pub record_type: String,
    pub content: String,
    pub ttl: String,
    pub prio: String,
    pub notes: Option<String>,
}

/// The answer that lists DNS records.
#[derive(Debug, Clone)]
pub struct DnsRecordListResponse {
    pub status: String,
    pub records: Vec<DnsRecord>,
}

/// What a new DNS record is made of. `name` is the subdomain; `None` for the
/// domain itself.
#[derive(Debug, Clone)]
pub struct DnsRecordCreateOptions<'a> {
    pub name: Option<&'a str>,
    pub record_type: &'a str,
    pub content: &'a str,
    pub ttl: Option<&'a str>,
    pub prio: Option<&'a str>,
}

/// The answer to a record creation: the new record's id.
#[derive(Debug, Clone)]
pub struct DnsRecordCreateResponse {
    pub status: String,
    pub id: u64,
}

/// The changes to a DNS record; what is `None` is left out of the request.
#[derive(Debug, Clone, Default)]
pub struct DnsRecordEditOptions<'a> {
    pub name: Option<&'a str>,
    pub record_type: Option<&'a str>,
    pub content: Option<&'a str>,
    pub ttl: Option<&'a str>,
    pub prio: Option<&'a str>,
}

/// A DNSSEC record at the registry.
#[derive(Debug, Clone)]
pub struct DnssecRecord {
    pub key_tag: String,
    pub alg: String,
    pub digest_type: String,
    pub digest: String,
    pub max_sig_life: Option<String>,
    pub key_data_flags: Option<String>,
    pub key_data_protocol: Option<String>,
    pub key_data_algo: Option<String>,
    pub key_data_pub_key: Option<String>,
}

/// The answer that lists DNSSEC records, keyed by key tag.
#[derive(Debug, Clone)]
pub struct DnssecRecordListResponse {
    pub status: String,
    pub records: HashMap<String, DnssecRecord>,
}

/// The record that a read by id answers with: the first listed, if any.
pub fn first_record(records: Vec<DnsRecord>) -> (r: Option<DnsRecord>)
    ensures
        records@.len() == 0 ==> r is None,
        records@.len() > 0 ==> r == Some(records@[0]),
{
    let mut records = records;
    if records.len() == 0 {
        None
    } else {
        Some(records.remove(0))
    }
}

/// DNS and DNSSEC operations on one domain.
pub struct Dns<'a> {
    client: &'a Porkbun,
    domain: &'a str,
}

impl<'a> Dns<'a> {
    pub(crate) fn new(client: &'a Porkbun, domain: &'a str) -> (r: Self)
        ensures
            r.owner() == *client,
            r.name() == domain@,
    {
        Dns { client, domain }
    }

    /// The client this operates through.
    pub closed spec fn owner(&self) -> Porkbun {
        *self.client
    }

    /// The domain this operates on.
    pub closed spec fn name(&self) -> Seq<char> {
        self.domain@
    }

    /// The client this operates through.
    pub fn client(&self) -> (r: &'a Porkbun)
        ensures
            *r == self.owner(),
    {
        self.client
    }

    /// The path that a new record is posted to.
    pub fn create_record_path(&self) -> (r: String)
        ensures
            r@ == domain_endpoint(DNS_CREATE@, self.name()),
    {
        domain_path(DNS_CREATE, self.domain)
    }

    /// The path that changes the record `record_id`.
    pub fn edit_record_by_id_path(&self, record_id: u64) -> (r: String)
        ensures
            r@ == domain_item_endpoint(DNS_EDIT_BY_ID@, self.name(), decimal(record_id as nat)),
    {
        domain_id_path(DNS_EDIT_BY_ID, self.domain, record_id)
    }

    /// The path that removes the record `record_id`.
    pub fn delete_record_by_id_path(&self, record_id: u64) -> (r: String)
        ensures
            r@ == domain_item_endpoint(DNS_DELETE_BY_ID@, self.name(), decimal(record_id as nat)),
    {
        domain_id_path(DNS_DELETE_BY_ID, self.domain, record_id)
    }

    /// The path that lists every record of the domain.
    pub fn retrieve_all_records_path(&self) -> (r: String)
        ensures
            r@ == domain_endpoint(DNS_RETRIEVE_BY_DOMAIN@, self.name()),
    {
        domain_path(DNS_RETRIEVE_BY_DOMAIN, self.domain)
    }

    /// The path that lists the record `record_id`; see [`first_record`].
    pub fn retrieve_record_by_id_path(&self, record_id: u64) -> (r: String)
        ensures
            r@ == domain_item_endpoint(DNS_RETRIEVE_BY_DOMAIN@, self.name(), decimal(record_id as nat)),
    {
        domain_id_path(DNS_RETRIEVE_BY_DOMAIN, self.domain, record_id)
    }

    /// The path that lists the records of type `record_type` at `subdomain`;
    /// an empty `subdomain` stands for the domain itself and adds nothing.
    pub fn retrieve_records_by_name_type_path(&self, record_type: &str, subdomain: &str) -> (r: String)
        ensures
            r@ == domain_item_endpoint(DNS_RETRIEVE_BY_NAME_TYPE@, self.name(), record_type@) + if subdomain@.len() == 0 {
                Seq::<char>::empty()
            } else {
                "/"@ + subdomain@
            },
    {
        let mut r = domain_item_path(DNS_RETRIEVE_BY_NAME_TYPE, self.domain, record_type);
        if !subdomain.is_empty() {
            push_segment(&mut r, subdomain);
        } else {
            assert(r@ + Seq::<char>::empty() =~= r@);
        }
        r
    }

    /// The path that a new DNSSEC record is posted to.
    pub fn create_dnssec_record_path(&self) -> (r: String)
        ensures
            r@ == domain_endpoint(DNSSEC_CREATE@, self.name()),
    {
        domain_path(DNSSEC_CREATE, self.domain)
    }

    /// The path that lists the DNSSEC records.
    pub fn get_dnssec_records_path(&self) -> (r: String)
        ensures
            r@ == domain_endpoint(DNSSEC_GET@, self.name()),
    {
        domain_path(DNSSEC_GET, self.domain)
    }

    /// The path that removes the DNSSEC record with `key_tag`.
    pub fn delete_dnssec_record_path(&self, key_tag: &str) -> (r: String)
        ensures
            r@ == domain_item_endpoint(DNSSEC_DELETE@, self.name(), key_tag@),
    {
        domain_item_path(DNSSEC_DELETE, self.domain, key_tag)
    }
}

} // verus!
