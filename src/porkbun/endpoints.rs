//! Path constants of the Porkbun v3 API. Most are followed by a domain name.
use vstd::prelude::*;

verus! {

/// The base URL of every call.
pub const BASE_URL: &'static str = "https://api.porkbun.com/api/json/v3";

pub const PING: &'static str = "/ping";
pub const PRICING_GET: &'static str = "/pricing/get";

pub const DOMAIN_UPDATE_NS: &'static str = "/domain/updateNs/";
pub const DOMAIN_GET_NS: &'static str = "/domain/getNs/";
pub const DOMAIN_LIST_ALL: &'static str = "/domain/listAll";
pub const DOMAIN_ADD_URL_FORWARD: &'static str = "/domain/addUrlForward/";
pub const DOMAIN_GET_URL_FORWARDING: &'static str = "/domain/getUrlForwarding/";
pub const DOMAIN_DELETE_URL_FORWARD: &'static str = "/domain/deleteUrlForward/";
pub const DOMAIN_CHECK: &'static str = "/domain/checkDomain/";
pub const DOMAIN_CREATE_GLUE: &'static str = "/domain/createGlue/";
pub const DOMAIN_UPDATE_GLUE: &'static str = "/domain/updateGlue/";
pub const DOMAIN_DELETE_GLUE: &'static str = "/domain/deleteGlue/";
pub const DOMAIN_GET_GLUE: &'static str = "/domain/getGlue/";

pub const DNS_CREATE: &'static str = "/dns/create/";
pub const DNS_EDIT_BY_ID: &'static str = "/dns/edit/";
pub const DNS_EDIT_BY_NAME_TYPE: &'static str = "/dns/editByNameType/";
pub const DNS_DELETE_BY_ID: &'static str = "/dns/delete/";
pub const DNS_DELETE_BY_NAME_TYPE: &'static str = "/dns/deleteByNameType/";
/// Followed by a domain name, and by a record id to read one record.
pub const DNS_RETRIEVE_BY_DOMAIN: &'static str = "/dns/retrieve/";
pub const DNS_RETRIEVE_BY_NAME_TYPE: &'static str = "/dns/retrieveByNameType/";
pub const DNSSEC_CREATE: &'static str = "/dns/createDnssecRecord/";
pub const DNSSEC_GET: &'static str = "/dns/getDnssecRecords/";
pub const DNSSEC_DELETE: &'static str = "/dns/deleteDnssecRecord/";

pub const SSL_RETRIEVE_BUNDLE: &'static str = "/ssl/retrieve/";

} // verus!
