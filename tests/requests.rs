use registrar::name_com::domain::owned_names;
use registrar::name_com::NameDotCom;
use registrar::normalize::Policy;
use registrar::porkbun::dns::{first_record, DnsRecord};
use registrar::porkbun::domain::{list_all_request, url_forward_request, UrlForwardRecord};
use registrar::porkbun::Porkbun;
use registrar::transport::{embed_credentials, Credentials};
use registrar::Error;

fn name_com() -> NameDotCom {
    NameDotCom::new("user".to_string(), "tok".to_string())
}

fn record(id: &str) -> DnsRecord {
    DnsRecord {
        id: id.to_string(),
        name: "www.example.com".to_string(),
        record_type: "A".to_string(),
        content: "1.2.3.4".to_string(),
        ttl: "600".to_string(),
        prio: "0".to_string(),
        notes: None,
    }
}

#[test]
fn embedded_credentials_come_first() {
    let body = embed_credentials("pk1_x", "sk1_y", r#"{"name":"www","type":"A"}"#).unwrap();
    assert_eq!(body, r#"{"secretapikey":"sk1_y","apikey":"pk1_x","name":"www","type":"A"}"#);
}

#[test]
fn embedded_credentials_into_empty_object() {
    let body = embed_credentials("k", "s", "{}").unwrap();
    assert_eq!(body, r#"{"secretapikey":"s","apikey":"k"}"#);
}

#[test]
fn embedded_credentials_are_escaped() {
    let body = embed_credentials("a\"b", "c\\d", "{}").unwrap();
    assert_eq!(body, r#"{"secretapikey":"c\\d","apikey":"a\"b"}"#);
}

#[test]
fn embedding_into_non_object_fails() {
    assert!(matches!(embed_credentials("k", "s", "[1]"), Err(Error::Json(_))));
    assert!(matches!(embed_credentials("k", "s", "{"), Err(Error::Json(_))));
    assert!(matches!(embed_credentials("k", "s", ""), Err(Error::Json(_))));
}

#[test]
fn header_strategy_keeps_body_and_adds_basic_auth() {
    let out = name_com().credentials().prepare(Some("{\"a\":1}".to_string())).unwrap();
    assert_eq!(out.basic_auth, Some(("user".to_string(), "tok".to_string())));
    assert_eq!(out.body.as_deref(), Some("{\"a\":1}"));
    let out = name_com().credentials().prepare(None).unwrap();
    assert_eq!(out.body, None);
}

#[test]
fn embedded_strategy_always_sends_a_body() {
    let client = Porkbun::new("pk".to_string(), "sk".to_string());
    let out = client.credentials().prepare(None).unwrap();
    assert_eq!(out.basic_auth, None);
    assert_eq!(out.body.as_deref(), Some(r#"{"secretapikey":"sk","apikey":"pk"}"#));
    let out = client.credentials().prepare(Some(r#"{"start":0}"#.to_string())).unwrap();
    assert_eq!(out.body.as_deref(), Some(r#"{"secretapikey":"sk","apikey":"pk","start":0}"#));
    assert!(matches!(
        Credentials::Embedded { apikey: "k".to_string(), secretapikey: "s".to_string() }.prepare(Some("x".to_string())),
        Err(Error::Json(_))
    ));
}

#[test]
fn clients_pick_their_policy() {
    assert_eq!(name_com().policy(), Policy::StatusDriven);
    assert_eq!(Porkbun::new("k".to_string(), "s".to_string()).policy(), Policy::EnvelopeDriven);
}

#[test]
fn name_com_hosts() {
    assert_eq!(name_com().url("/core/v1/hello"), "https://api.name.com/core/v1/hello");
    let dev = NameDotCom::new_dev("u".to_string(), "t".to_string());
    assert_eq!(dev.url(&dev.hello_path()), "https://api.dev.name.com/core/v1/hello");
    let custom = NameDotCom::with_host("http://localhost:8080".to_string(), "u".to_string(), "t".to_string());
    assert_eq!(custom.url("/x"), "http://localhost:8080/x");
}

#[test]
fn name_com_record_paths() {
    let c = name_com();
    let dns = c.dns("example.org");
    assert_eq!(dns.list_records_path(1), "/core/v1/domains/example.org/records?page=1");
    assert_eq!(dns.list_records_path(1234567), "/core/v1/domains/example.org/records?page=1234567");
    assert_eq!(dns.record_path(12345), "/core/v1/domains/example.org/records/12345");
    assert_eq!(dns.record_path(0), "/core/v1/domains/example.org/records/0");
    assert_eq!(dns.record_path(-7), "/core/v1/domains/example.org/records/-7");
    assert_eq!(dns.record_path(i32::MIN), "/core/v1/domains/example.org/records/-2147483648");
    assert_eq!(dns.create_record_path(), "/core/v1/domains/example.org/records");
    assert_eq!(dns.dnssec_path(), "/core/v1/domains/example.org/dnssec");
    assert_eq!(dns.dnssec_record_path("ab12"), "/core/v1/domains/example.org/dnssec/ab12");
}

#[test]
fn name_com_domain_paths() {
    let c = name_com();
    let domains = c.domains();
    assert_eq!(domains.list_path(3), "/core/v1/domains/?page=3");
    assert_eq!(domains.check_availability_path(), "/core/v1/domains/:checkAvailability");
    assert_eq!(domains.create_path(), "/core/v1/domains/");
    let d = domains.domain("example.org");
    assert_eq!(d.path(), "/core/v1/domains/example.org");
    assert_eq!(d.get_auth_code_path(), "/core/v1/domains/example.org:getAuthCode");
    assert_eq!(d.set_nameservers_path(), "/core/v1/domains/example.org:setNameservers");
    assert_eq!(owned_names(&["a.com", "b.net"]), vec!["a.com".to_string(), "b.net".to_string()]);
}

#[test]
fn name_com_forwarding_and_vanity_paths() {
    let c = name_com();
    let f = c.url_forwarding("example.org");
    assert_eq!(f.list_path(2), "/core/v1/domains/example.org/url/forwarding?page=2");
    assert_eq!(f.host_path("www.example.org"), "/core/v1/domains/example.org/url/forwarding/www.example.org");
    assert_eq!(f.create_path(), "/core/v1/domains/example.org/url/forwarding");
    let v = c.vanity_ns("example.org");
    assert_eq!(v.list_path(10), "/core/v1/domains/example.org/vanity_nameservers?page=10");
    assert_eq!(v.hostname_path("ns1.example.org"), "/core/v1/domains/example.org/vanity_nameservers/ns1.example.org");
    assert_eq!(v.create_path(), "/core/v1/domains/example.org/vanity_nameservers");
}

#[test]
fn porkbun_dns_paths() {
    let c = Porkbun::new("k".to_string(), "s".to_string());
    assert_eq!(c.url(&c.ping_path()), "https://api.porkbun.com/api/json/v3/ping");
    assert_eq!(c.get_pricing_path(), "/pricing/get");
    let dns = c.dns("example.com");
    assert_eq!(dns.create_record_path(), "/dns/create/example.com");
    assert_eq!(dns.edit_record_by_id_path(106926659), "/dns/edit/example.com/106926659");
    assert_eq!(dns.delete_record_by_id_path(u64::MAX), "/dns/delete/example.com/18446744073709551615");
    assert_eq!(dns.retrieve_all_records_path(), "/dns/retrieve/example.com");
    assert_eq!(dns.retrieve_record_by_id_path(9), "/dns/retrieve/example.com/9");
    assert_eq!(dns.retrieve_records_by_name_type_path("A", "www"), "/dns/retrieveByNameType/example.com/A/www");
    assert_eq!(dns.retrieve_records_by_name_type_path("MX", ""), "/dns/retrieveByNameType/example.com/MX");
    assert_eq!(dns.create_dnssec_record_path(), "/dns/createDnssecRecord/example.com");
    assert_eq!(dns.get_dnssec_records_path(), "/dns/getDnssecRecords/example.com");
    assert_eq!(dns.delete_dnssec_record_path("64087"), "/dns/deleteDnssecRecord/example.com/64087");
    assert_eq!(c.ssl("example.com").retrieve_bundle_path(), "/ssl/retrieve/example.com");
}

#[test]
fn porkbun_domain_paths() {
    let c = Porkbun::new("k".to_string(), "s".to_string());
    let d = c.domain("example.com");
    assert_eq!(d.update_nameservers_path(), "/domain/updateNs/example.com");
    assert_eq!(d.get_nameservers_path(), "/domain/getNs/example.com");
    assert_eq!(d.list_all_path(), "/domain/listAll");
    assert_eq!(d.add_url_forward_path(), "/domain/addUrlForward/example.com");
    assert_eq!(d.get_url_forwarding_path(), "/domain/getUrlForwarding/example.com");
    assert_eq!(d.delete_url_forward_path(42), "/domain/deleteUrlForward/example.com/42");
    assert_eq!(d.check_path(), "/domain/checkDomain/example.com");
    assert_eq!(d.create_glue_record_path("ns1"), "/domain/createGlue/example.com/ns1");
    assert_eq!(d.update_glue_record_path("ns1"), "/domain/updateGlue/example.com/ns1");
    assert_eq!(d.delete_glue_record_path("ns1"), "/domain/deleteGlue/example.com/ns1");
    assert_eq!(d.get_glue_records_path(), "/domain/getGlue/example.com");
}

#[test]
fn porkbun_request_bodies() {
    let r = list_all_request(1000, true);
    assert_eq!(r.start, Some(1000));
    assert_eq!(r.include_labels.as_deref(), Some("yes"));
    assert_eq!(list_all_request(0, false).include_labels, None);
    let mut rule = UrlForwardRecord {
        id: String::new(),
        subdomain: String::new(),
        location: "https://google.com".to_string(),
        forward_type: "temporary".to_string(),
        include_path: "no".to_string(),
        wildcard: "yes".to_string(),
    };
    assert_eq!(url_forward_request(&rule).subdomain, None);
    rule.subdomain = "blog".to_string();
    let req = url_forward_request(&rule);
    assert_eq!(req.subdomain, Some("blog"));
    assert_eq!(req.location, "https://google.com");
    assert_eq!(req.forward_type, "temporary");
}

#[test]
fn read_by_id_answers_first_listed_record() {
    assert!(first_record(vec![]).is_none());
    let r = first_record(vec![record("1"), record("2")]).unwrap();
    assert_eq!(r.id, "1");
}

#[test]
fn porkbun_auth_is_kept() {
    let c = Porkbun::new("pk".to_string(), "sk".to_string());
    assert_eq!(c.auth().apikey, "pk");
    assert_eq!(c.auth().secretapikey, "sk");
}

#[test]
fn embedded_credentials_escape_controls_and_keep_other_characters() {
    let body = embed_credentials("\u{1}\u{1f}x", "a\tb\nc\rd\u{8}e\u{c}f", "{}").unwrap();
    assert_eq!(
        body,
        r#"{"secretapikey":"a\tb\nc\rd\be\ff","apikey":"\u0001\u001fx"}"#
    );
    let body = embed_credentials("clé/ü", " ", "{}").unwrap();
    assert_eq!(body, r#"{"secretapikey":" ","apikey":"clé/ü"}"#);
}

#[test]
fn blank_object_payload_adds_no_members() {
    assert_eq!(embed_credentials("k", "s", "{ }").unwrap(), r#"{"secretapikey":"s","apikey":"k"}"#);
    assert_eq!(embed_credentials("k", "s", "{\n\t\r }").unwrap(), r#"{"secretapikey":"s","apikey":"k"}"#);
    assert_eq!(
        embed_credentials("k", "s", r#"{ "a":1}"#).unwrap(),
        r#"{"secretapikey":"s","apikey":"k", "a":1}"#
    );
}

#[test]
fn blank_reads_json_whitespace_only() {
    assert!(registrar::transport::blank(""));
    assert!(registrar::transport::blank(" \t\r\n"));
    assert!(!registrar::transport::blank(" x "));
    assert!(!registrar::transport::blank("\u{a0}"));
}
