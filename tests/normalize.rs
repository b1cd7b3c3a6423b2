use registrar::json::JsonMember;
use registrar::json::JsonMember::{Null, Other, Text};
use registrar::normalize::{
    build_api_error, check_envelope, decide_envelope, envelope_from_members, error_message_of, handle_empty_response,
    handle_response_with_body, Policy,
};
use registrar::Error;

fn api_message(r: registrar::Result<String>) -> String {
    match r {
        Err(Error::Api(m)) => m,
        other => panic!("expected an API error, got {:?}", other),
    }
}

#[test]
fn status_200_hands_body_on_unchanged() {
    let body = r#"{"id":7,"domainName":"example.org","fqdn":"www.example.org.","type":"A","answer":"1.2.3.4","ttl":300}"#;
    let r = handle_response_with_body(200, body.to_string());
    assert_eq!(r.unwrap(), body);
}

#[test]
fn status_201_hands_body_on_unchanged() {
    let body = r#"{"hostname":"ns1.example.org","ips":["1.2.3.4"]}"#;
    assert_eq!(handle_response_with_body(201, body.to_string()).unwrap(), body);
}

#[test]
fn error_body_message_is_taken_exactly() {
    let body = r#"{"message":"Permission Denied","details":"Authentication Error"}"#;
    assert_eq!(api_message(handle_response_with_body(403, body.to_string())), "Permission Denied");
}

#[test]
fn error_body_without_details_still_gives_message() {
    let body = r#"{"message":"Not Found"}"#;
    assert_eq!(api_message(handle_response_with_body(404, body.to_string())), "Not Found");
}

#[test]
fn unparseable_error_body_is_taken_verbatim() {
    let body = "<html>502 Bad Gateway</html>";
    assert_eq!(api_message(handle_response_with_body(502, body.to_string())), body);
}

#[test]
fn error_body_with_non_string_message_is_taken_verbatim() {
    let body = r#"{"message":42}"#;
    assert_eq!(api_message(handle_response_with_body(400, body.to_string())), body);
}

#[test]
fn error_body_with_non_string_details_is_taken_verbatim() {
    let body = r#"{"message":"x","details":null}"#;
    assert_eq!(api_message(handle_response_with_body(400, body.to_string())), body);
}

#[test]
fn status_204_is_not_success_for_a_value() {
    assert_eq!(api_message(handle_response_with_body(204, String::new())), "");
}

#[test]
fn empty_response_succeeds_on_204_only() {
    assert!(handle_empty_response(204, String::new()).is_ok());
    match handle_empty_response(200, r#"{"message":"Unexpected"}"#.to_string()) {
        Err(Error::Api(m)) => assert_eq!(m, "Unexpected"),
        other => panic!("expected an API error, got {:?}", other),
    }
}

#[test]
fn build_api_error_reads_message() {
    match build_api_error(&r#"{"details":"d","message":"m"}"#.to_string()) {
        Error::Api(m) => assert_eq!(m, "m"),
        other => panic!("expected an API error, got {:?}", other),
    }
}

#[test]
fn envelope_error_without_message_has_fixed_message() {
    assert_eq!(api_message(check_envelope(r#"{"status":"ERROR"}"#.to_string())), "Unknown API error");
}

#[test]
fn envelope_error_with_null_message_has_fixed_message() {
    assert_eq!(
        api_message(check_envelope(r#"{"status":"ERROR","message":null}"#.to_string())),
        "Unknown API error"
    );
}

#[test]
fn envelope_error_with_message_carries_it() {
    let body = r#"{"status":"ERROR","message":"Invalid API key. (002)"}"#;
    assert_eq!(api_message(check_envelope(body.to_string())), "Invalid API key. (002)");
}

#[test]
fn envelope_success_hands_whole_body_on() {
    let body = r#"{"status":"SUCCESS","yourIp":"203.0.113.9"}"#;
    assert_eq!(check_envelope(body.to_string()).unwrap(), body);
}

#[test]
fn envelope_other_status_hands_whole_body_on() {
    let body = r#"{"status":"PENDING","records":[]}"#;
    assert_eq!(check_envelope(body.to_string()).unwrap(), body);
}

#[test]
fn envelope_missing_status_is_decode_error() {
    assert!(matches!(check_envelope(r#"{"message":"x"}"#.to_string()), Err(Error::Json(_))));
}

#[test]
fn envelope_non_string_status_is_decode_error() {
    assert!(matches!(check_envelope(r#"{"status":1}"#.to_string()), Err(Error::Json(_))));
}

#[test]
fn envelope_non_string_message_is_decode_error() {
    assert!(matches!(
        check_envelope(r#"{"status":"ERROR","message":[1]}"#.to_string()),
        Err(Error::Json(_))
    ));
}

#[test]
fn envelope_not_json_is_decode_error() {
    assert!(matches!(check_envelope("not json".to_string()), Err(Error::Json(_))));
    assert!(matches!(check_envelope("[1,2]".to_string()), Err(Error::Json(_))));
}

#[test]
fn envelope_policy_rejects_non_success_status_as_transport_failure() {
    match Policy::EnvelopeDriven.normalize(503, r#"{"status":"SUCCESS"}"#.to_string()) {
        Err(Error::Http(m)) => assert_eq!(m, "HTTP status 503"),
        other => panic!("expected a transport error, got {:?}", other),
    }
}

#[test]
fn policies_agree_with_their_functions() {
    let ok = r#"{"status":"SUCCESS"}"#;
    assert_eq!(Policy::EnvelopeDriven.normalize(200, ok.to_string()).unwrap(), ok);
    assert_eq!(Policy::StatusDriven.normalize(201, ok.to_string()).unwrap(), ok);
    assert_eq!(api_message(Policy::StatusDriven.normalize(500, "oops".to_string())), "oops");
}

fn members(entries: &[(&str, JsonMember)]) -> Vec<(String, JsonMember)> {
    entries.iter().map(|(k, v)| (k.to_string(), v.clone())).collect()
}

#[test]
fn error_message_of_members() {
    assert_eq!(error_message_of(&members(&[("message", Text("m".to_string()))])), Some("m".to_string()));
    assert_eq!(
        error_message_of(&members(&[("details", Text("d".to_string())), ("message", Text("m".to_string()))])),
        Some("m".to_string())
    );
    assert_eq!(error_message_of(&members(&[("message", Text("m".to_string())), ("details", Null)])), None);
    assert_eq!(error_message_of(&members(&[("message", Other)])), None);
    assert_eq!(error_message_of(&members(&[])), None);
}

#[test]
fn envelope_from_members_reads_status_and_message() {
    let (s, m) = envelope_from_members(&members(&[("status", Text("SUCCESS".to_string()))])).unwrap();
    assert_eq!((s.as_str(), m), ("SUCCESS", None));
    let (s, m) = envelope_from_members(&members(&[("message", Null), ("status", Text("ERROR".to_string()))])).unwrap();
    assert_eq!((s.as_str(), m), ("ERROR", None));
    let (_, m) = envelope_from_members(&members(&[("status", Text("ERROR".to_string())), ("message", Text("bad".to_string()))])).unwrap();
    assert_eq!(m.as_deref(), Some("bad"));
    assert!(matches!(envelope_from_members(&members(&[("status", Other)])), Err(Error::Json(_))));
    assert!(matches!(
        envelope_from_members(&members(&[("status", Text("ERROR".to_string())), ("message", Other)])),
        Err(Error::Json(_))
    ));
}

#[test]
fn decide_envelope_by_status() {
    assert_eq!(api_message(decide_envelope(&"ERROR".to_string(), None, "b".to_string())), "Unknown API error");
    assert_eq!(api_message(decide_envelope(&"ERROR".to_string(), Some("why".to_string()), "b".to_string())), "why");
    assert_eq!(decide_envelope(&"SUCCESS".to_string(), Some("note".to_string()), "b".to_string()).unwrap(), "b");
    assert_eq!(decide_envelope(&"error".to_string(), None, "b".to_string()).unwrap(), "b");
}

#[test]
fn envelope_success_with_non_string_message_hands_body_on() {
    for body in [
        r#"{"status":"SUCCESS","message":5}"#,
        r#"{"status":"SUCCESS","message":[1,"a"]}"#,
        r#"{"message":{"k":true},"status":"PENDING"}"#,
    ] {
        assert_eq!(check_envelope(body.to_string()).unwrap(), body);
        assert_eq!(Policy::EnvelopeDriven.normalize(200, body.to_string()).unwrap(), body);
    }
}

#[test]
fn envelope_from_members_leaves_message_unread_unless_error() {
    let (s, m) = envelope_from_members(&members(&[("message", Other), ("status", Text("SUCCESS".to_string()))])).unwrap();
    assert_eq!((s.as_str(), m), ("SUCCESS", None));
    let (s, m) = envelope_from_members(&members(&[("status", Text("SUCCESS".to_string())), ("message", Text("hi".to_string()))])).unwrap();
    assert_eq!((s.as_str(), m), ("SUCCESS", None));
}
