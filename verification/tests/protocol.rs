use auth_gateway::chars::chars_to_string;
use auth_gateway::chars::str_to_chars;
use auth_gateway::decode::decode_auth_response;
use auth_gateway::decode::outcome_from_response;
use auth_gateway::decode::provider_of;
use auth_gateway::decode::DecodeError;
use auth_gateway::decode::HttpResponseParts;
use auth_gateway::decode::Provider;
use auth_gateway::auth::AuthOutcome;
use auth_gateway::json::parse_json_str;
use auth_gateway::json::JsonValue;
use auth_gateway::monitoring::status_from_json;
use auth_gateway::radius::radius_from_json;

fn parts(status: u16, header: Option<&str>, body: Option<&str>) -> Option<HttpResponseParts> {
    Some(HttpResponseParts {
        status,
        provider_header: header.map(|h| h.to_string()),
        body: body.map(|b| b.to_string()),
    })
}

#[test]
fn chars_round_trip() {
    let cs = str_to_chars("héllo wörld");
    assert_eq!(cs.len(), 11);
    assert_eq!(chars_to_string(&cs), "héllo wörld");
    assert_eq!(chars_to_string(&vec!['a', 'b', 'c']), "abc");
}

#[test]
fn provider_header_matches_case_insensitively() {
    assert_eq!(provider_of("other"), Provider::Other);
    assert_eq!(provider_of("OTHER"), Provider::Other);
    assert_eq!(provider_of("LdAp"), Provider::Ldap);
    assert_eq!(provider_of("Radius"), Provider::Radius);
    assert_eq!(provider_of("kerberos"), Provider::Unknown);
    assert_eq!(provider_of(""), Provider::Unknown);
    assert_eq!(provider_of("radiusx"), Provider::Unknown);
}

#[test]
fn non_success_status_denies_whatever_the_body() {
    let good_body = "{\"ip\": \"10.0.0.5\", \"netmask\": \"255.255.255.0\"}";
    let r = decode_auth_response(403, Some("radius"), Some(good_body));
    assert_eq!(r.unwrap_err(), DecodeError::NotSuccess);
    let outcome = outcome_from_response(&parts(500, Some("other"), Some("")));
    assert!(matches!(outcome, AuthOutcome::Denied));
}

#[test]
fn transport_failure_denies() {
    let outcome = outcome_from_response(&None);
    assert!(matches!(outcome, AuthOutcome::Denied));
}

#[test]
fn missing_or_unknown_header_denies() {
    assert_eq!(
        decode_auth_response(200, None, Some("{}")).unwrap_err(),
        DecodeError::MissingHeader
    );
    assert_eq!(
        decode_auth_response(200, Some("saml"), Some("{}")).unwrap_err(),
        DecodeError::UnknownProvider
    );
}

#[test]
fn plain_provider_accepts_despite_unparseable_body() {
    let r = decode_auth_response(200, Some("OTHER"), Some("!!not json!!"));
    assert!(matches!(r.unwrap(), AuthOutcome::AcceptedPlain));
    let r = decode_auth_response(200, Some("ldap"), None);
    assert!(matches!(r.unwrap(), AuthOutcome::AcceptedPlain));
}

#[test]
fn radius_with_valid_attributes_accepts_with_attributes() {
    let body = "{\"ip\": \"10.0.0.5\", \"netmask\": \"255.255.255.0\"}";
    let r = decode_auth_response(200, Some("radius"), Some(body)).unwrap();
    match r {
        AuthOutcome::AcceptedWithAttributes(o) => {
            assert_eq!(o.ip.as_deref(), Some("10.0.0.5"));
            assert_eq!(o.netmask.as_deref(), Some("255.255.255.0"));
            assert!(o.dns_servers.is_none());
            assert!(o.routes.is_none());
        }
        _ => panic!("expected attributes"),
    }
}

#[test]
fn radius_with_malformed_body_is_a_distinct_error() {
    let r = decode_auth_response(200, Some("radius"), Some("{\"ip\": 5}"));
    assert_eq!(r.unwrap_err(), DecodeError::MalformedAttributes);
    let r = decode_auth_response(200, Some("radius"), Some("not json"));
    assert_eq!(r.unwrap_err(), DecodeError::MalformedAttributes);
    let r = decode_auth_response(200, Some("radius"), None);
    assert_eq!(r.unwrap_err(), DecodeError::MalformedAttributes);
    assert_ne!(DecodeError::MalformedAttributes, DecodeError::NotSuccess);
    let outcome = outcome_from_response(&parts(200, Some("radius"), Some("{broken")));
    assert!(matches!(outcome, AuthOutcome::Denied));
}

#[test]
fn radius_payload_lists_and_null_fields() {
    let body = "{\"dns_servers\": [\"1.1.1.1\", \"8.8.8.8\"], \"routes\": null, \
                \"ip\": \"10.0.0.9\", \"netmask\": null, \"extra\": {\"x\": [1, 2]}}";
    let v = parse_json_str(body).expect("parses");
    let o = radius_from_json(&v).expect("extracts");
    assert_eq!(
        o.dns_servers,
        Some(vec!["1.1.1.1".to_string(), "8.8.8.8".to_string()])
    );
    assert!(o.routes.is_none());
    assert_eq!(o.ip.as_deref(), Some("10.0.0.9"));
    assert!(o.netmask.is_none());
}

#[test]
fn radius_payload_rejects_bad_shapes() {
    let dup = parse_json_str("{\"ip\": \"a\", \"ip\": \"b\"}").unwrap();
    assert!(radius_from_json(&dup).is_none());
    let wrong = parse_json_str("{\"dns_servers\": [\"a\", 5]}").unwrap();
    assert!(radius_from_json(&wrong).is_none());
    let not_obj = parse_json_str("[1, 2]").unwrap();
    assert!(radius_from_json(&not_obj).is_none());
}

#[test]
fn status_payload_required_and_optional_fields() {
    let v = parse_json_str("{\"status_id\": 3, \"status_text\": \"degraded\", \"msg\": \"m\"}")
        .unwrap();
    let s = status_from_json(&v).unwrap();
    assert_eq!(s.status_id, 3);
    assert_eq!(s.status_text, "degraded");
    assert_eq!(s.msg.as_deref(), Some("m"));

    let v = parse_json_str("{\"status_id\": 0, \"status_text\": \"ok\"}").unwrap();
    let s = status_from_json(&v).unwrap();
    assert_eq!(s.status_id, 0);
    assert!(s.msg.is_none());

    let missing = parse_json_str("{\"status_text\": \"ok\"}").unwrap();
    assert!(status_from_json(&missing).is_none());
    let wrong = parse_json_str("{\"status_id\": \"3\", \"status_text\": \"ok\"}").unwrap();
    assert!(status_from_json(&wrong).is_none());
}

#[test]
fn parser_accepts_scalars() {
    assert!(matches!(parse_json_str("null"), Some(JsonValue::Null)));
    assert!(matches!(parse_json_str("true"), Some(JsonValue::Bool(true))));
    assert!(matches!(parse_json_str("false"), Some(JsonValue::Bool(false))));
    assert!(matches!(parse_json_str("42"), Some(JsonValue::Int(42))));
    assert!(matches!(parse_json_str("-7"), Some(JsonValue::Int(-7))));
    assert!(matches!(parse_json_str("0"), Some(JsonValue::Int(0))));
    assert!(matches!(parse_json_str("  12  "), Some(JsonValue::Int(12))));
}

#[test]
fn parser_rejects_malformed_numbers() {
    assert!(parse_json_str("01").is_none());
    assert!(parse_json_str("-").is_none());
    assert!(parse_json_str("1.5").is_none());
    assert!(parse_json_str("1e3").is_none());
    // Integers beyond eighteen digits are outside the accepted grammar.
    assert!(parse_json_str("1234567890123456789").is_none());
    assert!(matches!(
        parse_json_str("123456789012345678"),
        Some(JsonValue::Int(123456789012345678))
    ));
}

#[test]
fn parser_handles_strings_and_escapes() {
    let v = parse_json_str("\"a\\\"b\\\\c\\n\\t\\/\"").unwrap();
    match v {
        JsonValue::Str(cs) => {
            let s: String = cs.into_iter().collect();
            assert_eq!(s, "a\"b\\c\n\t/");
        }
        _ => panic!("expected string"),
    }
    assert!(parse_json_str("\"unterminated").is_none());
    assert!(parse_json_str("\"bad\\q\"").is_none());
    // Code-point escapes are not part of the accepted grammar.
    assert!(parse_json_str("\"\\u0041\"").is_none());
    // Raw control characters must be escaped.
    assert!(parse_json_str("\"a\nb\"").is_none());
}

#[test]
fn parser_handles_nesting_and_whitespace() {
    let v = parse_json_str(" { \"a\" : [ 1 , {\"b\": []} , \"x\" ] } ").unwrap();
    match v {
        JsonValue::Obj(fields) => assert_eq!(fields.len(), 1),
        _ => panic!("expected object"),
    }
    assert!(parse_json_str("{}").is_some());
    assert!(parse_json_str("[]").is_some());
    assert!(parse_json_str("").is_none());
    assert!(parse_json_str("   ").is_none());
    assert!(parse_json_str("{\"a\": 1,}").is_none());
    assert!(parse_json_str("[1 2]").is_none());
    assert!(parse_json_str("{\"a\" 1}").is_none());
    assert!(parse_json_str("{} {}").is_none());
    assert!(parse_json_str("{\"a\": 1} trailing").is_none());
}
