use lrzcc::common::Method;
use lrzcc::datetime::DateTime;
use lrzcc::token::Token;
use std::str::FromStr;

#[test]
fn token_from_text_trims() {
    let t = Token::from_text("  gAAAA-token \n");
    assert_eq!(t.as_ref(), "gAAAA-token");
    assert_eq!(t.auth_url, None);
    let again = Token::from_text(t.as_ref());
    assert_eq!(again.as_ref(), t.as_ref());
    let parsed = Token::from_str(" x ").unwrap();
    assert_eq!(parsed.as_ref(), "x");
}

#[test]
fn given_token_is_not_revoked() {
    assert!(Token::from_text("abc").delete().is_none());
}

#[test]
fn password_authentication_request() {
    let r = Token::auth_request("https://keystone:5000/v3", "alice", "p\"w\\d", "proj", "Default", "default");
    assert_eq!(r.url, "https://keystone:5000/v3/auth/tokens/");
    assert_eq!(r.method, Method::Post);
    assert_eq!(r.headers, vec![("content-type".to_string(), "application/json".to_string())]);
    let expected = [
        "{\"auth\":{\"identity\":{\"methods\":[\"password\"],\"password\":{\"user\":{\"name\":\"alice\",",
        "\"domain\":{\"name\":\"Default\"},\"password\":\"p\\\"w\\\\d\"}}},\"scope\":{\"project\":",
        "{\"name\":\"proj\",\"domain\":{\"id\":\"default\"}}}}}",
    ]
    .concat();
    assert_eq!(r.body, expected);
    let value: serde_json::Value = serde_json::from_str(&r.body).unwrap();
    assert_eq!(value["auth"]["identity"]["password"]["user"]["password"], "p\"w\\d");
}

#[test]
fn control_characters_are_escaped() {
    let r = Token::auth_request("u", "a\nb\u{1}", "p", "q", "d", "i");
    assert!(r.body.contains("\"name\":\"a\\nb\\u0001\""));
}

#[test]
fn authentication_answers() {
    let ok = Token::from_auth_response("https://k/v3/auth/tokens/".to_string(), 201, Some(" tok ")).unwrap();
    assert_eq!(ok.as_ref(), "tok");
    let revoke = ok.delete().unwrap();
    assert_eq!(revoke.method, Method::Delete);
    assert_eq!(revoke.url, "https://k/v3/auth/tokens/");
    assert_eq!(
        revoke.headers,
        vec![
            ("content-type".to_string(), "application/json".to_string()),
            ("X-Auth-Token".to_string(), "tok".to_string()),
            ("X-Subject-Token".to_string(), "tok".to_string()),
        ]
    );
    assert_eq!(
        Token::auth_unsent("connection refused"),
        "Could not complete authentication request: connection refused"
    );
    match Token::from_auth_response("u".to_string(), 401, Some("tok")) {
        Err(m) => assert_eq!(m, "Failed to authenticate, returned code 401"),
        Ok(_) => panic!("accepted a refusal"),
    }
    match Token::from_auth_response("u".to_string(), 200, None) {
        Err(m) => assert_eq!(m, "No token in authentication response header"),
        Ok(_) => panic!("accepted an answer without token"),
    }
}

#[test]
fn instants_render() {
    let t = DateTime::new(0, 0, 0).unwrap();
    assert_eq!(t.to_rfc3339(), "1970-01-01T00:00:00+00:00");
    assert_eq!(t.to_iso8601(), "1970-01-01T00:00:00Z");
    assert_eq!(t.to_display(), "1970-01-01 00:00:00 +00:00");
    let t = DateTime::new(1431648000, 500_000_000, 3600).unwrap();
    assert_eq!(t.to_rfc3339(), "2015-05-15T01:00:00.500+01:00");
    assert_eq!(t.to_iso8601(), "2015-05-15T01:00:00.500+01:00");
    assert_eq!((t.secs(), t.nanos(), t.offset()), (1431648000, 500_000_000, 3600));
}

#[test]
fn instant_limits() {
    assert!(DateTime::new(0, 0, 86_400).is_none());
    assert!(DateTime::new(0, 0, -86_400).is_none());
    assert!(DateTime::new(0, 0, 86_399).is_some());
    assert!(DateTime::new(0, 1_000_000_000, 0).is_none());
    assert!(DateTime::new(59, 1_500_000_000, 0).is_some());
    assert!(DateTime::new(-1, 1_500_000_000, 0).is_some());
    assert!(DateTime::new(-61, 1_000_000_000, 0).is_some());
    assert!(DateTime::new(59, 2_000_000_000, 0).is_none());
    assert!(DateTime::new(8_000_000_000_001, 0, 0).is_some());
    assert!(DateTime::new(8_210_266_876_800, 0, 0).is_none());
    assert!(DateTime::new(-8_334_601_228_801, 0, 0).is_none());
    let last = DateTime::new(8_210_266_876_799, 0, 0).unwrap();
    assert_eq!(last.to_rfc3339(), "+262142-12-31T23:59:59+00:00");
    let first = DateTime::new(-8_334_601_228_800, 0, 0).unwrap();
    assert_eq!(first.to_rfc3339(), "-262143-01-01T00:00:00+00:00");
    assert!(DateTime::new(8_210_266_876_799, 0, 3600).is_none());
    assert!(DateTime::new(-8_334_601_228_800, 0, -1).is_none());
    let west = DateTime::new(8_210_266_876_799, 0, -3600).unwrap();
    assert_eq!(west.to_iso8601(), "+262142-12-31T22:59:59-01:00");
    let far = DateTime::new(-8_000_000_000_000, 0, -86_399).unwrap();
    assert!(!far.to_rfc3339().is_empty());
    assert!(!far.to_display().is_empty());
    let leap = DateTime::new(-1, 1_500_000_000, 0).unwrap();
    assert_eq!(leap.to_rfc3339(), "1969-12-31T23:59:60.500+00:00");
}
