use lrzcc::common::{
    create_item, display_option, error_from_detail, request_unsent, Method, error_from_response, status_accepted, status_display,
    status_to_string, url_with_params, url_with_query, ApiError,
};
use lrzcc::text::{parse_u32, prefix_before_last, text_eq, trim_str, u32_to_string};

fn pairs(ps: &[(&str, &str)]) -> Vec<(String, String)> {
    ps.iter().map(|(k, v)| (k.to_string(), v.to_string())).collect()
}

#[test]
fn decimal_rendering() {
    assert_eq!(u32_to_string(0), "0");
    assert_eq!(u32_to_string(7), "7");
    assert_eq!(u32_to_string(1234), "1234");
    assert_eq!(u32_to_string(u32::MAX), "4294967295");
}

#[test]
fn decimal_parsing() {
    assert_eq!(parse_u32("42"), Some(42));
    assert_eq!(parse_u32("+42"), Some(42));
    assert_eq!(parse_u32("007"), Some(7));
    assert_eq!(parse_u32("4294967295"), Some(u32::MAX));
    assert_eq!(parse_u32("4294967296"), None);
    assert_eq!(parse_u32(""), None);
    assert_eq!(parse_u32("+"), None);
    assert_eq!(parse_u32("-1"), None);
    assert_eq!(parse_u32("12a"), None);
    assert_eq!(parse_u32(" 1"), None);
}

#[test]
fn parsing_agrees_with_std() {
    for s in ["0", "+0", "99999999999", "123456", "+", "++1", "1+", "٣", ""] {
        assert_eq!(parse_u32(s), s.parse::<u32>().ok(), "{s}");
    }
}

#[test]
fn rendered_ids_parse_back() {
    for n in [0u32, 1, 9, 10, 99, 100, 65535, 4000000000, u32::MAX] {
        assert_eq!(parse_u32(u32_to_string(n).as_str()), Some(n));
    }
}

#[test]
fn trimming() {
    assert_eq!(trim_str("  abc \n"), "abc");
    assert_eq!(trim_str("\u{3000}x y\u{a0}"), "x y");
    assert_eq!(trim_str("   "), "");
    let once = trim_str(" \t token \r\n");
    assert_eq!(trim_str(once.as_str()), once);
    assert_eq!(trim_str(" a\u{2009}"), " a\u{2009}".trim());
}

#[test]
fn text_equality() {
    assert!(text_eq("json", "json"));
    assert!(!text_eq("json", "jsoN"));
    assert!(!text_eq("json", "json "));
    assert!(text_eq("", ""));
}

#[test]
fn prefix_before_last_slash() {
    assert_eq!(prefix_before_last("http://h/api/user/users", '/'), Some("http://h/api/user".to_string()));
    assert_eq!(prefix_before_last("nourl", '/'), None);
    assert_eq!(prefix_before_last("/x", '/'), Some(String::new()));
}

#[test]
fn query_strings() {
    assert_eq!(url_with_query("http://h/x", &pairs(&[])), "http://h/x");
    assert_eq!(url_with_query("http://h/x", &pairs(&[("all", "true")])), "http://h/x?all=true");
    assert_eq!(
        url_with_query("http://h/x", &pairs(&[("server", "a b&c"), ("user", "ü")])),
        "http://h/x?server=a+b%26c&user=%C3%BC"
    );
}

#[test]
fn parsed_query_strings() {
    assert_eq!(
        url_with_params("http://h/x/", &pairs(&[("all", "1")])).unwrap(),
        "http://h/x/?all=1"
    );
    assert_eq!(url_with_params("HTTP://H/x", &pairs(&[("a", "b c")])).unwrap(), "http://h/x?a=b+c");
    assert_eq!(
        url_with_params("http://h/x?a=1#frag", &pairs(&[("b", "2"), ("c", "3")])).unwrap(),
        "http://h/x?a=1&b=2&c=3#frag"
    );
    assert_eq!(url_with_params("http://h/x?#f", &pairs(&[("b", "2")])).unwrap(), "http://h/x?b=2#f");
    assert_eq!(url_with_params("http://h/x?a=1", &pairs(&[])).unwrap(), "http://h/x?a=1");
    assert_eq!(url_with_params("http://h/x#f", &pairs(&[])).unwrap(), "http://h/x?#f");
    match url_with_params("not a url", &pairs(&[("a", "b")])) {
        Err(ApiError::UnexpectedError(m)) => assert_eq!(m, "Could not parse URL GET parameters."),
        other => panic!("unexpected {other:?}"),
    }
}

#[test]
fn status_texts() {
    assert_eq!(status_to_string(404), "404 Not Found");
    assert_eq!(status_to_string(200), "200 OK");
    assert_eq!(status_to_string(599), "599 <unknown status code>");
    assert_eq!(status_to_string(42), "42 <unknown status code>");
    assert_eq!(status_display(418, Some("I'm a teapot")), "418 I'm a teapot");
    assert_eq!(status_display(600, None), "600 <unknown status code>");
}

#[test]
fn accepted_statuses() {
    assert!(status_accepted(200, 200));
    assert!(!status_accepted(201, 200));
    assert!(!status_accepted(204, 200));
}

#[test]
fn errors_from_responses() {
    match error_from_response(403, "{\"detail\": \"Forbidden for you\"}") {
        ApiError::ResponseError(d) => assert_eq!(d, "Forbidden for you"),
        other => panic!("unexpected {other:?}"),
    }
    match error_from_response(500, "oops") {
        ApiError::UnexpectedError(m) => {
            assert_eq!(m, "Unexpected status code 500 Internal Server Error without error message.")
        }
        other => panic!("unexpected {other:?}"),
    }
    match error_from_detail("500 Internal Server Error", None) {
        ApiError::UnexpectedError(m) => {
            assert_eq!(m, "Unexpected status code 500 Internal Server Error without error message.")
        }
        other => panic!("unexpected {other:?}"),
    }
    match error_from_detail("400 Bad Request", Some("bad".to_string())) {
        ApiError::ResponseError(d) => assert_eq!(d, "bad"),
        other => panic!("unexpected {other:?}"),
    }
}

#[test]
fn error_messages() {
    assert_eq!(ApiError::ResponseError("d".to_string()).message(), "d");
    assert_eq!(ApiError::UnexpectedError("m".to_string()).message(), "m");
}

#[test]
fn unsent_requests_and_creations() {
    assert_eq!(
        request_unsent("connection refused"),
        ApiError::ResponseError("Could not complete request: connection refused".to_string())
    );
    let r = create_item("http://h/x", 5u32);
    assert_eq!((r.method, r.url.as_str(), r.data, r.expected_status), (Method::Post, "http://h/x/", Some(5), 201));
}

#[test]
fn optional_cells() {
    assert_eq!(display_option(&Some("x".to_string())), "x");
    assert_eq!(display_option(&None), "");
}
