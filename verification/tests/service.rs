use demo_service::body::{extract_name, health_body, name_body};
use demo_service::route::{handle_request, name_param};
use demo_service::text::str_eq;

#[test]
fn health_body_exact() {
    assert_eq!(health_body(), "{\"status\": \"OK\"}");
}

#[test]
fn name_body_exact() {
    assert_eq!(name_body("alice"), "{\"name\": \"alice\"}");
}

#[test]
fn get_health_ok() {
    let r = handle_request("GET", "/health");
    assert_eq!(r.status, 200);
    assert_eq!(r.content_type.as_deref(), Some("application/json"));
    assert_eq!(r.body, "{\"status\": \"OK\"}");
}

#[test]
fn get_name_alice() {
    let r = handle_request("GET", "/name/alice");
    assert_eq!(r.status, 200);
    assert_eq!(r.content_type.as_deref(), Some("application/json"));
    assert_eq!(r.body, "{\"name\": \"alice\"}");
}

#[test]
fn get_name_empty_segment_not_found() {
    let r = handle_request("GET", "/name/");
    assert_eq!(r.status, 404);
    assert_eq!(r.content_type, None);
    assert_eq!(r.body, "");
}

#[test]
fn get_name_two_segments_not_found() {
    let r = handle_request("GET", "/name/a/b");
    assert_eq!(r.status, 404);
}

#[test]
fn unknown_paths_not_found() {
    assert_eq!(handle_request("GET", "/unknown").status, 404);
    assert_eq!(handle_request("GET", "/").status, 404);
    assert_eq!(handle_request("GET", "").status, 404);
    assert_eq!(handle_request("GET", "/name").status, 404);
    assert_eq!(handle_request("GET", "/names/x").status, 404);
    assert_eq!(handle_request("GET", "/health/").status, 404);
    assert_eq!(handle_request("POST", "/unknown").status, 404);
}

#[test]
fn wrong_method_not_allowed() {
    let r = handle_request("POST", "/health");
    assert_eq!(r.status, 405);
    assert_eq!(r.content_type, None);
    assert_eq!(r.body, "");
    assert_eq!(handle_request("PUT", "/health").status, 405);
    assert_eq!(handle_request("DELETE", "/name/alice").status, 405);
    assert_eq!(handle_request("get", "/health").status, 405);
}

#[test]
fn name_round_trip_identity() {
    let body = name_body("alice");
    assert_eq!(extract_name(&body), Some("alice"));
    let r = handle_request("GET", "/name/bob");
    assert_eq!(extract_name(&r.body), Some("bob"));
}

#[test]
fn name_round_trip_unicode() {
    let r = handle_request("GET", "/name/h\u{e9}llo");
    assert_eq!(r.status, 200);
    assert_eq!(r.body, "{\"name\": \"h\u{e9}llo\"}");
    assert_eq!(extract_name(&r.body), Some("h\u{e9}llo"));
}

#[test]
fn name_with_quote_embedded_raw() {
    let r = handle_request("GET", "/name/a\"b");
    assert_eq!(r.status, 200);
    assert_eq!(r.body, "{\"name\": \"a\"b\"}");
    assert_eq!(extract_name(&r.body), None);
}

#[test]
fn name_with_backslash_embedded_raw() {
    let r = handle_request("GET", "/name/a\\b");
    assert_eq!(r.status, 200);
    assert_eq!(r.body, "{\"name\": \"a\\b\"}");
    assert_eq!(extract_name(&r.body), None);
}

#[test]
fn extract_name_rejects_other_shapes() {
    assert_eq!(extract_name(""), None);
    assert_eq!(extract_name("{\"name\": \""), None);
    assert_eq!(extract_name("{\"status\": \"OK\"}"), None);
    assert_eq!(extract_name("[\"name\": \"x\"}"), None);
    assert_eq!(extract_name("{\"name\": \"x\"]"), None);
    assert_eq!(extract_name("{\"name\": \"\"}"), Some(""));
}

#[test]
fn name_param_extracts_segment() {
    assert_eq!(name_param("/name/alice"), Some("alice"));
    assert_eq!(name_param("/name/a"), Some("a"));
    assert_eq!(name_param("/name/"), None);
    assert_eq!(name_param("/name"), None);
    assert_eq!(name_param("/names/x"), None);
    assert_eq!(name_param("/name/a/b"), None);
    assert_eq!(name_param("/health"), None);
}

#[test]
fn str_eq_compares_characters() {
    assert!(str_eq("", ""));
    assert!(str_eq("abc", "abc"));
    assert!(!str_eq("abc", "abd"));
    assert!(!str_eq("abc", "ab"));
    assert!(str_eq("h\u{e9}llo", "h\u{e9}llo"));
    assert!(!str_eq("h\u{e9}llo", "hello"));
}
