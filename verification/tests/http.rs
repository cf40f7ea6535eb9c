use apix::errors::ApixError;
use apix::http::client::{prepare_for_send, validate_url};
use apix::http::request_builder::{build_url, percent_encode, prepare_request};
use apix::http::response::format_response;
use apix::models::auth::Auth;
use apix::models::request::{Method, Request};
use apix::models::response::{body_from_raw, body_from_stored, Response};

fn invalid_url_message(url: &str) -> String {
    match validate_url(url) {
        Err(ApixError::InvalidUrl(m)) => m,
        other => panic!("expected an invalid URL, got {:?}", other),
    }
}

#[test]
fn validate_url_accepts_http_and_https() {
    assert!(validate_url("http://example.com").is_ok());
    assert!(validate_url("https://example.com/api?x=1").is_ok());
}

#[test]
fn validate_url_rejects_empty() {
    assert_eq!(invalid_url_message(""), "URL is empty");
}

#[test]
fn validate_url_rejects_other_schemes() {
    assert_eq!(
        invalid_url_message("ftp://example.com"),
        "'ftp://example.com' \u{2014} URL must start with http:// or https://"
    );
}

#[test]
fn validate_url_rejects_missing_host() {
    assert_eq!(invalid_url_message("https://"), "'https://' \u{2014} missing hostname");
    assert_eq!(invalid_url_message("http:///"), "'http:///' \u{2014} missing hostname");
}

#[test]
fn percent_encode_keeps_unreserved_bytes() {
    assert_eq!(percent_encode("abc-XYZ_0.9~"), "abc-XYZ_0.9~");
}

#[test]
fn percent_encode_escapes_reserved_and_utf8() {
    assert_eq!(percent_encode("a b&c=d"), "a%20b%26c%3Dd");
    assert_eq!(percent_encode("é"), "%C3%A9");
}

#[test]
fn build_url_without_params_is_base() {
    assert_eq!(build_url("https://api.test/items", &[]), "https://api.test/items");
}

#[test]
fn build_url_appends_query() {
    let params = vec![
        ("q".to_string(), "rust lang".to_string()),
        ("page".to_string(), "2".to_string()),
    ];
    assert_eq!(build_url("https://api.test/search", &params), "https://api.test/search?q=rust%20lang&page=2");
}

#[test]
fn build_url_extends_existing_query() {
    let params = vec![("b".to_string(), "2".to_string())];
    assert_eq!(build_url("https://api.test/x?a=1", &params), "https://api.test/x?a=1&b=2");
}

#[test]
fn prepare_request_adds_auth_header_last() {
    let mut request = Request::new(Method::POST, "https://api.test/users".to_string());
    request.headers.push(("Accept".to_string(), "application/json".to_string()));
    request.auth = Some(Auth::BearerToken { token: "abc".to_string() });
    request.params.push(("id".to_string(), "7".to_string()));
    request.body = Some("{}".to_string());
    let prepared = prepare_request(&request);
    assert_eq!(prepared.method, Method::POST);
    assert_eq!(prepared.url, "https://api.test/users?id=7");
    assert_eq!(prepared.headers.len(), 2);
    assert_eq!(prepared.headers[0], ("Accept".to_string(), "application/json".to_string()));
    assert_eq!(prepared.headers[1], ("Authorization".to_string(), "Bearer abc".to_string()));
    assert_eq!(prepared.body, Some("{}".to_string()));
}

#[test]
fn prepare_for_send_refuses_bad_url() {
    let request = Request::new(Method::GET, "example.com".to_string());
    match prepare_for_send(&request) {
        Err(ApixError::InvalidUrl(m)) => {
            assert_eq!(m, "'example.com' \u{2014} URL must start with http:// or https://")
        },
        _ => panic!("expected an invalid URL"),
    }
}

#[test]
fn prepare_for_send_accepts_good_url() {
    let request = Request::new(Method::GET, "https://example.com".to_string());
    let prepared = prepare_for_send(&request).unwrap();
    assert_eq!(prepared.url, "https://example.com");
    assert!(prepared.headers.is_empty());
}

#[test]
fn body_from_raw_compacts_json() {
    assert_eq!(body_from_raw("{ \"a\" : 1 }"), "{\"a\":1}");
}

#[test]
fn body_from_raw_quotes_plain_text() {
    assert_eq!(body_from_raw("hello"), "\"hello\"");
}

#[test]
fn body_from_stored_missing_or_invalid_is_null() {
    assert_eq!(body_from_stored(&None), "null");
    assert_eq!(body_from_stored(&Some("not json".to_string())), "null");
    assert_eq!(body_from_stored(&Some("[1, 2]".to_string())), "[1,2]");
}

#[test]
fn format_response_lists_status_headers_body() {
    let response = Response::new(
        404,
        vec![("content-type".to_string(), b"text/plain".to_vec())],
        "\"gone\"".to_string(),
    );
    let text = format_response(&response);
    assert_eq!(text, "status: 404\nheaders: {\"content-type\": \"text/plain\"}\nbody: String(\"gone\")");
    assert_eq!(response.format(), text);
}

#[test]
fn get_report_puts_space_before_body() {
    let response = Response::new(200, vec![("a".to_string(), b"b\"c".to_vec())], "[1]".to_string());
    assert_eq!(response.get_report(), "status: 200\nheaders: {\"a\": \"b\\\"c\"}\n body: Array [\n    Number(1),\n]");
}

#[test]
fn header_values_are_written_as_http_does() {
    let response = Response::new(
        200,
        vec![("x-raw".to_string(), b"a\\b\tc\"d\x01\xe9".to_vec())],
        "null".to_string(),
    );
    assert_eq!(response.format(), "status: 200\nheaders: {\"x-raw\": \"a\\b\tc\\\"d\\x1\\xe9\"}\nbody: Null");
}

#[test]
fn response_new() {
    let response = Response::new(200, vec![], body_from_raw("{\"key\": \"value\"}"));
    assert_eq!(response.status, 200);
    let body: serde_json::Value = serde_json::from_str(&response.body).unwrap();
    assert_eq!(body["key"], "value");
}

#[test]
fn response_format_contains_status() {
    let response = Response::new(404, vec![], body_from_raw("null"));
    let formatted = response.format();
    assert!(formatted.contains("404"));
}

#[test]
fn response_format_contains_body() {
    let response = Response::new(200, vec![], body_from_raw("{\"msg\": \"hello\"}"));
    let formatted = response.format();
    assert!(formatted.contains("hello"));
}
