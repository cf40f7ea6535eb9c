use apix::errors::{friendly_request_error, request_failed, ApixError, RequestErrorInfo};

fn info() -> RequestErrorInfo {
    RequestErrorInfo {
        is_connect: false,
        is_timeout: false,
        is_redirect: false,
        is_decode: false,
        url: None,
        detail: "boom".to_string(),
    }
}

#[test]
fn error_messages() {
    assert_eq!(ApixError::RequestFailed("x".to_string()).message(), "x");
    assert_eq!(ApixError::InvalidMethod("FOO".to_string()).message(), "Invalid HTTP method: FOO");
    assert_eq!(ApixError::InvalidUrl("u".to_string()).message(), "Invalid URL: u");
    assert_eq!(ApixError::MissingArgument("url".to_string()).message(), "Missing required argument: url");
    assert_eq!(ApixError::ConfigError("c".to_string()).message(), "Configuration error: c");
    assert_eq!(ApixError::IoError("disk".to_string()).message(), "IO error: disk");
}

#[test]
fn friendly_connect_error() {
    let mut i = info();
    i.is_connect = true;
    i.is_timeout = true;
    assert_eq!(friendly_request_error(&i), "Connection failed \u{2014} check the URL or your network");
}

#[test]
fn friendly_timeout_error() {
    let mut i = info();
    i.is_timeout = true;
    assert_eq!(friendly_request_error(&i), "Timeout \u{2014} the server did not respond in time");
}

#[test]
fn friendly_redirect_and_decode_errors() {
    let mut i = info();
    i.is_redirect = true;
    assert_eq!(friendly_request_error(&i), "Too many redirects");
    let mut j = info();
    j.is_decode = true;
    assert_eq!(friendly_request_error(&j), "Failed to decode response");
}

#[test]
fn friendly_error_with_url_or_detail() {
    let mut i = info();
    i.url = Some("https://x.test/".to_string());
    assert_eq!(friendly_request_error(&i), "Request failed to https://x.test/");
    assert_eq!(friendly_request_error(&info()), "HTTP error: boom");
}

#[test]
fn request_failed_wraps_message() {
    match request_failed(&info()) {
        ApixError::RequestFailed(m) => assert_eq!(m, "HTTP error: boom"),
        _ => panic!("expected RequestFailed"),
    }
}
