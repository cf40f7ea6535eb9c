use apix::app::App;
use apix::config::Settings;
use apix::errors::ApixError;
use apix::models::auth::Auth;
use apix::models::collection::CollectionEntry;
use apix::models::environment::{substitute_variables, Environment};
use apix::models::request::{Method, Request};
use apix::models::response::Response;

#[test]
fn text_without_variables_is_unchanged() {
    let mut env = Environment::new("Dev".to_string());
    env.set_variable("HOST".to_string(), "example.com".to_string());
    assert_eq!(substitute_variables("https://HOST/{{OTHER}}", &env), "https://HOST/{{OTHER}}");
}

#[test]
fn saved_request_loads_back_without_params() {
    let mut request = Request::new(Method::PUT, "https://api.test/items/1".to_string());
    request.headers.push(("X-Trace".to_string(), "1".to_string()));
    request.body = Some("{\"a\":1}".to_string());
    request.auth = Some(Auth::BasicAuth { username: "u".to_string(), password: "p".to_string() });
    request.params.push(("dropped".to_string(), "yes".to_string()));
    let entry = CollectionEntry::from_request("Update", &request);
    let back = entry.to_request().unwrap();
    assert_eq!(back.method, Method::PUT);
    assert_eq!(back.url, request.url);
    assert_eq!(back.headers, request.headers);
    assert_eq!(back.body, request.body);
    assert_eq!(back.auth, request.auth);
    assert!(back.params.is_empty());
}

#[test]
fn finish_loading_records_history() {
    let mut app = App::new(Settings::new("/home/tester".to_string()).unwrap());
    app.set_url("https://api.test".to_string());
    app.start_loading();
    assert!(app.is_loading);
    let changed = app.finish_loading(Ok(Response::new(201, vec![], "{}".to_string())), "t0".to_string());
    assert!(changed);
    assert!(!app.is_loading);
    assert_eq!(app.history.entries.len(), 1);
    assert_eq!(app.history.entries[0].url, "https://api.test");
    assert_eq!(app.history.entries[0].status, Some(201));
    assert_eq!(app.current_response.as_ref().unwrap().status, 201);
}

#[test]
fn finish_loading_error_shows_message() {
    let mut app = App::new(Settings::new("/home/tester".to_string()).unwrap());
    app.start_loading();
    let changed = app.finish_loading(Err(ApixError::InvalidUrl("URL is empty".to_string())), "t0".to_string());
    assert!(!changed);
    assert_eq!(app.error_message, Some("Invalid URL: URL is empty".to_string()));
    assert!(app.history.entries.is_empty());
}

#[test]
fn request_to_send_adds_content_type_for_body() {
    let mut app = App::new(Settings::new("/home/tester".to_string()).unwrap());
    assert!(app.request_to_send().is_none());
    app.set_url("https://api.test".to_string());
    app.set_body(Some("{}".to_string()));
    let r = app.request_to_send().unwrap();
    assert_eq!(r.headers, vec![("Content-Type".to_string(), "application/json".to_string())]);
    app.add_header("content-type".to_string(), "text/plain".to_string());
    let r = app.request_to_send().unwrap();
    assert_eq!(r.headers.len(), 1);
}

#[test]
fn notice_expires_after_three_seconds() {
    let mut app = App::new(Settings::new("/home/tester".to_string()).unwrap());
    app.notice_copy_result(Ok(()), 1_000);
    assert_eq!(app.status_notice_text(3_999), Some("Copied to clipboard!".to_string()));
    assert_eq!(app.status_notice_text(4_000), None);
    app.notice_save_result(Err("denied".to_string()), 0);
    assert_eq!(app.status_notice_text(10), Some("Error: denied".to_string()));
}

#[test]
fn apply_environment_substitutes_active_variables() {
    let mut app = App::new(Settings::new("/home/tester".to_string()).unwrap());
    let mut request = Request::new(Method::GET, "{{base}}/users".to_string());
    request.headers.push(("Authorization".to_string(), "Bearer {{token}}".to_string()));
    request.params.push(("q".to_string(), "{{token}}".to_string()));
    request.body = Some("{\"t\":\"{{token}}\"}".to_string());
    let unchanged = app.apply_environment(&request);
    assert_eq!(unchanged.url, "{{base}}/users");
    app.environments.add_environment("dev".to_string());
    app.environments.items[0].set_variable("base".to_string(), "http://localhost".to_string());
    app.environments.items[0].set_variable("token".to_string(), "t1".to_string());
    app.active_environment = Some(0);
    let applied = app.apply_environment(&request);
    assert_eq!(applied.url, "http://localhost/users");
    assert_eq!(applied.headers[0].1, "Bearer t1");
    assert_eq!(applied.params[0].1, "t1");
    assert_eq!(applied.body, Some("{\"t\":\"t1\"}".to_string()));
    app.active_environment = Some(3);
    assert_eq!(app.apply_environment(&request).url, "{{base}}/users");
}

#[test]
fn response_export_is_pretty_json() {
    let mut app = App::new(Settings::new("/home/tester".to_string()).unwrap());
    assert!(app.response_export_text().is_none());
    app.finish_loading(Ok(Response::new(200, vec![], "{\"a\":[1,2]}".to_string())), "t".to_string());
    assert_eq!(app.response_export_text(), Some("{\n  \"a\": [\n    1,\n    2\n  ]\n}".to_string()));
}
