use apix::models::auth::Auth;
use apix::models::collection::{Collection, CollectionEntry, Collections};
use apix::models::environment::{substitute_variables, Environment, Environments};
use apix::models::history::{History, HistoryEntry};
use apix::models::request::{Method, Request};

#[test]
fn bearer_to_header() {
    let auth = Auth::BearerToken { token: "my_token_123".to_string() };
    let (name, value) = auth.to_header();
    assert_eq!(name, "Authorization");
    assert_eq!(value, "Bearer my_token_123");
}

#[test]
fn basic_to_header() {
    let auth = Auth::BasicAuth { username: "admin".to_string(), password: "secret".to_string() };
    let (name, value) = auth.to_header();
    assert_eq!(name, "Authorization");
    assert_eq!(value, "Basic YWRtaW46c2VjcmV0");
}

#[test]
fn apikey_to_header() {
    let auth = Auth::ApiKey { header: "X-API-Key".to_string(), value: "key123".to_string() };
    let (name, value) = auth.to_header();
    assert_eq!(name, "X-API-Key");
    assert_eq!(value, "key123");
}

#[test]
fn substitute_env_bearer() {
    let mut env = Environment::new("Test".to_string());
    env.set_variable("TOKEN".to_string(), "real_token".to_string());
    let auth = Auth::BearerToken { token: "{{TOKEN}}".to_string() };
    let substituted = auth.substitute_env(&env);
    assert_eq!(substituted, Auth::BearerToken { token: "real_token".to_string() });
}

#[test]
fn substitute_env_basic() {
    let mut env = Environment::new("Test".to_string());
    env.set_variable("USER".to_string(), "admin".to_string());
    env.set_variable("PASS".to_string(), "secret".to_string());
    let auth = Auth::BasicAuth { username: "{{USER}}".to_string(), password: "{{PASS}}".to_string() };
    let substituted = auth.substitute_env(&env);
    assert_eq!(
        substituted,
        Auth::BasicAuth { username: "admin".to_string(), password: "secret".to_string() }
    );
}

#[test]
fn display_summary_bearer() {
    let auth = Auth::BearerToken { token: "abcdefghijklm".to_string() };
    assert_eq!(auth.display_summary(), "Bearer: abc...klm");
}

#[test]
fn display_summary_basic() {
    let auth = Auth::BasicAuth { username: "admin".to_string(), password: "secret".to_string() };
    assert_eq!(auth.display_summary(), "Basic: admin:***");
}

#[test]
fn display_summary_apikey() {
    let auth = Auth::ApiKey { header: "X-API-Key".to_string(), value: "secret".to_string() };
    assert_eq!(auth.display_summary(), "API Key: X-API-Key:***");
}

#[test]
fn collections_add_and_remove() {
    let mut cols = Collections::default();
    cols.add_collection("API Users".to_string());
    cols.add_collection("Auth".to_string());
    assert_eq!(cols.items.len(), 2);
    assert_eq!(cols.items[0].name, "API Users");
    cols.remove_collection(0);
    assert_eq!(cols.items.len(), 1);
    assert_eq!(cols.items[0].name, "Auth");
}

#[test]
fn collection_add_and_remove_entry() {
    let mut col = Collection::new("Test".to_string());
    let entry = CollectionEntry {
        name: "Get users".to_string(),
        method: "GET".to_string(),
        url: "https://api.example.com/users".to_string(),
        headers: vec![],
        body: None,
        auth: None,
    };
    col.add_entry(entry);
    assert_eq!(col.entries.len(), 1);
    col.remove_entry(0);
    assert!(col.entries.is_empty());
}

#[test]
fn entry_from_request_and_back() {
    let request = Request::new(Method::POST, "https://api.example.com".to_string());
    let entry = CollectionEntry::from_request("Create user", &request);
    assert_eq!(entry.name, "Create user");
    assert_eq!(entry.method, "POST");
    let restored = entry.to_request().unwrap();
    assert_eq!(restored.method, Method::POST);
    assert_eq!(restored.url, "https://api.example.com");
}

#[test]
fn substitute_replaces_variables() {
    let mut env = Environment::new("Test".to_string());
    env.set_variable("BASE_URL".to_string(), "http://localhost:3000".to_string());
    env.set_variable("TOKEN".to_string(), "abc123".to_string());
    let result = substitute_variables("{{BASE_URL}}/api/users", &env);
    assert_eq!(result, "http://localhost:3000/api/users");
    let result = substitute_variables("Bearer {{TOKEN}}", &env);
    assert_eq!(result, "Bearer abc123");
}

#[test]
fn substitute_keeps_unknown_variables() {
    let env = Environment::new("Empty".to_string());
    let result = substitute_variables("{{UNKNOWN}}/path", &env);
    assert_eq!(result, "{{UNKNOWN}}/path");
}

#[test]
fn substitute_multiple_in_same_string() {
    let mut env = Environment::new("Test".to_string());
    env.set_variable("HOST".to_string(), "example.com".to_string());
    env.set_variable("PORT".to_string(), "8080".to_string());
    let result = substitute_variables("http://{{HOST}}:{{PORT}}/api", &env);
    assert_eq!(result, "http://example.com:8080/api");
}

#[test]
fn environment_set_and_remove_variable() {
    let mut env = Environment::new("Dev".to_string());
    env.set_variable("KEY".to_string(), "val".to_string());
    assert_eq!(env.get_variable("KEY").unwrap(), "val");
    env.remove_variable("KEY");
    assert!(env.get_variable("KEY").is_none());
}

#[test]
fn environments_add_and_remove() {
    let mut envs = Environments::default();
    envs.add_environment("Dev".to_string());
    envs.add_environment("Prod".to_string());
    assert_eq!(envs.items.len(), 2);
    envs.remove_environment(0);
    assert_eq!(envs.items.len(), 1);
    assert_eq!(envs.items[0].name, "Prod");
}

fn sample_entry() -> HistoryEntry {
    HistoryEntry {
        timestamp: "2025-01-01T00:00:00+00:00".to_string(),
        method: "GET".to_string(),
        url: "https://example.com".to_string(),
        request_headers: vec![("Accept".to_string(), "application/json".to_string())],
        request_body: None,
        auth: None,
        status: Some(200),
        response_body: Some(r#"{"ok": true}"#.to_string()),
    }
}

#[test]
fn history_add_prepends() {
    let mut history = History::default();
    let entry1 = sample_entry();
    let mut entry2 = sample_entry();
    entry2.url = "https://other.com".to_string();
    history.add(entry1);
    history.add(entry2);
    assert_eq!(history.entries.len(), 2);
    assert_eq!(history.entries[0].url, "https://other.com");
    assert_eq!(history.entries[1].url, "https://example.com");
}

#[test]
fn history_remove() {
    let mut history = History::default();
    history.add(sample_entry());
    history.add(sample_entry());
    assert_eq!(history.entries.len(), 2);
    history.remove(0);
    assert_eq!(history.entries.len(), 1);
}

#[test]
fn entry_to_request() {
    let entry = sample_entry();
    let request = entry.to_request().unwrap();
    assert_eq!(request.method, Method::GET);
    assert_eq!(request.url, "https://example.com");
    assert_eq!(request.headers.len(), 1);
    assert!(request.body.is_none());
}

#[test]
fn entry_to_response() {
    let entry = sample_entry();
    let response = entry.to_response().unwrap();
    assert_eq!(response.status, 200);
}

#[test]
fn method_from_str_valid() {
    assert_eq!(Method::from_str("GET").unwrap(), Method::GET);
    assert_eq!(Method::from_str("POST").unwrap(), Method::POST);
    assert_eq!(Method::from_str("PUT").unwrap(), Method::PUT);
    assert_eq!(Method::from_str("DELETE").unwrap(), Method::DELETE);
    assert_eq!(Method::from_str("PATCH").unwrap(), Method::PATCH);
}

#[test]
fn method_from_str_case_insensitive() {
    assert_eq!(Method::from_str("get").unwrap(), Method::GET);
    assert_eq!(Method::from_str("Post").unwrap(), Method::POST);
    assert_eq!(Method::from_str("dElEtE").unwrap(), Method::DELETE);
}

#[test]
fn method_from_str_invalid() {
    assert!(Method::from_str("INVALID").is_err());
    assert!(Method::from_str("").is_err());
    assert!(Method::from_str("OPTION").is_err());
}

#[test]
fn method_display() {
    assert_eq!(Method::GET.to_string(), "GET");
    assert_eq!(Method::POST.to_string(), "POST");
    assert_eq!(Method::PUT.to_string(), "PUT");
    assert_eq!(Method::DELETE.to_string(), "DELETE");
    assert_eq!(Method::PATCH.to_string(), "PATCH");
}

#[test]
fn request_new_defaults() {
    let req = Request::new(Method::GET, "https://example.com".to_string());
    assert_eq!(req.method, Method::GET);
    assert_eq!(req.url, "https://example.com");
    assert!(req.headers.is_empty());
    assert!(req.body.is_none());
}

#[test]
fn display_summary_multibyte_token() {
    let auth = Auth::BearerToken { token: "éééééé".to_string() };
    assert_eq!(auth.display_summary(), "Bearer: é...é");
    let short = Auth::BearerToken { token: "éééé".to_string() };
    assert_eq!(short.display_summary(), "Bearer: éééé");
}

#[test]
fn display_summary_cuts_within_three_bytes() {
    let auth = Auth::BearerToken { token: "abcdefgh\u{20ac}".to_string() };
    assert_eq!(auth.display_summary(), "Bearer: abc...\u{20ac}");
    let mixed = Auth::BearerToken { token: "\u{e9}bcdefgh\u{e9}z".to_string() };
    assert_eq!(mixed.display_summary(), "Bearer: \u{e9}b...\u{e9}z");
}
