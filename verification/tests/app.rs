use apix::app::App;
use apix::config::Settings;

fn test_app() -> App {
    App::new(Settings::new("/home/tester".to_string()).unwrap())
}

#[test]
fn add_header() {
    let mut app = test_app();
    app.add_header("Accept".into(), "application/json".into());
    assert_eq!(app.current_request.headers.len(), 1);
    assert_eq!(app.current_request.headers[0].0, "Accept");
    assert_eq!(app.current_request.headers[0].1, "application/json");
}

#[test]
fn set_header_updates_existing() {
    let mut app = test_app();
    app.add_header("Accept".into(), "text/html".into());
    app.set_header(0, "Accept".into(), "application/json".into());
    assert_eq!(app.current_request.headers.len(), 1);
    assert_eq!(app.current_request.headers[0].1, "application/json");
}

#[test]
fn set_header_out_of_bounds_does_nothing() {
    let mut app = test_app();
    app.set_header(5, "X-Key".into(), "val".into());
    assert!(app.current_request.headers.is_empty());
}

#[test]
fn remove_header() {
    let mut app = test_app();
    app.add_header("A".into(), "1".into());
    app.add_header("B".into(), "2".into());
    app.remove_header(0);
    assert_eq!(app.current_request.headers.len(), 1);
    assert_eq!(app.current_request.headers[0].0, "B");
}

#[test]
fn remove_header_out_of_bounds_does_nothing() {
    let mut app = test_app();
    app.remove_header(0);
    assert!(app.current_request.headers.is_empty());
}
