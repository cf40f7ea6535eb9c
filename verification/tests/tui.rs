use apix::app::App;
use apix::config::Settings;
use apix::models::history::HistoryEntry;
use apix::models::request::Method;
use apix::tui::events::{handle_key, key_ready_check};
use apix::tui::keys::{apply_line_key, AppEvent, Effects, Key, KeyPress};
use apix::tui::state::{DrawerPanel, FocusedPanel, RequestTab, ResponseTab, TuiState};

fn setup() -> (App, TuiState) {
    (App::new(Settings::new("/home/tester".to_string()).unwrap()), TuiState::new())
}

fn press(app: &mut App, tui: &mut TuiState, key: Key) -> AppEvent {
    let p = KeyPress { key, ctrl: false };
    assert!(key_ready_check(app, tui, p));
    handle_key(app, tui, p).0
}

#[test]
fn ctrl_c_quits_even_while_editing() {
    let (mut app, mut tui) = setup();
    press(&mut app, &mut tui, Key::Char('u'));
    assert!(tui.editing_url);
    let p = KeyPress { key: Key::Char('c'), ctrl: true };
    assert!(key_ready_check(&app, &tui, p));
    let (event, effects) = handle_key(&mut app, &mut tui, p);
    assert_eq!(event, AppEvent::Quit);
    assert_eq!(effects, Effects::none());
}

#[test]
fn q_quits_while_navigating() {
    let (mut app, mut tui) = setup();
    assert_eq!(press(&mut app, &mut tui, Key::Char('q')), AppEvent::Quit);
}

#[test]
fn editing_url_and_confirming_sets_it() {
    let (mut app, mut tui) = setup();
    assert_eq!(press(&mut app, &mut tui, Key::Char('u')), AppEvent::Idle);
    for c in "http://a.io".chars() {
        press(&mut app, &mut tui, Key::Char(c));
    }
    press(&mut app, &mut tui, Key::Backspace);
    press(&mut app, &mut tui, Key::Char('o'));
    assert_eq!(tui.url_input, "http://a.io");
    assert_eq!(tui.url_cursor, 11);
    press(&mut app, &mut tui, Key::Enter);
    assert!(!tui.editing_url);
    assert_eq!(app.current_request.url, "http://a.io");
}

#[test]
fn escape_cancels_url_editing() {
    let (mut app, mut tui) = setup();
    press(&mut app, &mut tui, Key::Char('u'));
    press(&mut app, &mut tui, Key::Char('x'));
    press(&mut app, &mut tui, Key::Esc);
    assert!(!tui.editing_url);
    assert_eq!(app.current_request.url, "");
}

#[test]
fn m_cycles_the_method() {
    let (mut app, mut tui) = setup();
    press(&mut app, &mut tui, Key::Char('m'));
    assert_eq!(app.current_request.method, Method::POST);
    for _ in 0..4 {
        press(&mut app, &mut tui, Key::Char('m'));
    }
    assert_eq!(app.current_request.method, Method::GET);
}

#[test]
fn tab_toggles_focus() {
    let (mut app, mut tui) = setup();
    assert_eq!(tui.focused_panel, FocusedPanel::Request);
    press(&mut app, &mut tui, Key::Tab);
    assert_eq!(tui.focused_panel, FocusedPanel::Response);
    press(&mut app, &mut tui, Key::BackTab);
    assert_eq!(tui.focused_panel, FocusedPanel::Request);
}

#[test]
fn drawer_toggles_open_and_closed() {
    let (mut app, mut tui) = setup();
    press(&mut app, &mut tui, Key::Char('h'));
    assert_eq!(tui.drawer, Some(DrawerPanel::History));
    press(&mut app, &mut tui, Key::Char('h'));
    assert_eq!(tui.drawer, None);
    press(&mut app, &mut tui, Key::Char('c'));
    assert_eq!(tui.drawer, Some(DrawerPanel::Collections));
    press(&mut app, &mut tui, Key::Esc);
    assert_eq!(tui.drawer, None);
}

#[test]
fn s_sends_unless_loading() {
    let (mut app, mut tui) = setup();
    assert_eq!(press(&mut app, &mut tui, Key::Char('s')), AppEvent::SendRequest);
    app.start_loading();
    assert_ne!(press(&mut app, &mut tui, Key::Char('s')), AppEvent::SendRequest);
}

#[test]
fn tab_methods_cycle() {
    let mut tui = TuiState::new();
    assert_eq!(tui.request_tab, RequestTab::Params);
    tui.next_request_tab();
    assert_eq!(tui.request_tab, RequestTab::Headers);
    tui.prev_request_tab();
    assert_eq!(tui.request_tab, RequestTab::Params);
    tui.prev_request_tab();
    assert_eq!(tui.request_tab, RequestTab::Auth);
    tui.next_response_tab();
    tui.next_response_tab();
    tui.next_response_tab();
    assert_eq!(tui.response_tab, ResponseTab::Body);
    tui.prev_response_tab();
    assert_eq!(tui.response_tab, ResponseTab::Cookies);
}

#[test]
fn response_scroll_stops_at_zero() {
    let mut tui = TuiState::new();
    tui.scroll_response_up();
    assert_eq!(tui.response_scroll, 0);
    tui.scroll_response_down();
    tui.scroll_response_down();
    tui.scroll_response_up();
    assert_eq!(tui.response_scroll, 1);
}

#[test]
fn backspace_undoes_typing() {
    let mut s = "helo".to_string();
    let mut c: usize = 3;
    apply_line_key(&mut s, &mut c, Key::Char('l'));
    assert_eq!(s, "hello");
    assert_eq!(c, 4);
    apply_line_key(&mut s, &mut c, Key::Backspace);
    assert_eq!(s, "helo");
    assert_eq!(c, 3);
}

#[test]
fn right_undoes_left() {
    let mut s = "abc".to_string();
    let mut c: usize = 2;
    apply_line_key(&mut s, &mut c, Key::Left);
    assert_eq!(c, 1);
    apply_line_key(&mut s, &mut c, Key::Right);
    assert_eq!(c, 2);
    assert_eq!(s, "abc");
}

fn entry(method: &str, url: &str) -> HistoryEntry {
    HistoryEntry {
        timestamp: "2025-01-01T00:00:00+00:00".to_string(),
        method: method.to_string(),
        url: url.to_string(),
        request_headers: vec![],
        request_body: None,
        auth: None,
        status: Some(200),
        response_body: None,
    }
}

#[test]
fn empty_search_lists_all_history() {
    let tui = TuiState::new();
    let entries = vec![entry("GET", "https://a.test"), entry("POST", "https://b.test"), entry("GET", "https://c.test")];
    assert_eq!(tui.history_filtered_indices(&entries), vec![0, 1, 2]);
}

#[test]
fn search_filters_history_by_url_or_method() {
    let mut tui = TuiState::new();
    let entries = vec![entry("GET", "https://a.test"), entry("POST", "https://b.test"), entry("GET", "https://c.test")];
    tui.history_search_input = "post".to_string();
    assert_eq!(tui.history_filtered_indices(&entries), vec![1]);
    tui.history_search_input = "C.TEST".to_string();
    assert_eq!(tui.history_filtered_indices(&entries), vec![2]);
}

#[test]
fn method_cycle_returns_after_five() {
    let mut m = Method::DELETE;
    for _ in 0..5 {
        m = m.next();
    }
    assert_eq!(m, Method::DELETE);
    assert_eq!(Method::from_str(&Method::PATCH.to_string()).unwrap(), Method::PATCH);
}

#[test]
fn search_lowercases_unicode() {
    let mut tui = TuiState::new();
    let entries = vec![entry("GET", "https://café.test"), entry("GET", "https://kiwi.test")];
    tui.history_search_input = "CAFÉ".to_string();
    assert_eq!(tui.history_filtered_indices(&entries), vec![0]);
    tui.history_search_input = "\u{212A}IWI".to_string();
    assert_eq!(tui.history_filtered_indices(&entries), vec![1]);
}

#[test]
fn method_parsing_uppercases_unicode() {
    assert_eq!(Method::from_str("po\u{17F}t").unwrap(), Method::POST);
    assert!(Method::from_str("gét").is_err());
}

#[test]
fn longer_search_lists_fewer_entries() {
    let mut tui = TuiState::new();
    let entries = vec![entry("GET", "https://api.test/users"), entry("POST", "https://api.test/items"), entry("GET", "https://other.test")];
    tui.history_search_input = "api".to_string();
    assert_eq!(tui.history_filtered_indices(&entries), vec![0, 1]);
    tui.history_search_input = "api.test/u".to_string();
    assert_eq!(tui.history_filtered_indices(&entries), vec![0]);
}
