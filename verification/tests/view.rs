use apix::models::request::Method;
use apix::models::response::Response;
use apix::tui::response_view::response_cookies_tab;
use apix::tui::state::{RequestTab, ResponseTab};
use apix::tui::view::{
    colorize_json_line, json_value_text, method_color, request_tab_bar, response_tab_bar, scroll_offset, status_color,
    status_text, truncate, Look, Piece, Tone,
};

fn fg(t: Tone) -> Look {
    Look { fg: t, bg: Tone::Plain, bold: false, underlined: false }
}

fn texts(pieces: &[Piece]) -> Vec<String> {
    pieces.iter().map(|p| p.text.clone()).collect()
}

#[test]
fn status_text_known_and_unknown() {
    assert_eq!(status_text(200), "OK");
    assert_eq!(status_text(404), "Not Found");
    assert_eq!(status_text(503), "Service Unavailable");
    assert_eq!(status_text(418), "");
}

#[test]
fn status_color_by_class() {
    assert_eq!(status_color(204), Tone::Green);
    assert_eq!(status_color(301), Tone::Yellow);
    assert_eq!(status_color(500), Tone::Red);
    assert_eq!(status_color(199), Tone::Red);
}

#[test]
fn method_colors() {
    assert_eq!(method_color(Method::GET), Tone::Green);
    assert_eq!(method_color(Method::POST), Tone::Blue);
    assert_eq!(method_color(Method::PUT), Tone::Yellow);
    assert_eq!(method_color(Method::DELETE), Tone::Red);
    assert_eq!(method_color(Method::PATCH), Tone::Magenta);
}

#[test]
fn scroll_offset_keeps_selection_visible() {
    assert_eq!(scroll_offset(3, 10), 0);
    assert_eq!(scroll_offset(10, 10), 1);
    assert_eq!(scroll_offset(25, 10), 16);
}

#[test]
fn truncate_long_text() {
    assert_eq!(truncate("short", 10), "short");
    assert_eq!(truncate("exactly", 7), "exactly");
    assert_eq!(truncate("abcdefgh", 5), "abcd\u{2026}");
    assert_eq!(truncate("abc", 0), "\u{2026}");
}

#[test]
fn tab_bars_mark_active_tab() {
    let bar = request_tab_bar(RequestTab::Body);
    assert_eq!(texts(&bar), vec![" 1:Params ", " 2:Headers ", " 3:Body ", " 4:Auth "]);
    assert!(bar[2].look.bold);
    assert_eq!(bar[2].look.fg, Tone::Yellow);
    assert_eq!(bar[0].look, fg(Tone::DarkGray));
    let bar = response_tab_bar(ResponseTab::Cookies);
    assert_eq!(texts(&bar), vec![" 1:Body ", " 2:Headers ", " 3:Cookies "]);
    assert_eq!(bar[2].look.fg, Tone::Yellow);
}

#[test]
fn json_value_text_strips_key_and_commas() {
    assert_eq!(json_value_text("  \"name\": \"apix\","), "\"apix\"");
    assert_eq!(json_value_text("    42,"), "42");
    assert_eq!(json_value_text("}"), "}");
}

#[test]
fn colorize_key_value_line() {
    let pieces = colorize_json_line("  \"name\": \"apix\",", false);
    assert_eq!(texts(&pieces), vec!["  ", "\"name\"", ": ", "\"apix\","]);
    assert_eq!(pieces[0].look, fg(Tone::Plain));
    assert_eq!(pieces[1].look, fg(Tone::Cyan));
    assert_eq!(pieces[2].look, fg(Tone::DarkGray));
    assert_eq!(pieces[3].look, fg(Tone::Green));
}

#[test]
fn colorize_value_kinds() {
    assert_eq!(colorize_json_line("  \"ok\": true", false)[3].look, fg(Tone::Magenta));
    assert_eq!(colorize_json_line("  \"none\": null,", false)[3].look, fg(Tone::Red));
    assert_eq!(colorize_json_line("  \"n\": 12.5,", true)[3].look, fg(Tone::Yellow));
    let bracket = colorize_json_line("{", false);
    assert_eq!(texts(&bracket), vec!["", "{"]);
    assert_eq!(bracket[1].look, fg(Tone::DarkGray));
}

#[test]
fn cookies_tab_lists_set_cookie_headers() {
    let response = Response::new(
        200,
        vec![
            ("content-type".to_string(), b"text/html".to_vec()),
            ("set-cookie".to_string(), b"session=abc123; Path=/; HttpOnly".to_vec()),
            ("Set-Cookie".to_string(), b" theme=dark ".to_vec()),
            ("set-cookie".to_string(), b"bad=\xff".to_vec()),
        ],
        "null".to_string(),
    );
    let tab = response_cookies_tab(&response);
    assert_eq!(tab.title, " Cookies [3] ");
    assert_eq!(tab.lines.len(), 3);
    assert_eq!(texts(&tab.lines[0]), vec!["  ", "session", "=", "abc123"]);
    assert_eq!(texts(&tab.lines[1]), vec!["  ", "theme", "=", "dark"]);
    assert_eq!(texts(&tab.lines[2]), vec!["  ", "", "=", ""]);
}

#[test]
fn cookies_tab_without_cookies() {
    let response = Response::new(200, vec![], "null".to_string());
    let tab = response_cookies_tab(&response);
    assert_eq!(tab.title, " Cookies [0] ");
    assert_eq!(texts(&tab.lines[0]), vec!["  No Set-Cookie headers in this response."]);
}

#[test]
fn headers_tab_shows_question_mark_for_binary_values() {
    let response = Response::new(
        200,
        vec![("x-a".to_string(), b"plain\tvalue".to_vec()), ("x-b".to_string(), b"caf\xc3\xa9".to_vec())],
        "null".to_string(),
    );
    let mut tui = apix::tui::state::TuiState::new();
    let tab = apix::tui::response_view::response_headers_tab(&response, &tui);
    assert_eq!(tab.title, " Headers [1/2] ");
    assert_eq!(texts(&tab.lines[0]), vec!["x-a", ": ", "plain\tvalue"]);
    assert_eq!(texts(&tab.lines[1]), vec!["x-b", ": ", "?"]);
    tui.response_headers_scroll = 5;
    let tab = apix::tui::response_view::response_headers_tab(&response, &tui);
    assert_eq!(tab.title, " Headers [2/2] ");
    assert_eq!(tab.lines.len(), 1);
}
