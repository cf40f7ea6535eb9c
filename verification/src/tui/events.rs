//! What a key press does: Ctrl+C quits; while an input has the keyboard the
//! key goes to it; otherwise the shortcuts that work everywhere come first,
//! then the open drawer or the focused panel.
use vstd::prelude::*;
use crate::app::App;
use crate::models::request::{next_method, RequestView};
use crate::text::char_len;
use crate::tui::drawer_keys::{
    collections_drawer_post, drawer_closed, environments_drawer_post, environments_drawer_ready,
    handle_drawer_collections, handle_drawer_environments, handle_drawer_history, history_drawer_post,
    variables_shown, collection_requests_shown,
};
use crate::tui::edit_keys::{auth_input, body_key_needs_cursor, editing_post, editing_ready, handle_editing, idle};
use crate::tui::inputs::{input_cursor, input_of, input_text, LineInput};
use crate::tui::keys::{edits_at_cursor, no_effects, AppEvent, Effects, Key, KeyPress};
use crate::tui::nav_keys::{
    handle_request_panel, handle_response_panel, request_panel_post, request_panel_ready, response_panel_post,
    response_panel_ready,
};
use crate::tui::state::{cursors_in_text, keeps_cursors, DrawerPanel, FocusedPanel, RequestTab, ResponseTab, TuiState};

verus! {

broadcast use vstd::string::group_string_axioms;

// ── Drawers ──────────────────────────────────────────────────────────────

/// What a key needs of the state in drawer `panel`.
pub open spec fn drawer_ready(a: App, t: TuiState, panel: DrawerPanel, key: Key) -> bool {
    match panel {
        DrawerPanel::History => true,
        DrawerPanel::Collections => t.editing_collection_name ==> (edits_at_cursor(key)
            ==> t.collection_name_cursor <= t.collection_name_input@.len()),
        DrawerPanel::Environments => environments_drawer_ready(a, t, key),
    }
}

/// A key in drawer `panel` goes to that drawer.
pub open spec fn drawer_post(
    a0: App,
    t0: TuiState,
    a1: App,
    t1: TuiState,
    panel: DrawerPanel,
    key: Key,
    r: (AppEvent, Effects),
) -> bool {
    match panel {
        DrawerPanel::History => history_drawer_post(a0, t0, a1, t1, key, r),
        DrawerPanel::Collections => collections_drawer_post(a0, t0, a1, t1, key, r),
        DrawerPanel::Environments => environments_drawer_post(a0, t0, a1, t1, key, r),
    }
}

pub fn handle_drawer(app: &mut App, tui: &mut TuiState, panel: DrawerPanel, key: Key) -> (r: (AppEvent, Effects))
    requires
        drawer_ready(*old(app), *old(tui), panel, key),
    ensures
        keeps_cursors(*old(tui), *final(tui)),
        drawer_post(*old(app), *old(tui), *final(app), *final(tui), panel, key, r),
        old(app).environments.all_wf() ==> final(app).environments.all_wf(),
{
    match panel {
        DrawerPanel::History => handle_drawer_history(app, tui, key),
        DrawerPanel::Collections => handle_drawer_collections(app, tui, key),
        DrawerPanel::Environments => handle_drawer_environments(app, tui, key),
    }
}

// ── Navigation ───────────────────────────────────────────────────────────

/// `t1` is `t0` with the history drawer open and its search closed.
#[verifier::opaque]
pub open spec fn history_drawer_opened(t0: TuiState, t1: TuiState) -> bool {
    t1 == (TuiState { history_search_active: false, drawer: Some(DrawerPanel::History), ..t0 })
}

/// `t1` is `t0` with drawer `p` open.
#[verifier::opaque]
pub open spec fn drawer_opened(t0: TuiState, t1: TuiState, p: DrawerPanel) -> bool {
    t1 == (TuiState { drawer: Some(p), ..t0 })
}

/// The other panel.
pub open spec fn other_panel(p: FocusedPanel) -> FocusedPanel {
    match p {
        FocusedPanel::Request => FocusedPanel::Response,
        FocusedPanel::Response => FocusedPanel::Request,
    }
}

/// `t1` is `t0` with the focus on the other panel.
#[verifier::opaque]
pub open spec fn focus_switched(t0: TuiState, t1: TuiState) -> bool {
    t1 == (TuiState { focused_panel: other_panel(t0.focused_panel), ..t0 })
}

/// `t1` is `t0` with the URL bar open on the request's URL, the cursor at
/// its end.
#[verifier::opaque]
pub open spec fn url_opened(a0: App, t0: TuiState, t1: TuiState) -> bool {
    &&& t1 == (TuiState {
        editing_url: true,
        url_input: t1.url_input,
        url_cursor: a0.current_request@.url.len() as usize,
        ..t0
    })
    &&& t1.url_input@ == a0.current_request@.url
}

/// `t1` is `t0` with drawer `p` toggled: closed when it is open, else open.
pub open spec fn drawer_toggled(t0: TuiState, t1: TuiState, p: DrawerPanel) -> bool {
    if t0.drawer == Some(p) {
        drawer_closed(t0, t1)
    } else if p == DrawerPanel::History {
        history_drawer_opened(t0, t1)
    } else {
        drawer_opened(t0, t1, p)
    }
}

/// Esc in a drawer goes up a level: from a collection's requests or an
/// environment's variables back to the list, or else closes the drawer.
pub open spec fn drawer_backed(t0: TuiState, t1: TuiState) -> bool {
    if t0.in_collection_requests {
        collection_requests_shown(t0, t1, false)
    } else if t0.in_environment_vars {
        variables_shown(t0, t1, false)
    } else {
        drawer_closed(t0, t1)
    }
}

/// Whether a key passes the shortcuts that work everywhere on to the open
/// drawer or the focused panel.
pub open spec fn falls_through(a: App, t: TuiState, key: Key) -> bool {
    match key {
        Key::Char('q') | Key::Char('h') | Key::Char('c') => false,
        Key::Char('s') => a.is_loading,
        Key::Char('e') => !(t.drawer is None || t.drawer == Some(DrawerPanel::Environments)),
        Key::Esc => t.drawer is None,
        Key::Tab | Key::BackTab | Key::Char('u') | Key::Char('m') => t.drawer is Some,
        _ => true,
    }
}

/// What a key needs of the state in the open drawer or the focused panel.
pub open spec fn routed_ready(a: App, t: TuiState, key: Key) -> bool {
    match t.drawer {
        Some(p) => drawer_ready(a, t, p, key),
        None => match t.focused_panel {
            FocusedPanel::Request => request_panel_ready(a, t, key),
            FocusedPanel::Response => response_panel_ready(t, key),
        },
    }
}

/// A key that the shortcuts pass on goes to the open drawer, or else to
/// the focused panel.
pub open spec fn routed_post(a0: App, t0: TuiState, a1: App, t1: TuiState, key: Key, r: (AppEvent, Effects)) -> bool {
    match t0.drawer {
        Some(p) => drawer_post(a0, t0, a1, t1, p, key, r),
        None => match t0.focused_panel {
            FocusedPanel::Request => r == idle() && request_panel_post(a0, t0, a1, t1, key),
            FocusedPanel::Response => a1 == a0 && response_panel_post(t0, t1, key, r),
        },
    }
}

/// Keys while no input has the keyboard. `q` quits; `s` sends the request
/// unless one is on its way; `h` and `c` toggle the history and
/// collections drawers; `e` toggles the environments drawer when no other
/// drawer is open; Esc goes up a level in an open drawer; with no drawer
/// open, Tab and Shift+Tab switch the focused panel, `u` opens the URL bar
/// and `m` cycles the request method. Other keys go to the open drawer or
/// the focused panel.
#[verifier::opaque]
pub open spec fn navigation_post(a0: App, t0: TuiState, a1: App, t1: TuiState, key: Key, r: (AppEvent, Effects)) -> bool {
    if falls_through(a0, t0, key) {
        routed_post(a0, t0, a1, t1, key, r)
    } else {
        match key {
            Key::Char('q') => r == (AppEvent::Quit, no_effects()) && a1 == a0 && t1 == t0,
            Key::Char('s') => r == (AppEvent::SendRequest, no_effects()) && a1 == a0 && t1 == t0,
            Key::Char('h') => r == idle() && a1 == a0 && drawer_toggled(t0, t1, DrawerPanel::History),
            Key::Char('c') => r == idle() && a1 == a0 && drawer_toggled(t0, t1, DrawerPanel::Collections),
            Key::Char('e') => r == idle() && a1 == a0 && drawer_toggled(t0, t1, DrawerPanel::Environments),
            Key::Esc => r == idle() && a1 == a0 && drawer_backed(t0, t1),
            Key::Char('u') => r == idle() && a1 == a0 && url_opened(a0, t0, t1),
            Key::Char('m') => {
                &&& r == idle()
                &&& t1 == t0
                &&& a1.same_but_request(&a0)
                &&& a1.current_request@ == (RequestView {
                    method: next_method(a0.current_request.method),
                    ..a0.current_request@
                })
            },
            _ => r == idle() && a1 == a0 && focus_switched(t0, t1),
        }
    }
}

fn open_history_drawer(tui: &mut TuiState)
    ensures
        keeps_cursors(*old(tui), *final(tui)),
        history_drawer_opened(*old(tui), *final(tui)),
{
    proof {
        reveal(cursors_in_text);
    }
    tui.history_search_active = false;
    tui.drawer = Some(DrawerPanel::History);
    proof {
        reveal(history_drawer_opened);
    }
}

fn open_drawer(tui: &mut TuiState, p: DrawerPanel)
    ensures
        keeps_cursors(*old(tui), *final(tui)),
        drawer_opened(*old(tui), *final(tui), p),
{
    proof {
        reveal(cursors_in_text);
    }
    tui.drawer = Some(p);
    proof {
        reveal(drawer_opened);
    }
}

fn close_drawer_panel(tui: &mut TuiState)
    ensures
        keeps_cursors(*old(tui), *final(tui)),
        drawer_closed(*old(tui), *final(tui)),
{
    proof {
        reveal(cursors_in_text);
    }
    tui.drawer = None;
    proof {
        reveal(drawer_closed);
    }
}

fn toggle_drawer(tui: &mut TuiState, p: DrawerPanel)
    ensures
        keeps_cursors(*old(tui), *final(tui)),
        drawer_toggled(*old(tui), *final(tui), p),
{
    if tui.drawer == Some(p) {
        close_drawer_panel(tui);
    } else if p == DrawerPanel::History {
        open_history_drawer(tui);
    } else {
        open_drawer(tui, p);
    }
}

fn leave_collection_requests(tui: &mut TuiState)
    ensures
        keeps_cursors(*old(tui), *final(tui)),
        collection_requests_shown(*old(tui), *final(tui), false),
{
    proof {
        reveal(cursors_in_text);
    }
    tui.in_collection_requests = false;
    tui.collection_request_index = 0;
    proof {
        reveal(collection_requests_shown);
    }
}

fn leave_variables(tui: &mut TuiState)
    ensures
        keeps_cursors(*old(tui), *final(tui)),
        variables_shown(*old(tui), *final(tui), false),
{
    proof {
        reveal(cursors_in_text);
    }
    tui.in_environment_vars = false;
    tui.environment_variable_index = 0;
    proof {
        reveal(variables_shown);
    }
}

fn back_in_drawer(tui: &mut TuiState)
    ensures
        keeps_cursors(*old(tui), *final(tui)),
        drawer_backed(*old(tui), *final(tui)),
{
    if tui.in_collection_requests {
        leave_collection_requests(tui);
    } else if tui.in_environment_vars {
        leave_variables(tui);
    } else {
        close_drawer_panel(tui);
    }
}

fn switch_focus(tui: &mut TuiState)
    ensures
        keeps_cursors(*old(tui), *final(tui)),
        focus_switched(*old(tui), *final(tui)),
{
    proof {
        reveal(cursors_in_text);
    }
    let p = match tui.focused_panel {
        FocusedPanel::Request => FocusedPanel::Response,
        FocusedPanel::Response => FocusedPanel::Request,
    };
    tui.focused_panel = p;
    proof {
        reveal(focus_switched);
    }
}

fn open_url(app: &App, tui: &mut TuiState)
    ensures
        keeps_cursors(*old(tui), *final(tui)),
        url_opened(*app, *old(tui), *final(tui)),
{
    proof {
        reveal(cursors_in_text);
    }
    let url = app.current_request.url.clone();
    let n = char_len(url.as_str());
    tui.editing_url = true;
    tui.url_input = url;
    tui.url_cursor = n;
    proof {
        reveal(url_opened);
    }
}

/// The key on to the open drawer or the focused panel.
fn route(app: &mut App, tui: &mut TuiState, key: Key) -> (r: (AppEvent, Effects))
    requires
        routed_ready(*old(app), *old(tui), key),
    ensures
        keeps_cursors(*old(tui), *final(tui)),
        routed_post(*old(app), *old(tui), *final(app), *final(tui), key, r),
        old(app).environments.all_wf() ==> final(app).environments.all_wf(),
{
    match tui.drawer {
        Some(p) => handle_drawer(app, tui, p, key),
        None => match tui.focused_panel {
            FocusedPanel::Request => handle_request_panel(app, tui, key),
            FocusedPanel::Response => handle_response_panel(tui, key),
        },
    }
}

pub fn handle_navigation(app: &mut App, tui: &mut TuiState, key: Key) -> (r: (AppEvent, Effects))
    requires
        falls_through(*old(app), *old(tui), key) ==> routed_ready(*old(app), *old(tui), key),
    ensures
        keeps_cursors(*old(tui), *final(tui)),
        navigation_post(*old(app), *old(tui), *final(app), *final(tui), key, r),
        old(app).environments.all_wf() ==> final(app).environments.all_wf(),
{
    proof {
        reveal(navigation_post);
    }
    let drawer_open = tui.drawer.is_some();
    match key {
        Key::Char('q') => {
            return (AppEvent::Quit, Effects::none());
        },
        Key::Char('s') => {
            if !app.is_loading {
                return (AppEvent::SendRequest, Effects::none());
            }
        },
        Key::Char('h') => {
            toggle_drawer(tui, DrawerPanel::History);
            return (AppEvent::Idle, Effects::none());
        },
        Key::Char('c') => {
            toggle_drawer(tui, DrawerPanel::Collections);
            return (AppEvent::Idle, Effects::none());
        },
        Key::Char('e') => {
            if !drawer_open || tui.drawer == Some(DrawerPanel::Environments) {
                toggle_drawer(tui, DrawerPanel::Environments);
                return (AppEvent::Idle, Effects::none());
            }
        },
        Key::Esc => {
            if drawer_open {
                back_in_drawer(tui);
                return (AppEvent::Idle, Effects::none());
            }
        },
        Key::Tab | Key::BackTab => {
            if !drawer_open {
                switch_focus(tui);
                return (AppEvent::Idle, Effects::none());
            }
        },
        Key::Char('u') => {
            if !drawer_open {
                open_url(app, tui);
                return (AppEvent::Idle, Effects::none());
            }
        },
        Key::Char('m') => {
            if !drawer_open {
                let next = app.current_request.method.next();
                app.set_method(next);
                return (AppEvent::Idle, Effects::none());
            }
        },
        _ => {},
    }
    route(app, tui, key)
}

// ── A key press ──────────────────────────────────────────────────────────

/// Whether the press is Ctrl+C.
pub open spec fn is_interrupt(press: KeyPress) -> bool {
    press.ctrl && press.key == Key::Char('c')
}

/// What a key press needs of the state to be handled without fault.
pub open spec fn key_ready(a: App, t: TuiState, press: KeyPress) -> bool {
    !is_interrupt(press) ==> if t.editing() {
        editing_ready(a, t, press)
    } else {
        falls_through(a, t, press.key) ==> routed_ready(a, t, press.key)
    }
}

/// What a key press does: Ctrl+C quits; while an input has the keyboard
/// the key goes to it; otherwise to the shortcuts, the open drawer or the
/// focused panel.
pub open spec fn key_post(a0: App, t0: TuiState, a1: App, t1: TuiState, press: KeyPress, r: (AppEvent, Effects)) -> bool {
    if is_interrupt(press) {
        r == (AppEvent::Quit, no_effects()) && a1 == a0 && t1 == t0
    } else if t0.editing() {
        editing_post(a0, t0, a1, t1, press, r)
    } else {
        navigation_post(a0, t0, a1, t1, press.key, r)
    }
}

pub fn handle_key(app: &mut App, tui: &mut TuiState, press: KeyPress) -> (r: (AppEvent, Effects))
    requires
        key_ready(*old(app), *old(tui), press),
    ensures
        keeps_cursors(*old(tui), *final(tui)),
        key_post(*old(app), *old(tui), *final(app), *final(tui), press, r),
        old(app).environments.all_wf() ==> final(app).environments.all_wf(),
{
    if press.ctrl && press.key == Key::Char('c') {
        return (AppEvent::Quit, Effects::none());
    }
    if tui.is_editing() {
        handle_editing(app, tui, press)
    } else {
        handle_navigation(app, tui, press.key)
    }
}

// ── Readiness ────────────────────────────────────────────────────────────

fn edits_at_cursor_check(key: Key) -> (b: bool)
    ensures
        b == edits_at_cursor(key),
{
    match key {
        Key::Char(_) | Key::Backspace => true,
        _ => false,
    }
}

fn body_needs_cursor_check(press: KeyPress) -> (b: bool)
    ensures
        b == body_key_needs_cursor(press),
{
    match press.key {
        Key::Char(ch) => !(ch == 'f' && press.ctrl),
        Key::Enter | Key::Tab | Key::Up | Key::Down | Key::Backspace => true,
        _ => false,
    }
}

fn input_fits(tui: &TuiState, w: LineInput) -> (b: bool)
    ensures
        b == (input_cursor(*tui, w) <= input_text(*tui, w).len()),
{
    let (t, c) = input_of(tui, w);
    c <= char_len(t.as_str())
}

fn auth_input_check(tui: &TuiState) -> (r: Option<LineInput>)
    ensures
        r == auth_input(*tui),
{
    if tui.auth_type_index == 1 {
        Some(LineInput::AuthToken)
    } else if tui.auth_type_index == 2 {
        Some(if tui.auth_editing_username { LineInput::AuthUsername } else { LineInput::AuthPassword })
    } else if tui.auth_type_index == 3 {
        Some(if tui.auth_editing_key_name { LineInput::AuthKeyName } else { LineInput::AuthKeyValue })
    } else {
        None
    }
}

fn editing_ready_check(app: &App, tui: &TuiState, press: KeyPress) -> (b: bool)
    ensures
        b == editing_ready(*app, *tui, press),
{
    let key = press.key;
    let edits = edits_at_cursor_check(key);
    if tui.history_search_active {
        true
    } else if tui.editing_url {
        !edits || input_fits(tui, LineInput::Url)
    } else if tui.is_editing_body {
        !body_needs_cursor_check(press) || input_fits(tui, LineInput::Body)
    } else if tui.editing_header {
        let w = if tui.editing_header_key { LineInput::HeaderKey } else { LineInput::HeaderValue };
        !edits || input_fits(tui, w)
    } else if tui.editing_param {
        let w = if tui.editing_param_key { LineInput::ParamKey } else { LineInput::ParamValue };
        !edits || input_fits(tui, w)
    } else if tui.editing_auth {
        let room = key != Key::Right || tui.auth_type_index < usize::MAX;
        let fits = match auth_input_check(tui) {
            Some(w) => input_fits(tui, w),
            None => true,
        };
        room && (!edits || fits)
    } else if tui.editing_variable {
        let w = if tui.editing_variable_key { LineInput::VariableKey } else { LineInput::VariableValue };
        app.environments.check_wf() && (!edits || input_fits(tui, w))
    } else if tui.editing_collection_name {
        !edits || input_fits(tui, LineInput::CollectionName)
    } else if tui.editing_environment_name {
        app.environments.check_wf() && (!edits || input_fits(tui, LineInput::EnvironmentName))
    } else {
        true
    }
}

fn falls_through_check(app: &App, tui: &TuiState, key: Key) -> (b: bool)
    ensures
        b == falls_through(*app, *tui, key),
{
    match key {
        Key::Char('q') | Key::Char('h') | Key::Char('c') => false,
        Key::Char('s') => app.is_loading,
        Key::Char('e') => !(tui.drawer.is_none() || tui.drawer == Some(DrawerPanel::Environments)),
        Key::Esc => tui.drawer.is_none(),
        Key::Tab | Key::BackTab | Key::Char('u') | Key::Char('m') => tui.drawer.is_some(),
        _ => true,
    }
}

fn drawer_ready_check(app: &App, tui: &TuiState, panel: DrawerPanel, key: Key) -> (b: bool)
    ensures
        b == drawer_ready(*app, *tui, panel, key),
{
    match panel {
        DrawerPanel::History => true,
        DrawerPanel::Collections => !tui.editing_collection_name || !edits_at_cursor_check(key) || input_fits(
            tui,
            LineInput::CollectionName,
        ),
        DrawerPanel::Environments => {
            let wf = app.environments.check_wf();
            let rest = if tui.editing_environment_name {
                !edits_at_cursor_check(key) || input_fits(tui, LineInput::EnvironmentName)
            } else if tui.editing_variable {
                let w = if tui.editing_variable_key { LineInput::VariableKey } else { LineInput::VariableValue };
                !edits_at_cursor_check(key) || input_fits(tui, w)
            } else if tui.in_environment_vars {
                let e = tui.environment_index;
                let n = if e < app.environments.items.len() {
                    app.environments.items[e].variables.len()
                } else {
                    0
                };
                !((key == Key::Enter || key == Key::Char('d')) && n > 0) || tui.environment_variable_index < n
            } else {
                true
            };
            wf && rest
        },
    }
}

fn routed_ready_check(app: &App, tui: &TuiState, key: Key) -> (b: bool)
    ensures
        b == routed_ready(*app, *tui, key),
{
    match tui.drawer {
        Some(p) => drawer_ready_check(app, tui, p, key),
        None => match tui.focused_panel {
            FocusedPanel::Request => {
                let tab_key = key == Key::Char('1') || key == Key::Char('2') || key == Key::Char('3')
                    || key == Key::Char('4') || key == Key::Char('[') || key == Key::Char(']');
                if tab_key {
                    true
                } else {
                    match tui.request_tab {
                        RequestTab::Params => {
                            let n = app.current_request.params.len();
                            !(key == Key::Enter && n > 0) || tui.param_index < n
                        },
                        RequestTab::Headers => {
                            let n = app.current_request.headers.len();
                            !(key == Key::Enter && n > 0) || tui.header_index < n
                        },
                        _ => true,
                    }
                }
            },
            FocusedPanel::Response => {
                if key == Key::Down {
                    match tui.response_tab {
                        ResponseTab::Body => tui.response_scroll < usize::MAX,
                        ResponseTab::Headers => tui.response_headers_scroll < usize::MAX,
                        ResponseTab::Cookies => true,
                    }
                } else {
                    true
                }
            },
        },
    }
}

/// Whether a key press can be handled in this state (`key_ready`): the
/// program around the library tests it before `handle_key`.
pub fn key_ready_check(app: &App, tui: &TuiState, press: KeyPress) -> (b: bool)
    ensures
        b == key_ready(*app, *tui, press),
{
    if press.ctrl && press.key == Key::Char('c') {
        true
    } else if tui.is_editing() {
        editing_ready_check(app, tui, press)
    } else {
        !falls_through_check(app, tui, press.key) || routed_ready_check(app, tui, press.key)
    }
}

} // verus!
