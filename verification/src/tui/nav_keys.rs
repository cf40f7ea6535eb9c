//! Keys while no input has the keyboard: the request and response panels,
//! the drawers, and the shortcuts that work everywhere.
use vstd::prelude::*;
use crate::app::App;
use crate::models::auth::{Auth, AuthView};
use crate::models::request::RequestView;
use crate::models::response::{json_pretty, json_pretty_of};
use crate::text::char_len;
use crate::tui::edit_keys::{adjusted, idle, removed};
use crate::tui::keys::{dec, no_effects, AppEvent, Effects, Key};
use crate::tui::state::{
    cursors_in_text, keeps_cursors,
    next_request_tab_of, next_response_tab_of, prev_request_tab_of, prev_response_tab_of, with_headers_scroll,
    with_request_tab, with_response_scroll, with_response_tab, RequestTab, ResponseTab, TuiState,
};

verus! {

broadcast use vstd::string::group_string_axioms;

// ── Header tab ────────────────────────────────────────────────────────

/// `t1` is `t0` with header `i` selected.
#[verifier::opaque]
pub open spec fn header_selected(t0: TuiState, t1: TuiState, i: usize) -> bool {
    t1 == (TuiState { header_index: i, ..t0 })
}

/// `t1` is `t0` with the header editor open on header `i`, holding name `k`
/// and value `v` with the cursors at their ends, the name being edited.
#[verifier::opaque]
pub open spec fn header_opened(t0: TuiState, t1: TuiState, i: usize, k: Seq<char>, v: Seq<char>) -> bool {
    &&& t1 == (TuiState {
        header_index: i,
        header_key_input: t1.header_key_input,
        header_value_input: t1.header_value_input,
        header_key_cursor: k.len() as usize,
        header_value_cursor: v.len() as usize,
        editing_header_key: true,
        editing_header: true,
        ..t0
    })
    &&& t1.header_key_input@ == k
    &&& t1.header_value_input@ == v
}

/// The header tab: Up and Down move the selection within the headers;
/// Enter opens the editor on the selected header, after adding an empty one
/// when there is none; `a` adds an empty header and opens the editor on it;
/// `d` removes the selected header, stepping the selection back when it
/// falls off the end.
#[verifier::opaque]
pub open spec fn headers_keys_post(a0: App, t0: TuiState, a1: App, t1: TuiState, key: Key) -> bool {
    let ps = a0.current_request@.headers;
    let i = t0.header_index;
    let blank = (Seq::<char>::empty(), Seq::<char>::empty());
    match key {
        Key::Up => a1 == a0 && header_selected(t0, t1, dec(i)),
        Key::Down => a1 == a0 && if ps.len() > 0 && i < ps.len() - 1 {
            header_selected(t0, t1, (i + 1) as usize)
        } else {
            t1 == t0
        },
        Key::Enter => if ps.len() == 0 {
            &&& a1.same_but_request(&a0)
            &&& a1.current_request@ == (RequestView { headers: seq![blank], ..a0.current_request@ })
            &&& header_opened(t0, t1, 0, blank.0, blank.1)
        } else {
            a1 == a0 && header_opened(t0, t1, i, ps[i as int].0, ps[i as int].1)
        },
        Key::Char('a') => {
            &&& a1.same_but_request(&a0)
            &&& a1.current_request@ == (RequestView { headers: ps.push(blank), ..a0.current_request@ })
            &&& header_opened(t0, t1, ps.len() as usize, blank.0, blank.1)
        },
        Key::Char('d') => if ps.len() > 0 {
            &&& a1.same_but_request(&a0)
            &&& a1.current_request@ == (RequestView { headers: removed(ps, i), ..a0.current_request@ })
            &&& header_selected(t0, t1, adjusted(i, removed(ps, i).len()))
        } else {
            a1 == a0 && t1 == t0
        },
        _ => a1 == a0 && t1 == t0,
    }
}

fn select_header(tui: &mut TuiState, i: usize)
    ensures
        keeps_cursors(*old(tui), *final(tui)),
        header_selected(*old(tui), *final(tui), i),
{
    proof {
        reveal(cursors_in_text);
    }
    tui.header_index = i;
    proof {
        reveal(header_selected);
    }
}

fn open_header(tui: &mut TuiState, i: usize, k: String, v: String)
    ensures
        keeps_cursors(*old(tui), *final(tui)),
        header_opened(*old(tui), *final(tui), i, k@, v@),
{
    proof {
        reveal(cursors_in_text);
    }
    let kc = char_len(k.as_str());
    let vc = char_len(v.as_str());
    tui.header_index = i;
    tui.header_key_input = k;
    tui.header_value_input = v;
    tui.header_key_cursor = kc;
    tui.header_value_cursor = vc;
    tui.editing_header_key = true;
    tui.editing_header = true;
    proof {
        reveal(header_opened);
    }
}

pub fn handle_headers_keys(app: &mut App, tui: &mut TuiState, key: Key) -> (r: (AppEvent, Effects))
    requires
        key == Key::Enter && old(app).current_request@.headers.len() > 0 ==> old(tui).header_index
            < old(app).current_request@.headers.len(),
    ensures
        keeps_cursors(*old(tui), *final(tui)),
        r == idle(),
        headers_keys_post(*old(app), *old(tui), *final(app), *final(tui), key),
        final(app).environments == old(app).environments,
{
    proof {
        reveal(headers_keys_post);
    }
    let n = app.current_request.headers.len();
    match key {
        Key::Up => {
            let i = if tui.header_index > 0 {
                tui.header_index - 1
            } else {
                0
            };
            select_header(tui, i);
        },
        Key::Down => {
            if n > 0 && tui.header_index < n - 1 {
                let i = tui.header_index + 1;
                select_header(tui, i);
            }
        },
        Key::Enter => {
            if n == 0 {
                app.add_header(String::new(), String::new());
                assert(app.current_request@.headers =~= seq![(Seq::<char>::empty(), Seq::<char>::empty())]);
                open_header(tui, 0, String::new(), String::new());
            } else {
                let k = app.current_request.headers[tui.header_index].0.clone();
                let v = app.current_request.headers[tui.header_index].1.clone();
                open_header(tui, tui.header_index, k, v);
            }
        },
        Key::Char('a') => {
            app.add_header(String::new(), String::new());
            open_header(tui, n, String::new(), String::new());
        },
        Key::Char('d') => {
            if n > 0 {
                app.remove_header(tui.header_index);
                let m = app.current_request.headers.len();
                let i = tui.header_index;
                let j = if i > 0 && i >= m {
                    i - 1
                } else {
                    i
                };
                select_header(tui, j);
            }
        },
        _ => {},
    }
    (AppEvent::Idle, Effects::none())
}

// ── Parameter tab ────────────────────────────────────────────────────────

/// `t1` is `t0` with parameter `i` selected.
#[verifier::opaque]
pub open spec fn param_selected(t0: TuiState, t1: TuiState, i: usize) -> bool {
    t1 == (TuiState { param_index: i, ..t0 })
}

/// `t1` is `t0` with the parameter editor open on parameter `i`, holding name `k`
/// and value `v` with the cursors at their ends, the name being edited.
#[verifier::opaque]
pub open spec fn param_opened(t0: TuiState, t1: TuiState, i: usize, k: Seq<char>, v: Seq<char>) -> bool {
    &&& t1 == (TuiState {
        param_index: i,
        param_key_input: t1.param_key_input,
        param_value_input: t1.param_value_input,
        param_key_cursor: k.len() as usize,
        param_value_cursor: v.len() as usize,
        editing_param_key: true,
        editing_param: true,
        ..t0
    })
    &&& t1.param_key_input@ == k
    &&& t1.param_value_input@ == v
}

/// The parameter tab: Up and Down move the selection within the parameters;
/// Enter opens the editor on the selected parameter, after adding an empty one
/// when there is none; `a` adds an empty parameter and opens the editor on it;
/// `d` removes the selected parameter, stepping the selection back when it
/// falls off the end.
#[verifier::opaque]
pub open spec fn params_keys_post(a0: App, t0: TuiState, a1: App, t1: TuiState, key: Key) -> bool {
    let ps = a0.current_request@.params;
    let i = t0.param_index;
    let blank = (Seq::<char>::empty(), Seq::<char>::empty());
    match key {
        Key::Up => a1 == a0 && param_selected(t0, t1, dec(i)),
        Key::Down => a1 == a0 && if ps.len() > 0 && i < ps.len() - 1 {
            param_selected(t0, t1, (i + 1) as usize)
        } else {
            t1 == t0
        },
        Key::Enter => if ps.len() == 0 {
            &&& a1.same_but_request(&a0)
            &&& a1.current_request@ == (RequestView { params: seq![blank], ..a0.current_request@ })
            &&& param_opened(t0, t1, 0, blank.0, blank.1)
        } else {
            a1 == a0 && param_opened(t0, t1, i, ps[i as int].0, ps[i as int].1)
        },
        Key::Char('a') => {
            &&& a1.same_but_request(&a0)
            &&& a1.current_request@ == (RequestView { params: ps.push(blank), ..a0.current_request@ })
            &&& param_opened(t0, t1, ps.len() as usize, blank.0, blank.1)
        },
        Key::Char('d') => if ps.len() > 0 {
            &&& a1.same_but_request(&a0)
            &&& a1.current_request@ == (RequestView { params: removed(ps, i), ..a0.current_request@ })
            &&& param_selected(t0, t1, adjusted(i, removed(ps, i).len()))
        } else {
            a1 == a0 && t1 == t0
        },
        _ => a1 == a0 && t1 == t0,
    }
}

fn select_param(tui: &mut TuiState, i: usize)
    ensures
        keeps_cursors(*old(tui), *final(tui)),
        param_selected(*old(tui), *final(tui), i),
{
    proof {
        reveal(cursors_in_text);
    }
    tui.param_index = i;
    proof {
        reveal(param_selected);
    }
}

fn open_param(tui: &mut TuiState, i: usize, k: String, v: String)
    ensures
        keeps_cursors(*old(tui), *final(tui)),
        param_opened(*old(tui), *final(tui), i, k@, v@),
{
    proof {
        reveal(cursors_in_text);
    }
    let kc = char_len(k.as_str());
    let vc = char_len(v.as_str());
    tui.param_index = i;
    tui.param_key_input = k;
    tui.param_value_input = v;
    tui.param_key_cursor = kc;
    tui.param_value_cursor = vc;
    tui.editing_param_key = true;
    tui.editing_param = true;
    proof {
        reveal(param_opened);
    }
}

pub fn handle_params_keys(app: &mut App, tui: &mut TuiState, key: Key) -> (r: (AppEvent, Effects))
    requires
        key == Key::Enter && old(app).current_request@.params.len() > 0 ==> old(tui).param_index
            < old(app).current_request@.params.len(),
    ensures
        keeps_cursors(*old(tui), *final(tui)),
        r == idle(),
        params_keys_post(*old(app), *old(tui), *final(app), *final(tui), key),
        final(app).environments == old(app).environments,
{
    proof {
        reveal(params_keys_post);
    }
    let n = app.current_request.params.len();
    match key {
        Key::Up => {
            let i = if tui.param_index > 0 {
                tui.param_index - 1
            } else {
                0
            };
            select_param(tui, i);
        },
        Key::Down => {
            if n > 0 && tui.param_index < n - 1 {
                let i = tui.param_index + 1;
                select_param(tui, i);
            }
        },
        Key::Enter => {
            if n == 0 {
                app.add_param(String::new(), String::new());
                assert(app.current_request@.params =~= seq![(Seq::<char>::empty(), Seq::<char>::empty())]);
                open_param(tui, 0, String::new(), String::new());
            } else {
                let k = app.current_request.params[tui.param_index].0.clone();
                let v = app.current_request.params[tui.param_index].1.clone();
                open_param(tui, tui.param_index, k, v);
            }
        },
        Key::Char('a') => {
            app.add_param(String::new(), String::new());
            open_param(tui, n, String::new(), String::new());
        },
        Key::Char('d') => {
            if n > 0 {
                app.remove_param(tui.param_index);
                let m = app.current_request.params.len();
                let i = tui.param_index;
                let j = if i > 0 && i >= m {
                    i - 1
                } else {
                    i
                };
                select_param(tui, j);
            }
        },
        _ => {},
    }
    (AppEvent::Idle, Effects::none())
}

// ── Body tab ─────────────────────────────────────────────────────────────

/// The text the body editor opens with: the request body pretty-printed
/// when it is JSON, else as it is; empty when there is no body.
pub open spec fn body_to_edit(body: Option<Seq<char>>) -> Seq<char> {
    let raw = match body {
        Some(b) => b,
        None => Seq::empty(),
    };
    match json_pretty_of(raw) {
        Some(p) => p,
        None => raw,
    }
}

/// `t1` is `t0` with the body editor open on `text`, the cursor at its end.
#[verifier::opaque]
pub open spec fn body_opened(t0: TuiState, t1: TuiState, text: Seq<char>) -> bool {
    &&& t1 == (TuiState {
        body_input: t1.body_input,
        body_cursor: text.len() as usize,
        is_editing_body: true,
        ..t0
    })
    &&& t1.body_input@ == text
}

/// The body tab: Enter opens the body editor; other keys do nothing.
pub open spec fn body_keys_post(a0: App, t0: TuiState, t1: TuiState, key: Key) -> bool {
    if key == Key::Enter {
        body_opened(t0, t1, body_to_edit(a0.current_request@.body))
    } else {
        t1 == t0
    }
}

fn open_body(tui: &mut TuiState, text: String)
    ensures
        keeps_cursors(*old(tui), *final(tui)),
        body_opened(*old(tui), *final(tui), text@),
{
    proof {
        reveal(cursors_in_text);
    }
    let n = char_len(text.as_str());
    tui.body_input = text;
    tui.body_cursor = n;
    tui.is_editing_body = true;
    proof {
        reveal(body_opened);
    }
}

pub fn handle_body_keys(app: &App, tui: &mut TuiState, key: Key) -> (r: (AppEvent, Effects))
    ensures
        keeps_cursors(*old(tui), *final(tui)),
        r == idle(),
        body_keys_post(*app, *old(tui), *final(tui), key),
{
    if key == Key::Enter {
        let raw = match &app.current_request.body {
            Some(b) => b.clone(),
            None => String::new(),
        };
        let text = match json_pretty(raw.as_str()) {
            Some(p) => p,
            None => raw,
        };
        open_body(tui, text);
    }
    (AppEvent::Idle, Effects::none())
}

// ── Authentication tab ───────────────────────────────────────────────────

/// `t1` is `t0` with the authentication editor open on no authentication.
#[verifier::opaque]
pub open spec fn no_auth_opened(t0: TuiState, t1: TuiState) -> bool {
    t1 == (TuiState { auth_type_index: 0, editing_auth: true, ..t0 })
}

/// `t1` is `t0` with the authentication editor open on a bearer token.
#[verifier::opaque]
pub open spec fn token_opened(t0: TuiState, t1: TuiState, token: Seq<char>) -> bool {
    &&& t1 == (TuiState {
        auth_type_index: 1,
        auth_token_input: t1.auth_token_input,
        auth_token_cursor: token.len() as usize,
        editing_auth: true,
        ..t0
    })
    &&& t1.auth_token_input@ == token
}

/// `t1` is `t0` with the authentication editor open on basic
/// authentication, the user name being edited.
#[verifier::opaque]
pub open spec fn basic_opened(t0: TuiState, t1: TuiState, username: Seq<char>, password: Seq<char>) -> bool {
    &&& t1 == (TuiState {
        auth_type_index: 2,
        auth_username_input: t1.auth_username_input,
        auth_password_input: t1.auth_password_input,
        auth_username_cursor: username.len() as usize,
        auth_password_cursor: password.len() as usize,
        auth_editing_username: true,
        editing_auth: true,
        ..t0
    })
    &&& t1.auth_username_input@ == username
    &&& t1.auth_password_input@ == password
}

/// `t1` is `t0` with the authentication editor open on an API key, the
/// header name being edited.
#[verifier::opaque]
pub open spec fn api_key_opened(t0: TuiState, t1: TuiState, header: Seq<char>, value: Seq<char>) -> bool {
    &&& t1 == (TuiState {
        auth_type_index: 3,
        auth_key_name_input: t1.auth_key_name_input,
        auth_key_value_input: t1.auth_key_value_input,
        auth_key_name_cursor: header.len() as usize,
        auth_key_value_cursor: value.len() as usize,
        auth_editing_key_name: true,
        editing_auth: true,
        ..t0
    })
    &&& t1.auth_key_name_input@ == header
    &&& t1.auth_key_value_input@ == value
}

/// The authentication editor opened on `auth`, its fields filled from it.
pub open spec fn auth_opened(t0: TuiState, t1: TuiState, auth: Option<AuthView>) -> bool {
    match auth {
        None => no_auth_opened(t0, t1),
        Some(AuthView::BearerToken { token }) => token_opened(t0, t1, token),
        Some(AuthView::BasicAuth { username, password }) => basic_opened(t0, t1, username, password),
        Some(AuthView::ApiKey { header, value }) => api_key_opened(t0, t1, header, value),
    }
}

/// The authentication tab: Enter opens the editor on the request's
/// authentication; other keys do nothing.
pub open spec fn auth_keys_post(a0: App, t0: TuiState, t1: TuiState, key: Key) -> bool {
    if key == Key::Enter {
        auth_opened(t0, t1, a0.current_request@.auth)
    } else {
        t1 == t0
    }
}

fn open_no_auth(tui: &mut TuiState)
    ensures
        keeps_cursors(*old(tui), *final(tui)),
        no_auth_opened(*old(tui), *final(tui)),
{
    proof {
        reveal(cursors_in_text);
    }
    tui.auth_type_index = 0;
    tui.editing_auth = true;
    proof {
        reveal(no_auth_opened);
    }
}

fn open_token(tui: &mut TuiState, token: String)
    ensures
        keeps_cursors(*old(tui), *final(tui)),
        token_opened(*old(tui), *final(tui), token@),
{
    proof {
        reveal(cursors_in_text);
    }
    let n = char_len(token.as_str());
    tui.auth_type_index = 1;
    tui.auth_token_input = token;
    tui.auth_token_cursor = n;
    tui.editing_auth = true;
    proof {
        reveal(token_opened);
    }
}

fn open_basic(tui: &mut TuiState, username: String, password: String)
    ensures
        keeps_cursors(*old(tui), *final(tui)),
        basic_opened(*old(tui), *final(tui), username@, password@),
{
    proof {
        reveal(cursors_in_text);
    }
    let u = char_len(username.as_str());
    let p = char_len(password.as_str());
    tui.auth_type_index = 2;
    tui.auth_username_input = username;
    tui.auth_password_input = password;
    tui.auth_username_cursor = u;
    tui.auth_password_cursor = p;
    tui.auth_editing_username = true;
    tui.editing_auth = true;
    proof {
        reveal(basic_opened);
    }
}

fn open_api_key(tui: &mut TuiState, header: String, value: String)
    ensures
        keeps_cursors(*old(tui), *final(tui)),
        api_key_opened(*old(tui), *final(tui), header@, value@),
{
    proof {
        reveal(cursors_in_text);
    }
    let h = char_len(header.as_str());
    let v = char_len(value.as_str());
    tui.auth_type_index = 3;
    tui.auth_key_name_input = header;
    tui.auth_key_value_input = value;
    tui.auth_key_name_cursor = h;
    tui.auth_key_value_cursor = v;
    tui.auth_editing_key_name = true;
    tui.editing_auth = true;
    proof {
        reveal(api_key_opened);
    }
}

pub fn handle_auth_keys(app: &App, tui: &mut TuiState, key: Key) -> (r: (AppEvent, Effects))
    ensures
        keeps_cursors(*old(tui), *final(tui)),
        r == idle(),
        auth_keys_post(*app, *old(tui), *final(tui), key),
{
    if key == Key::Enter {
        match &app.current_request.auth {
            None => open_no_auth(tui),
            Some(Auth::BearerToken { token }) => open_token(tui, token.clone()),
            Some(Auth::BasicAuth { username, password }) => open_basic(tui, username.clone(), password.clone()),
            Some(Auth::ApiKey { header, value }) => open_api_key(tui, header.clone(), value.clone()),
        }
    }
    (AppEvent::Idle, Effects::none())
}

// ── Request panel ────────────────────────────────────────────────────────

/// What a key needs of the state in the request panel: on the parameter
/// and header tabs, Enter needs the selection within a non-empty list.
pub open spec fn request_panel_ready(a: App, t: TuiState, key: Key) -> bool {
    let is_tab_key = key == Key::Char('1') || key == Key::Char('2') || key == Key::Char('3')
        || key == Key::Char('4') || key == Key::Char('[') || key == Key::Char(']');
    !is_tab_key ==> match t.request_tab {
        RequestTab::Params => key == Key::Enter && a.current_request@.params.len() > 0 ==> t.param_index
            < a.current_request@.params.len(),
        RequestTab::Headers => key == Key::Enter && a.current_request@.headers.len() > 0 ==> t.header_index
            < a.current_request@.headers.len(),
        _ => true,
    }
}

/// The request panel: `1` to `4` show the parameter, header, body and
/// authentication tabs, `[` and `]` step through them; other keys go to
/// the tab shown.
#[verifier::opaque]
pub open spec fn request_panel_post(a0: App, t0: TuiState, a1: App, t1: TuiState, key: Key) -> bool {
    match key {
        Key::Char('1') => a1 == a0 && with_request_tab(t0, t1, RequestTab::Params),
        Key::Char('2') => a1 == a0 && with_request_tab(t0, t1, RequestTab::Headers),
        Key::Char('3') => a1 == a0 && with_request_tab(t0, t1, RequestTab::Body),
        Key::Char('4') => a1 == a0 && with_request_tab(t0, t1, RequestTab::Auth),
        Key::Char('[') => a1 == a0 && with_request_tab(t0, t1, prev_request_tab_of(t0.request_tab)),
        Key::Char(']') => a1 == a0 && with_request_tab(t0, t1, next_request_tab_of(t0.request_tab)),
        _ => match t0.request_tab {
            RequestTab::Params => params_keys_post(a0, t0, a1, t1, key),
            RequestTab::Headers => headers_keys_post(a0, t0, a1, t1, key),
            RequestTab::Body => a1 == a0 && body_keys_post(a0, t0, t1, key),
            RequestTab::Auth => a1 == a0 && auth_keys_post(a0, t0, t1, key),
        },
    }
}

fn show_request_tab(tui: &mut TuiState, tab: RequestTab)
    ensures
        keeps_cursors(*old(tui), *final(tui)),
        with_request_tab(*old(tui), *final(tui), tab),
{
    proof {
        reveal(cursors_in_text);
    }
    tui.request_tab = tab;
    proof {
        reveal(with_request_tab);
    }
}

pub fn handle_request_panel(app: &mut App, tui: &mut TuiState, key: Key) -> (r: (AppEvent, Effects))
    requires
        request_panel_ready(*old(app), *old(tui), key),
    ensures
        keeps_cursors(*old(tui), *final(tui)),
        r == idle(),
        request_panel_post(*old(app), *old(tui), *final(app), *final(tui), key),
        final(app).environments == old(app).environments,
{
    proof {
        reveal(request_panel_post);
    }
    match key {
        Key::Char('1') => {
            show_request_tab(tui, RequestTab::Params);
            (AppEvent::Idle, Effects::none())
        },
        Key::Char('2') => {
            show_request_tab(tui, RequestTab::Headers);
            (AppEvent::Idle, Effects::none())
        },
        Key::Char('3') => {
            show_request_tab(tui, RequestTab::Body);
            (AppEvent::Idle, Effects::none())
        },
        Key::Char('4') => {
            show_request_tab(tui, RequestTab::Auth);
            (AppEvent::Idle, Effects::none())
        },
        Key::Char('[') => {
            tui.prev_request_tab();
            (AppEvent::Idle, Effects::none())
        },
        Key::Char(']') => {
            tui.next_request_tab();
            (AppEvent::Idle, Effects::none())
        },
        _ => match tui.request_tab {
            RequestTab::Params => handle_params_keys(app, tui, key),
            RequestTab::Headers => handle_headers_keys(app, tui, key),
            RequestTab::Body => handle_body_keys(app, tui, key),
            RequestTab::Auth => handle_auth_keys(app, tui, key),
        },
    }
}

// ── Response panel ───────────────────────────────────────────────────────

/// What a key needs of the state in the response panel: room to scroll
/// down.
pub open spec fn response_panel_ready(t: TuiState, key: Key) -> bool {
    key == Key::Down ==> match t.response_tab {
        ResponseTab::Body => t.response_scroll < usize::MAX,
        ResponseTab::Headers => t.response_headers_scroll < usize::MAX,
        ResponseTab::Cookies => true,
    }
}

/// The response panel: `1` to `3` show the body, header and cookie tabs,
/// `[` and `]` step through them; Up and Down scroll the body or the
/// headers; `y` asks for the body to be copied and `w` for it to be saved.
#[verifier::opaque]
pub open spec fn response_panel_post(t0: TuiState, t1: TuiState, key: Key, r: (AppEvent, Effects)) -> bool {
    match key {
        Key::Char('1') => r == idle() && with_response_tab(t0, t1, ResponseTab::Body),
        Key::Char('2') => r == idle() && with_response_tab(t0, t1, ResponseTab::Headers),
        Key::Char('3') => r == idle() && with_response_tab(t0, t1, ResponseTab::Cookies),
        Key::Char('[') => r == idle() && with_response_tab(t0, t1, prev_response_tab_of(t0.response_tab)),
        Key::Char(']') => r == idle() && with_response_tab(t0, t1, next_response_tab_of(t0.response_tab)),
        Key::Char('y') => r == (AppEvent::Idle, Effects { copy_response: true, ..no_effects() }) && t1 == t0,
        Key::Char('w') => r == (AppEvent::Idle, Effects { save_response: true, ..no_effects() }) && t1 == t0,
        Key::Up => r == idle() && match t0.response_tab {
            ResponseTab::Body => with_response_scroll(t0, t1, dec(t0.response_scroll)),
            ResponseTab::Headers => with_headers_scroll(t0, t1, dec(t0.response_headers_scroll)),
            ResponseTab::Cookies => t1 == t0,
        },
        Key::Down => r == idle() && match t0.response_tab {
            ResponseTab::Body => with_response_scroll(t0, t1, (t0.response_scroll + 1) as usize),
            ResponseTab::Headers => with_headers_scroll(t0, t1, (t0.response_headers_scroll + 1) as usize),
            ResponseTab::Cookies => t1 == t0,
        },
        _ => r == idle() && t1 == t0,
    }
}

fn show_response_tab(tui: &mut TuiState, tab: ResponseTab)
    ensures
        keeps_cursors(*old(tui), *final(tui)),
        with_response_tab(*old(tui), *final(tui), tab),
{
    proof {
        reveal(cursors_in_text);
    }
    tui.response_tab = tab;
    proof {
        reveal(with_response_tab);
    }
}

fn scroll_headers(tui: &mut TuiState, n: usize)
    ensures
        keeps_cursors(*old(tui), *final(tui)),
        with_headers_scroll(*old(tui), *final(tui), n),
{
    proof {
        reveal(cursors_in_text);
    }
    tui.response_headers_scroll = n;
    proof {
        reveal(with_headers_scroll);
    }
}

pub fn handle_response_panel(tui: &mut TuiState, key: Key) -> (r: (AppEvent, Effects))
    requires
        response_panel_ready(*old(tui), key),
    ensures
        keeps_cursors(*old(tui), *final(tui)),
        response_panel_post(*old(tui), *final(tui), key, r),
{
    proof {
        reveal(response_panel_post);
    }
    match key {
        Key::Char('1') => show_response_tab(tui, ResponseTab::Body),
        Key::Char('2') => show_response_tab(tui, ResponseTab::Headers),
        Key::Char('3') => show_response_tab(tui, ResponseTab::Cookies),
        Key::Char('[') => tui.prev_response_tab(),
        Key::Char(']') => tui.next_response_tab(),
        Key::Char('y') => {
            let mut e = Effects::none();
            e.copy_response = true;
            return (AppEvent::Idle, e);
        },
        Key::Char('w') => {
            let mut e = Effects::none();
            e.save_response = true;
            return (AppEvent::Idle, e);
        },
        Key::Up => match tui.response_tab {
            ResponseTab::Body => tui.scroll_response_up(),
            ResponseTab::Headers => {
                let n = if tui.response_headers_scroll > 0 {
                    tui.response_headers_scroll - 1
                } else {
                    0
                };
                scroll_headers(tui, n);
            },
            ResponseTab::Cookies => {},
        },
        Key::Down => match tui.response_tab {
            ResponseTab::Body => tui.scroll_response_down(),
            ResponseTab::Headers => {
                let n = tui.response_headers_scroll + 1;
                scroll_headers(tui, n);
            },
            ResponseTab::Cookies => {},
        },
        _ => {},
    }
    (AppEvent::Idle, Effects::none())
}

} // verus!
