//! Keys while an input has the keyboard: the URL bar, the body editor, the
//! header, parameter, authentication and variable editors, the name inputs
//! of the drawers and the history search.
use vstd::prelude::*;
use crate::app::App;
use crate::models::auth::{auth_opt_view, Auth, AuthView, AUTH_TYPE_COUNT};
use crate::models::environment::{lookup, Environment};
use crate::models::request::RequestView;
use crate::models::response::{json_pretty, json_pretty_of};
use crate::text::{char_len, pop_char, push_char, trim, trim_seq};
use crate::tui::editing::{cursor_down, cursor_up, insert_str_at, move_down, move_up, newline_at, newline_edit};
use crate::tui::inputs::{input_cursor, input_text, only_input, set_input, type_into, typed, LineInput};
use crate::tui::keys::{dec, edits_at_cursor, line_key, no_effects, AppEvent, Effects, Key, KeyPress};
use crate::tui::state::{cursors_in_text, filtered, keeps_cursors, TuiState};

verus! {

broadcast use vstd::string::group_string_axioms;

/// What a key in an input hands back: nothing for the program to do.
pub open spec fn idle() -> (AppEvent, Effects) {
    (AppEvent::Idle, no_effects())
}

/// `s` without the element at `i`, or `s` when `i` is out of range.
pub open spec fn removed<A>(s: Seq<A>, i: usize) -> Seq<A> {
    if i < s.len() {
        s.remove(i as int)
    } else {
        s
    }
}

/// `s` with the element at `i` replaced, or `s` when `i` is out of range.
pub open spec fn updated<A>(s: Seq<A>, i: usize, x: A) -> Seq<A> {
    if i < s.len() {
        s.update(i as int, x)
    } else {
        s
    }
}

/// A selection index after its list has shrunk to `len` entries: it steps
/// back when it is past the end, unless it is already at the top.
pub open spec fn adjusted(i: usize, len: nat) -> usize {
    if i > 0 && i >= len {
        (i - 1) as usize
    } else {
        i
    }
}

// ── URL bar ──────────────────────────────────────────────────────────────

/// `t1` is `t0` with the URL bar closed.
#[verifier::opaque]
pub open spec fn url_closed(t0: TuiState, t1: TuiState) -> bool {
    t1 == (TuiState { editing_url: false, ..t0 })
}

/// `a1` is `a0` with the typed URL as the request's URL.
pub open spec fn url_committed(a0: App, t0: TuiState, a1: App) -> bool {
    a1.same_but_request(&a0) && a1.current_request@ == (RequestView {
        url: t0.url_input@,
        ..a0.current_request@
    })
}

/// The URL bar: Esc leaves it, Enter also sets the request's URL to the
/// typed text, other keys edit the text.
#[verifier::opaque]
pub open spec fn url_editing_post(a0: App, t0: TuiState, a1: App, t1: TuiState, key: Key) -> bool {
    match key {
        Key::Esc => a1 == a0 && url_closed(t0, t1),
        Key::Enter => url_committed(a0, t0, a1) && url_closed(t0, t1),
        _ => a1 == a0 && typed(t0, t1, LineInput::Url, key),
    }
}

fn close_url(tui: &mut TuiState)
    ensures
        keeps_cursors(*old(tui), *final(tui)),
        url_closed(*old(tui), *final(tui)),
{
    proof {
        reveal(cursors_in_text);
    }
    tui.editing_url = false;
    proof {
        reveal(url_closed);
    }
}

pub fn handle_url_editing(app: &mut App, tui: &mut TuiState, key: Key) -> (r: (AppEvent, Effects))
    requires
        edits_at_cursor(key) ==> old(tui).url_cursor <= old(tui).url_input@.len(),
    ensures
        keeps_cursors(*old(tui), *final(tui)),
        final(app).environments == old(app).environments,
        r == idle(),
        url_editing_post(*old(app), *old(tui), *final(app), *final(tui), key),
{
    proof {
        reveal(url_editing_post);
    }
    match key {
        Key::Esc => close_url(tui),
        Key::Enter => {
            app.set_url(tui.url_input.clone());
            close_url(tui);
        },
        _ => type_into(tui, LineInput::Url, key),
    }
    (AppEvent::Idle, Effects::none())
}

// ── Body editor ──────────────────────────────────────────────────────────

/// The keys of the body editor that work at the cursor, and so need it
/// within the text.
pub open spec fn body_key_needs_cursor(press: KeyPress) -> bool {
    match press.key {
        Key::Char(ch) => !(ch == 'f' && press.ctrl),
        Key::Enter | Key::Tab | Key::Up | Key::Down | Key::Backspace => true,
        _ => false,
    }
}

/// The body text and cursor after a key other than Esc: Enter opens a new
/// line with the current indentation, Tab inserts two spaces, Ctrl+F
/// pretty-prints the text when it is JSON, Up and Down move between lines,
/// other keys edit as in a one-line input.
pub open spec fn body_key_result(s: Seq<char>, c: usize, press: KeyPress) -> (Seq<char>, usize) {
    match press.key {
        Key::Enter => (
            s.take(c as int) + newline_edit(s, c as int).0 + s.skip(c as int),
            newline_edit(s, c as int).1 as usize,
        ),
        Key::Tab => (s.take(c as int) + seq![' ', ' '] + s.skip(c as int), (c + 2) as usize),
        Key::Char(ch) => if ch == 'f' && press.ctrl {
            match json_pretty_of(s) {
                Some(p) => (p, p.len() as usize),
                None => (s, c),
            }
        } else {
            line_key(s, c, press.key)
        },
        Key::Up => (s, cursor_up(s, c as int) as usize),
        Key::Down => (s, cursor_down(s, c as int) as usize),
        _ => line_key(s, c, press.key),
    }
}

/// The body editor: Esc leaves it and stores the text as the request body
/// (no body when the text is empty); other keys edit the text.
#[verifier::opaque]
pub open spec fn body_editing_post(a0: App, t0: TuiState, a1: App, t1: TuiState, press: KeyPress) -> bool {
    let s = t0.body_input@;
    match press.key {
        Key::Esc => a1.same_but_request(&a0) && a1.current_request@ == (RequestView {
            body: if s.len() == 0 { None } else { Some(s) },
            ..a0.current_request@
        }) && t1 == (TuiState { is_editing_body: false, ..t0 }),
        _ => a1 == a0 && only_input(t0, t1, LineInput::Body)
            && (t1.body_input@, t1.body_cursor) == body_key_result(s, t0.body_cursor, press),
    }
}

/// Enter in the body editor: a new line with the current indentation, one
/// level deeper after an opening bracket.
pub fn body_insert_newline(tui: &mut TuiState)
    requires
        old(tui).body_cursor <= old(tui).body_input@.len(),
    ensures
        keeps_cursors(*old(tui), *final(tui)),
        only_input(*old(tui), *final(tui), LineInput::Body),
        (final(tui).body_input@, final(tui).body_cursor) == body_key_result(
            old(tui).body_input@,
            old(tui).body_cursor,
            KeyPress { key: Key::Enter, ctrl: false },
        ),
{
    let (s, c) = newline_at(&tui.body_input, tui.body_cursor);
    set_input(tui, LineInput::Body, s, c);
}

/// Ctrl+F in the body editor: pretty-prints the body when it is JSON.
pub fn body_format_json(tui: &mut TuiState)
    ensures
        keeps_cursors(*old(tui), *final(tui)),
        only_input(*old(tui), *final(tui), LineInput::Body),
        (final(tui).body_input@, final(tui).body_cursor) == body_key_result(
            old(tui).body_input@,
            old(tui).body_cursor,
            KeyPress { key: Key::Char('f'), ctrl: true },
        ),
{
    proof {
        reveal(cursors_in_text);
    }
    let (s, c) = match json_pretty(tui.body_input.as_str()) {
        Some(p) => {
            let n = char_len(p.as_str());
            (p, n)
        },
        None => (tui.body_input.clone(), tui.body_cursor),
    };
    set_input(tui, LineInput::Body, s, c);
}

/// Up in the body editor: the same column on the line above, or the start
/// of the text on the first line.
pub fn body_move_up(tui: &mut TuiState)
    requires
        old(tui).body_cursor <= old(tui).body_input@.len(),
    ensures
        keeps_cursors(*old(tui), *final(tui)),
        only_input(*old(tui), *final(tui), LineInput::Body),
        (final(tui).body_input@, final(tui).body_cursor) == body_key_result(
            old(tui).body_input@,
            old(tui).body_cursor,
            KeyPress { key: Key::Up, ctrl: false },
        ),
{
    let c = move_up(&tui.body_input, tui.body_cursor);
    let s = tui.body_input.clone();
    set_input(tui, LineInput::Body, s, c);
}

/// Down in the body editor: the same column on the line below; nothing on
/// the last line.
pub fn body_move_down(tui: &mut TuiState)
    requires
        old(tui).body_cursor <= old(tui).body_input@.len(),
    ensures
        keeps_cursors(*old(tui), *final(tui)),
        only_input(*old(tui), *final(tui), LineInput::Body),
        (final(tui).body_input@, final(tui).body_cursor) == body_key_result(
            old(tui).body_input@,
            old(tui).body_cursor,
            KeyPress { key: Key::Down, ctrl: false },
        ),
{
    let c = move_down(&tui.body_input, tui.body_cursor);
    let s = tui.body_input.clone();
    set_input(tui, LineInput::Body, s, c);
}

/// Tab in the body editor: two spaces at the cursor.
fn body_insert_indent(tui: &mut TuiState)
    requires
        old(tui).body_cursor <= old(tui).body_input@.len(),
    ensures
        keeps_cursors(*old(tui), *final(tui)),
        only_input(*old(tui), *final(tui), LineInput::Body),
        (final(tui).body_input@, final(tui).body_cursor) == body_key_result(
            old(tui).body_input@,
            old(tui).body_cursor,
            KeyPress { key: Key::Tab, ctrl: false },
        ),
{
    let mut s = tui.body_input.clone();
    insert_str_at(&mut s, tui.body_cursor, "  ");
    proof {
        reveal_strlit("  ");
    }
    let c = tui.body_cursor + 2;
    set_input(tui, LineInput::Body, s, c);
}

pub fn handle_body_editing(app: &mut App, tui: &mut TuiState, press: KeyPress) -> (r: (AppEvent, Effects))
    requires
        body_key_needs_cursor(press) ==> old(tui).body_cursor <= old(tui).body_input@.len(),
    ensures
        keeps_cursors(*old(tui), *final(tui)),
        final(app).environments == old(app).environments,
        r == idle(),
        body_editing_post(*old(app), *old(tui), *final(app), *final(tui), press),
{
    proof {
        reveal(body_editing_post);
    }
    match press.key {
        Key::Esc => {
            let body = if tui.body_input.as_str().is_empty() {
                None
            } else {
                Some(tui.body_input.clone())
            };
            app.set_body(body);
            tui.is_editing_body = false;
            proof {
                reveal(cursors_in_text);
            }
        },
        Key::Enter => body_insert_newline(tui),
        Key::Tab => body_insert_indent(tui),
        Key::Char(ch) => {
            if ch == 'f' && press.ctrl {
                body_format_json(tui);
            } else {
                type_into(tui, LineInput::Body, press.key);
            }
        },
        Key::Up => body_move_up(tui),
        Key::Down => body_move_down(tui),
        _ => type_into(tui, LineInput::Body, press.key),
    }
    (AppEvent::Idle, Effects::none())
}

// ── Header editor ─────────────────────────────────────────────────────

/// The header input a key edits: the name or the value, as Tab last chose.
pub open spec fn header_input(t: TuiState) -> LineInput {
    if t.editing_header_key {
        LineInput::HeaderKey
    } else {
        LineInput::HeaderValue
    }
}

/// `t1` is `t0` with the header editor closed.
#[verifier::opaque]
pub open spec fn header_closed(t0: TuiState, t1: TuiState) -> bool {
    t1 == (TuiState { editing_header: false, ..t0 })
}

/// `t1` is `t0` with Tab's choice between name and value switched.
#[verifier::opaque]
pub open spec fn header_side_switched(t0: TuiState, t1: TuiState) -> bool {
    t1 == (TuiState { editing_header_key: !t0.editing_header_key, ..t0 })
}

/// The header being edited was removed from the request, the selection
/// stepped back if it fell off the end, and the editor closed.
#[verifier::opaque]
pub open spec fn header_dropped(a0: App, t0: TuiState, a1: App, t1: TuiState) -> bool {
    &&& a1.same_but_request(&a0)
    &&& a1.current_request@ == (RequestView {
        headers: removed(a0.current_request@.headers, t0.header_index),
        ..a0.current_request@
    })
    &&& t1 == (TuiState {
        editing_header: false,
        header_index: adjusted(t0.header_index, a1.current_request@.headers.len()),
        ..t0
    })
}

/// The header being edited was replaced by the trimmed name and value, and
/// the editor closed.
#[verifier::opaque]
pub open spec fn header_stored(a0: App, t0: TuiState, a1: App, t1: TuiState) -> bool {
    &&& a1.same_but_request(&a0)
    &&& a1.current_request@ == (RequestView {
        headers: updated(
            a0.current_request@.headers,
            t0.header_index,
            (trim_seq(t0.header_key_input@), trim_seq(t0.header_value_input@)),
        ),
        ..a0.current_request@
    })
    &&& t1 == (TuiState { editing_header: false, ..t0 })
}

/// The header editor. Esc closes it, and removes the header when name and
/// value are blank; Enter stores the trimmed name and value, or removes the
/// header when the name is blank; Tab switches between name and value;
/// characters, Backspace, Left and Right edit the chosen text.
#[verifier::opaque]
pub open spec fn header_editing_post(a0: App, t0: TuiState, a1: App, t1: TuiState, key: Key) -> bool {
    let name = trim_seq(t0.header_key_input@);
    let value = trim_seq(t0.header_value_input@);
    match key {
        Key::Esc => if name.len() == 0 && value.len() == 0 {
            header_dropped(a0, t0, a1, t1)
        } else {
            a1 == a0 && header_closed(t0, t1)
        },
        Key::Enter => if name.len() == 0 {
            header_dropped(a0, t0, a1, t1)
        } else {
            header_stored(a0, t0, a1, t1)
        },
        Key::Tab => a1 == a0 && header_side_switched(t0, t1),
        Key::Char(_) | Key::Backspace | Key::Left | Key::Right => a1 == a0 && typed(t0, t1, header_input(t0), key),
        _ => a1 == a0 && t1 == t0,
    }
}

fn close_header_editor(tui: &mut TuiState)
    ensures
        keeps_cursors(*old(tui), *final(tui)),
        header_closed(*old(tui), *final(tui)),
{
    proof {
        reveal(cursors_in_text);
    }
    tui.editing_header = false;
    proof {
        reveal(header_closed);
    }
}

fn switch_header_side(tui: &mut TuiState)
    ensures
        keeps_cursors(*old(tui), *final(tui)),
        header_side_switched(*old(tui), *final(tui)),
{
    proof {
        reveal(cursors_in_text);
    }
    tui.editing_header_key = !tui.editing_header_key;
    proof {
        reveal(header_side_switched);
    }
}

fn drop_edited_header(app: &mut App, tui: &mut TuiState)
    ensures
        keeps_cursors(*old(tui), *final(tui)),
        header_dropped(*old(app), *old(tui), *final(app), *final(tui)),
        final(app).environments == old(app).environments,
{
    proof {
        reveal(cursors_in_text);
    }
    app.remove_header(tui.header_index);
    let i = tui.header_index;
    let n = app.current_request.headers.len();
    let j = if i > 0 && i >= n {
        i - 1
    } else {
        i
    };
    tui.header_index = j;
    tui.editing_header = false;
    proof {
        reveal(header_dropped);
    }
}

fn store_edited_header(app: &mut App, tui: &mut TuiState, name: String, value: String)
    requires
        name@ == trim_seq(old(tui).header_key_input@),
        value@ == trim_seq(old(tui).header_value_input@),
    ensures
        keeps_cursors(*old(tui), *final(tui)),
        header_stored(*old(app), *old(tui), *final(app), *final(tui)),
        final(app).environments == old(app).environments,
{
    proof {
        reveal(cursors_in_text);
    }
    app.set_header(tui.header_index, name, value);
    tui.editing_header = false;
    proof {
        reveal(header_stored);
    }
}

pub fn handle_header_editing(app: &mut App, tui: &mut TuiState, key: Key) -> (r: (AppEvent, Effects))
    requires
        edits_at_cursor(key) ==> input_cursor(*old(tui), header_input(*old(tui))) <= input_text(
            *old(tui),
            header_input(*old(tui)),
        ).len(),
    ensures
        keeps_cursors(*old(tui), *final(tui)),
        final(app).environments == old(app).environments,
        r == idle(),
        header_editing_post(*old(app), *old(tui), *final(app), *final(tui), key),
{
    proof {
        reveal(header_editing_post);
    }
    match key {
        Key::Esc => {
            let name = trim(tui.header_key_input.as_str());
            let value = trim(tui.header_value_input.as_str());
            if name.as_str().is_empty() && value.as_str().is_empty() {
                drop_edited_header(app, tui);
            } else {
                close_header_editor(tui);
            }
        },
        Key::Enter => {
            let name = trim(tui.header_key_input.as_str());
            let value = trim(tui.header_value_input.as_str());
            if name.as_str().is_empty() {
                drop_edited_header(app, tui);
            } else {
                store_edited_header(app, tui, name, value);
            }
        },
        Key::Tab => switch_header_side(tui),
        Key::Char(_) | Key::Backspace | Key::Left | Key::Right => {
            let w = if tui.editing_header_key {
                LineInput::HeaderKey
            } else {
                LineInput::HeaderValue
            };
            type_into(tui, w, key);
        },
        _ => {},
    }
    (AppEvent::Idle, Effects::none())
}

// ── Parameter editor ─────────────────────────────────────────────────────

/// The parameter input a key edits: the name or the value, as Tab last chose.
pub open spec fn param_input(t: TuiState) -> LineInput {
    if t.editing_param_key {
        LineInput::ParamKey
    } else {
        LineInput::ParamValue
    }
}

/// `t1` is `t0` with the parameter editor closed.
#[verifier::opaque]
pub open spec fn param_closed(t0: TuiState, t1: TuiState) -> bool {
    t1 == (TuiState { editing_param: false, ..t0 })
}

/// `t1` is `t0` with Tab's choice between name and value switched.
#[verifier::opaque]
pub open spec fn param_side_switched(t0: TuiState, t1: TuiState) -> bool {
    t1 == (TuiState { editing_param_key: !t0.editing_param_key, ..t0 })
}

/// The parameter being edited was removed from the request, the selection
/// stepped back if it fell off the end, and the editor closed.
#[verifier::opaque]
pub open spec fn param_dropped(a0: App, t0: TuiState, a1: App, t1: TuiState) -> bool {
    &&& a1.same_but_request(&a0)
    &&& a1.current_request@ == (RequestView {
        params: removed(a0.current_request@.params, t0.param_index),
        ..a0.current_request@
    })
    &&& t1 == (TuiState {
        editing_param: false,
        param_index: adjusted(t0.param_index, a1.current_request@.params.len()),
        ..t0
    })
}

/// The parameter being edited was replaced by the trimmed name and value, and
/// the editor closed.
#[verifier::opaque]
pub open spec fn param_stored(a0: App, t0: TuiState, a1: App, t1: TuiState) -> bool {
    &&& a1.same_but_request(&a0)
    &&& a1.current_request@ == (RequestView {
        params: updated(
            a0.current_request@.params,
            t0.param_index,
            (trim_seq(t0.param_key_input@), trim_seq(t0.param_value_input@)),
        ),
        ..a0.current_request@
    })
    &&& t1 == (TuiState { editing_param: false, ..t0 })
}

/// The parameter editor. Esc closes it, and removes the parameter when name and
/// value are blank; Enter stores the trimmed name and value, or removes the
/// parameter when the name is blank; Tab switches between name and value;
/// characters, Backspace, Left and Right edit the chosen text.
#[verifier::opaque]
pub open spec fn param_editing_post(a0: App, t0: TuiState, a1: App, t1: TuiState, key: Key) -> bool {
    let name = trim_seq(t0.param_key_input@);
    let value = trim_seq(t0.param_value_input@);
    match key {
        Key::Esc => if name.len() == 0 && value.len() == 0 {
            param_dropped(a0, t0, a1, t1)
        } else {
            a1 == a0 && param_closed(t0, t1)
        },
        Key::Enter => if name.len() == 0 {
            param_dropped(a0, t0, a1, t1)
        } else {
            param_stored(a0, t0, a1, t1)
        },
        Key::Tab => a1 == a0 && param_side_switched(t0, t1),
        Key::Char(_) | Key::Backspace | Key::Left | Key::Right => a1 == a0 && typed(t0, t1, param_input(t0), key),
        _ => a1 == a0 && t1 == t0,
    }
}

fn close_param_editor(tui: &mut TuiState)
    ensures
        keeps_cursors(*old(tui), *final(tui)),
        param_closed(*old(tui), *final(tui)),
{
    proof {
        reveal(cursors_in_text);
    }
    tui.editing_param = false;
    proof {
        reveal(param_closed);
    }
}

fn switch_param_side(tui: &mut TuiState)
    ensures
        keeps_cursors(*old(tui), *final(tui)),
        param_side_switched(*old(tui), *final(tui)),
{
    proof {
        reveal(cursors_in_text);
    }
    tui.editing_param_key = !tui.editing_param_key;
    proof {
        reveal(param_side_switched);
    }
}

fn drop_edited_param(app: &mut App, tui: &mut TuiState)
    ensures
        keeps_cursors(*old(tui), *final(tui)),
        param_dropped(*old(app), *old(tui), *final(app), *final(tui)),
        final(app).environments == old(app).environments,
{
    proof {
        reveal(cursors_in_text);
    }
    app.remove_param(tui.param_index);
    let i = tui.param_index;
    let n = app.current_request.params.len();
    let j = if i > 0 && i >= n {
        i - 1
    } else {
        i
    };
    tui.param_index = j;
    tui.editing_param = false;
    proof {
        reveal(param_dropped);
    }
}

fn store_edited_param(app: &mut App, tui: &mut TuiState, name: String, value: String)
    requires
        name@ == trim_seq(old(tui).param_key_input@),
        value@ == trim_seq(old(tui).param_value_input@),
    ensures
        keeps_cursors(*old(tui), *final(tui)),
        param_stored(*old(app), *old(tui), *final(app), *final(tui)),
        final(app).environments == old(app).environments,
{
    proof {
        reveal(cursors_in_text);
    }
    app.set_param(tui.param_index, name, value);
    tui.editing_param = false;
    proof {
        reveal(param_stored);
    }
}

pub fn handle_param_editing(app: &mut App, tui: &mut TuiState, key: Key) -> (r: (AppEvent, Effects))
    requires
        edits_at_cursor(key) ==> input_cursor(*old(tui), param_input(*old(tui))) <= input_text(
            *old(tui),
            param_input(*old(tui)),
        ).len(),
    ensures
        keeps_cursors(*old(tui), *final(tui)),
        final(app).environments == old(app).environments,
        r == idle(),
        param_editing_post(*old(app), *old(tui), *final(app), *final(tui), key),
{
    proof {
        reveal(param_editing_post);
    }
    match key {
        Key::Esc => {
            let name = trim(tui.param_key_input.as_str());
            let value = trim(tui.param_value_input.as_str());
            if name.as_str().is_empty() && value.as_str().is_empty() {
                drop_edited_param(app, tui);
            } else {
                close_param_editor(tui);
            }
        },
        Key::Enter => {
            let name = trim(tui.param_key_input.as_str());
            let value = trim(tui.param_value_input.as_str());
            if name.as_str().is_empty() {
                drop_edited_param(app, tui);
            } else {
                store_edited_param(app, tui, name, value);
            }
        },
        Key::Tab => switch_param_side(tui),
        Key::Char(_) | Key::Backspace | Key::Left | Key::Right => {
            let w = if tui.editing_param_key {
                LineInput::ParamKey
            } else {
                LineInput::ParamValue
            };
            type_into(tui, w, key);
        },
        _ => {},
    }
    (AppEvent::Idle, Effects::none())
}

// ── Authentication editor ───────────────────────────────────────────────

/// What Enter in the authentication editor sets: no authentication, or the
/// chosen scheme with the typed fields.
pub open spec fn auth_choice(t: TuiState) -> Option<AuthView> {
    if t.auth_type_index == 1 {
        Some(AuthView::BearerToken { token: t.auth_token_input@ })
    } else if t.auth_type_index == 2 {
        Some(AuthView::BasicAuth { username: t.auth_username_input@, password: t.auth_password_input@ })
    } else if t.auth_type_index == 3 {
        Some(AuthView::ApiKey { header: t.auth_key_name_input@, value: t.auth_key_value_input@ })
    } else {
        None
    }
}

/// The input that characters go to for the chosen scheme, if it has one:
/// the token; the user name or password; the header name or value.
pub open spec fn auth_input(t: TuiState) -> Option<LineInput> {
    if t.auth_type_index == 1 {
        Some(LineInput::AuthToken)
    } else if t.auth_type_index == 2 {
        Some(if t.auth_editing_username { LineInput::AuthUsername } else { LineInput::AuthPassword })
    } else if t.auth_type_index == 3 {
        Some(if t.auth_editing_key_name { LineInput::AuthKeyName } else { LineInput::AuthKeyValue })
    } else {
        None
    }
}

/// The scheme before `i` in the cycle of schemes.
pub open spec fn prev_auth_type(i: usize) -> usize {
    if i == 0 {
        (AUTH_TYPE_COUNT - 1) as usize
    } else {
        (i - 1) as usize
    }
}

/// The scheme after `i` in the cycle of schemes.
pub open spec fn next_auth_type(i: usize) -> usize {
    ((i + 1) % (AUTH_TYPE_COUNT as int)) as usize
}

/// `t1` is `t0` with the authentication editor closed.
#[verifier::opaque]
pub open spec fn auth_closed(t0: TuiState, t1: TuiState) -> bool {
    t1 == (TuiState { editing_auth: false, ..t0 })
}

/// `t1` is `t0` with scheme `i` chosen.
#[verifier::opaque]
pub open spec fn auth_type_chosen(t0: TuiState, t1: TuiState, i: usize) -> bool {
    t1 == (TuiState { auth_type_index: i, ..t0 })
}

/// `t1` is `t0` with basic authentication's choice between user name and
/// password switched.
#[verifier::opaque]
pub open spec fn username_side_switched(t0: TuiState, t1: TuiState) -> bool {
    t1 == (TuiState { auth_editing_username: !t0.auth_editing_username, ..t0 })
}

/// `t1` is `t0` with an API key's choice between header name and value
/// switched.
#[verifier::opaque]
pub open spec fn key_name_side_switched(t0: TuiState, t1: TuiState) -> bool {
    t1 == (TuiState { auth_editing_key_name: !t0.auth_editing_key_name, ..t0 })
}

/// `t1` is `t0` with Tab's choice of field switched for the chosen scheme:
/// user name and password for basic authentication, header name and value
/// for an API key; nothing for the others.
pub open spec fn auth_side_switched(t0: TuiState, t1: TuiState) -> bool {
    if t0.auth_type_index == 2 {
        username_side_switched(t0, t1)
    } else if t0.auth_type_index == 3 {
        key_name_side_switched(t0, t1)
    } else {
        t1 == t0
    }
}

/// The authentication editor. Esc closes it; Left and Right cycle through
/// the schemes; Enter sets the request's authentication to the chosen
/// scheme and closes it; Tab switches between the scheme's two fields;
/// characters and Backspace edit the chosen field.
#[verifier::opaque]
pub open spec fn auth_editing_post(a0: App, t0: TuiState, a1: App, t1: TuiState, key: Key) -> bool {
    match key {
        Key::Esc => a1 == a0 && auth_closed(t0, t1),
        Key::Left => a1 == a0 && auth_type_chosen(t0, t1, prev_auth_type(t0.auth_type_index)),
        Key::Right => a1 == a0 && auth_type_chosen(t0, t1, next_auth_type(t0.auth_type_index)),
        Key::Enter => a1.same_but_request(&a0) && a1.current_request@ == (RequestView {
            auth: auth_choice(t0),
            ..a0.current_request@
        }) && auth_closed(t0, t1),
        Key::Tab => a1 == a0 && auth_side_switched(t0, t1),
        Key::Char(_) | Key::Backspace => a1 == a0 && match auth_input(t0) {
            Some(w) => typed(t0, t1, w, key),
            None => t1 == t0,
        },
        _ => a1 == a0 && t1 == t0,
    }
}

fn close_auth_editor(tui: &mut TuiState)
    ensures
        keeps_cursors(*old(tui), *final(tui)),
        auth_closed(*old(tui), *final(tui)),
{
    proof {
        reveal(cursors_in_text);
    }
    tui.editing_auth = false;
    proof {
        reveal(auth_closed);
    }
}

fn choose_auth_type(tui: &mut TuiState, i: usize)
    ensures
        keeps_cursors(*old(tui), *final(tui)),
        auth_type_chosen(*old(tui), *final(tui), i),
{
    proof {
        reveal(cursors_in_text);
    }
    tui.auth_type_index = i;
    proof {
        reveal(auth_type_chosen);
    }
}

fn switch_username_side(tui: &mut TuiState)
    ensures
        keeps_cursors(*old(tui), *final(tui)),
        username_side_switched(*old(tui), *final(tui)),
{
    proof {
        reveal(cursors_in_text);
    }
    tui.auth_editing_username = !tui.auth_editing_username;
    proof {
        reveal(username_side_switched);
    }
}

fn switch_key_name_side(tui: &mut TuiState)
    ensures
        keeps_cursors(*old(tui), *final(tui)),
        key_name_side_switched(*old(tui), *final(tui)),
{
    proof {
        reveal(cursors_in_text);
    }
    tui.auth_editing_key_name = !tui.auth_editing_key_name;
    proof {
        reveal(key_name_side_switched);
    }
}

fn switch_auth_side(tui: &mut TuiState)
    ensures
        keeps_cursors(*old(tui), *final(tui)),
        auth_side_switched(*old(tui), *final(tui)),
{
    if tui.auth_type_index == 2 {
        switch_username_side(tui);
    } else if tui.auth_type_index == 3 {
        switch_key_name_side(tui);
    }
}

/// The authentication the editor's fields describe for the chosen scheme.
fn chosen_auth(tui: &TuiState) -> (r: Option<Auth>)
    ensures
        auth_opt_view(r) == auth_choice(*tui),
{
    if tui.auth_type_index == 1 {
        Some(Auth::BearerToken { token: tui.auth_token_input.clone() })
    } else if tui.auth_type_index == 2 {
        Some(Auth::BasicAuth { username: tui.auth_username_input.clone(), password: tui.auth_password_input.clone() })
    } else if tui.auth_type_index == 3 {
        Some(Auth::ApiKey { header: tui.auth_key_name_input.clone(), value: tui.auth_key_value_input.clone() })
    } else {
        None
    }
}

pub fn handle_auth_editing(app: &mut App, tui: &mut TuiState, key: Key) -> (r: (AppEvent, Effects))
    requires
        key == Key::Right ==> old(tui).auth_type_index < usize::MAX,
        edits_at_cursor(key) ==> match auth_input(*old(tui)) {
            Some(w) => input_cursor(*old(tui), w) <= input_text(*old(tui), w).len(),
            None => true,
        },
    ensures
        keeps_cursors(*old(tui), *final(tui)),
        final(app).environments == old(app).environments,
        r == idle(),
        auth_editing_post(*old(app), *old(tui), *final(app), *final(tui), key),
{
    proof {
        reveal(auth_editing_post);
    }
    match key {
        Key::Esc => close_auth_editor(tui),
        Key::Left => {
            let i = if tui.auth_type_index == 0 {
                AUTH_TYPE_COUNT - 1
            } else {
                tui.auth_type_index - 1
            };
            choose_auth_type(tui, i);
        },
        Key::Right => {
            let i = (tui.auth_type_index + 1) % AUTH_TYPE_COUNT;
            choose_auth_type(tui, i);
        },
        Key::Enter => {
            let auth = chosen_auth(tui);
            app.set_auth(auth);
            close_auth_editor(tui);
        },
        Key::Tab => switch_auth_side(tui),
        Key::Char(_) | Key::Backspace => {
            if tui.auth_type_index == 1 {
                type_into(tui, LineInput::AuthToken, key);
            } else if tui.auth_type_index == 2 {
                let w = if tui.auth_editing_username {
                    LineInput::AuthUsername
                } else {
                    LineInput::AuthPassword
                };
                type_into(tui, w, key);
            } else if tui.auth_type_index == 3 {
                let w = if tui.auth_editing_key_name {
                    LineInput::AuthKeyName
                } else {
                    LineInput::AuthKeyValue
                };
                type_into(tui, w, key);
            }
        },
        _ => {},
    }
    (AppEvent::Idle, Effects::none())
}

// ── Variable editor ──────────────────────────────────────────────────────

/// The variable input a key edits: the name or the value, as Tab last
/// chose.
pub open spec fn variable_input(t: TuiState) -> LineInput {
    if t.editing_variable_key {
        LineInput::VariableKey
    } else {
        LineInput::VariableValue
    }
}

/// `e1` is `e0` with variable `k` set to `v`.
pub open spec fn variable_set(e0: Environment, e1: Environment, k: Seq<char>, v: Seq<char>) -> bool {
    &&& e1.wf()
    &&& e1.name == e0.name
    &&& forall|x: Seq<char>| #[trigger] lookup(e1.vars(), x) == if x == k {
        Some(v)
    } else {
        lookup(e0.vars(), x)
    }
}

/// `a1` is `a0` with variable `k` set to `v` in environment `i`; nothing
/// changes when there is no such environment.
#[verifier::opaque]
pub open spec fn variable_stored(a0: App, a1: App, i: usize, k: Seq<char>, v: Seq<char>) -> bool {
    &&& a1 == (App { environments: a1.environments, ..a0 })
    &&& a1.environments.items@.len() == a0.environments.items@.len()
    &&& forall|j: int| 0 <= j < a0.environments.items@.len() && j != i ==>
        #[trigger] a1.environments.items@[j] == a0.environments.items@[j]
    &&& i < a0.environments.items@.len() ==> variable_set(
        a0.environments.items@[i as int],
        a1.environments.items@[i as int],
        k,
        v,
    )
}

/// `t1` is `t0` with the variable editor closed.
#[verifier::opaque]
pub open spec fn variable_closed(t0: TuiState, t1: TuiState) -> bool {
    t1 == (TuiState { editing_variable: false, ..t0 })
}

/// `t1` is `t0` with Tab's choice between name and value switched.
#[verifier::opaque]
pub open spec fn variable_side_switched(t0: TuiState, t1: TuiState) -> bool {
    t1 == (TuiState { editing_variable_key: !t0.editing_variable_key, ..t0 })
}

/// The variable editor. Esc closes it; Enter sets the trimmed name to the
/// trimmed value in the selected environment, when the name is not blank,
/// asks for the environments to be written, and closes it; Tab switches
/// between name and value; characters, Backspace, Left and Right edit the
/// chosen text.
#[verifier::opaque]
pub open spec fn variable_editing_post(
    a0: App,
    t0: TuiState,
    a1: App,
    t1: TuiState,
    key: Key,
    r: (AppEvent, Effects),
) -> bool {
    let name = trim_seq(t0.variable_key_input@);
    let value = trim_seq(t0.variable_value_input@);
    match key {
        Key::Enter => if name.len() > 0 {
            &&& r == (AppEvent::Idle, Effects { save_environments: true, ..no_effects() })
            &&& variable_stored(a0, a1, t0.environment_index, name, value)
            &&& variable_closed(t0, t1)
        } else {
            r == idle() && a1 == a0 && variable_closed(t0, t1)
        },
        Key::Esc => r == idle() && a1 == a0 && variable_closed(t0, t1),
        Key::Tab => r == idle() && a1 == a0 && variable_side_switched(t0, t1),
        Key::Char(_) | Key::Backspace | Key::Left | Key::Right => r == idle() && a1 == a0 && typed(
            t0,
            t1,
            variable_input(t0),
            key,
        ),
        _ => r == idle() && a1 == a0 && t1 == t0,
    }
}

fn close_variable_editor(tui: &mut TuiState)
    ensures
        keeps_cursors(*old(tui), *final(tui)),
        variable_closed(*old(tui), *final(tui)),
{
    proof {
        reveal(cursors_in_text);
    }
    tui.editing_variable = false;
    proof {
        reveal(variable_closed);
    }
}

fn switch_variable_side(tui: &mut TuiState)
    ensures
        keeps_cursors(*old(tui), *final(tui)),
        variable_side_switched(*old(tui), *final(tui)),
{
    proof {
        reveal(cursors_in_text);
    }
    tui.editing_variable_key = !tui.editing_variable_key;
    proof {
        reveal(variable_side_switched);
    }
}

/// Sets variable `k` to `v` in environment `i`, if there is one.
fn store_variable(app: &mut App, i: usize, k: String, v: String)
    requires
        old(app).environments.all_wf(),
    ensures
        variable_stored(*old(app), *final(app), i, k@, v@),
        final(app).environments.all_wf(),
{
    proof {
        reveal(variable_stored);
    }
    if i < app.environments.items.len() {
        let mut env = app.environments.items.remove(i);
        env.set_variable(k, v);
        app.environments.items.insert(i, env);
        proof {
            assert forall|j: int| 0 <= j < app.environments.items@.len() implies (#[trigger] app.environments.items@[j]).wf() by {
                if j != i {
                    assert(app.environments.items@[j] == old(app).environments.items@[j]);
                }
            }
        }
    }
}

pub fn handle_variable_editing(app: &mut App, tui: &mut TuiState, key: Key) -> (r: (AppEvent, Effects))
    requires
        old(app).environments.all_wf(),
        edits_at_cursor(key) ==> input_cursor(*old(tui), variable_input(*old(tui))) <= input_text(
            *old(tui),
            variable_input(*old(tui)),
        ).len(),
    ensures
        keeps_cursors(*old(tui), *final(tui)),
        variable_editing_post(*old(app), *old(tui), *final(app), *final(tui), key, r),
        final(app).environments.all_wf(),
{
    proof {
        reveal(variable_editing_post);
    }
    match key {
        Key::Esc => {
            close_variable_editor(tui);
            (AppEvent::Idle, Effects::none())
        },
        Key::Enter => {
            let name = trim(tui.variable_key_input.as_str());
            let value = trim(tui.variable_value_input.as_str());
            if !name.as_str().is_empty() {
                store_variable(app, tui.environment_index, name, value);
                close_variable_editor(tui);
                let mut e = Effects::none();
                e.save_environments = true;
                (AppEvent::Idle, e)
            } else {
                close_variable_editor(tui);
                (AppEvent::Idle, Effects::none())
            }
        },
        Key::Tab => {
            switch_variable_side(tui);
            (AppEvent::Idle, Effects::none())
        },
        Key::Char(_) | Key::Backspace | Key::Left | Key::Right => {
            let w = if tui.editing_variable_key {
                LineInput::VariableKey
            } else {
                LineInput::VariableValue
            };
            type_into(tui, w, key);
            (AppEvent::Idle, Effects::none())
        },
        _ => (AppEvent::Idle, Effects::none()),
    }
}

// ── New collection name ─────────────────────────────────────────────────────

/// `t1` is `t0` with the collection name input closed.
#[verifier::opaque]
pub open spec fn collection_name_closed(t0: TuiState, t1: TuiState) -> bool {
    t1 == (TuiState { editing_collection_name: false, ..t0 })
}

/// `t1` is `t0` with the name input closed and collection `i` selected.
#[verifier::opaque]
pub open spec fn collection_name_done(t0: TuiState, t1: TuiState, i: usize) -> bool {
    t1 == (TuiState { editing_collection_name: false, collection_index: i, ..t0 })
}

/// `a1` is `a0` with an empty collection named `name` appended.
#[verifier::opaque]
pub open spec fn collection_created(a0: App, a1: App, name: Seq<char>) -> bool {
    &&& a1 == (App { collections: a1.collections, ..a0 })
    &&& a1.collections.items@.len() == a0.collections.items@.len() + 1
    &&& a1.collections.items@.drop_last() == a0.collections.items@
    &&& a1.collections.items@.last().name@ == name
    &&& a1.collections.items@.last().entries@.len() == 0
}

/// The name input for a new collection. Esc closes it; Enter appends an empty
/// collection with the trimmed name, when it is not blank, selects it, asks for
/// the collections to be written, and closes the input; characters, Backspace,
/// Left and Right edit the name.
#[verifier::opaque]
pub open spec fn collection_name_post(a0: App, t0: TuiState, a1: App, t1: TuiState, key: Key, r: (AppEvent, Effects)) -> bool {
    let name = trim_seq(t0.collection_name_input@);
    match key {
        Key::Enter => if name.len() > 0 {
            &&& r == (AppEvent::Idle, Effects { save_collections: true, ..no_effects() })
            &&& collection_created(a0, a1, name)
            &&& collection_name_done(t0, t1, a0.collections.items@.len() as usize)
        } else {
            r == idle() && a1 == a0 && collection_name_closed(t0, t1)
        },
        Key::Esc => r == idle() && a1 == a0 && collection_name_closed(t0, t1),
        Key::Char(_) | Key::Backspace | Key::Left | Key::Right => r == idle() && a1 == a0 && typed(
            t0,
            t1,
            LineInput::CollectionName,
            key,
        ),
        _ => r == idle() && a1 == a0 && t1 == t0,
    }
}

fn close_collection_name(tui: &mut TuiState)
    ensures
        keeps_cursors(*old(tui), *final(tui)),
        collection_name_closed(*old(tui), *final(tui)),
{
    proof {
        reveal(cursors_in_text);
    }
    tui.editing_collection_name = false;
    proof {
        reveal(collection_name_closed);
    }
}

fn finish_collection_name(tui: &mut TuiState, i: usize)
    ensures
        keeps_cursors(*old(tui), *final(tui)),
        collection_name_done(*old(tui), *final(tui), i),
{
    proof {
        reveal(cursors_in_text);
    }
    tui.editing_collection_name = false;
    tui.collection_index = i;
    proof {
        reveal(collection_name_done);
    }
}

fn create_collection(app: &mut App, name: String)
    requires
        
    ensures
        collection_created(*old(app), *final(app), name@),
        final(app).environments == old(app).environments,
        final(app).collections.items@.len() == old(app).collections.items@.len() + 1,
        
{
    app.collections.add_collection(name);
    proof {
        reveal(collection_created);
        assert(app.collections.items@.drop_last() =~= old(app).collections.items@);
    }
}

pub fn handle_collection_name_editing(app: &mut App, tui: &mut TuiState, key: Key) -> (r: (AppEvent, Effects))
    requires
        
        edits_at_cursor(key) ==> old(tui).collection_name_cursor <= old(tui).collection_name_input@.len(),
    ensures
        keeps_cursors(*old(tui), *final(tui)),
        final(app).environments == old(app).environments,
        collection_name_post(*old(app), *old(tui), *final(app), *final(tui), key, r),
        
{
    proof {
        reveal(collection_name_post);
    }
    match key {
        Key::Esc => {
            close_collection_name(tui);
            (AppEvent::Idle, Effects::none())
        },
        Key::Enter => {
            let name = trim(tui.collection_name_input.as_str());
            if !name.as_str().is_empty() {
                create_collection(app, name);
                let i = app.collections.items.len() - 1;
                finish_collection_name(tui, i);
                let mut e = Effects::none();
                e.save_collections = true;
                (AppEvent::Idle, e)
            } else {
                close_collection_name(tui);
                (AppEvent::Idle, Effects::none())
            }
        },
        Key::Char(_) | Key::Backspace | Key::Left | Key::Right => {
            type_into(tui, LineInput::CollectionName, key);
            (AppEvent::Idle, Effects::none())
        },
        _ => (AppEvent::Idle, Effects::none()),
    }
}

// ── New environment name ─────────────────────────────────────────────────────

/// `t1` is `t0` with the environment name input closed.
#[verifier::opaque]
pub open spec fn environment_name_closed(t0: TuiState, t1: TuiState) -> bool {
    t1 == (TuiState { editing_environment_name: false, ..t0 })
}

/// `t1` is `t0` with the name input closed and environment `i` selected.
#[verifier::opaque]
pub open spec fn environment_name_done(t0: TuiState, t1: TuiState, i: usize) -> bool {
    t1 == (TuiState { editing_environment_name: false, environment_index: i, ..t0 })
}

/// `a1` is `a0` with an empty environment named `name` appended.
#[verifier::opaque]
pub open spec fn environment_created(a0: App, a1: App, name: Seq<char>) -> bool {
    &&& a1 == (App { environments: a1.environments, ..a0 })
    &&& a1.environments.items@.len() == a0.environments.items@.len() + 1
    &&& a1.environments.items@.drop_last() == a0.environments.items@
    &&& a1.environments.items@.last().name@ == name
    &&& a1.environments.items@.last().vars().len() == 0
}

/// The name input for a new environment. Esc closes it; Enter appends an empty
/// environment with the trimmed name, when it is not blank, selects it, asks for
/// the environments to be written, and closes the input; characters, Backspace,
/// Left and Right edit the name.
#[verifier::opaque]
pub open spec fn environment_name_post(a0: App, t0: TuiState, a1: App, t1: TuiState, key: Key, r: (AppEvent, Effects)) -> bool {
    let name = trim_seq(t0.environment_name_input@);
    match key {
        Key::Enter => if name.len() > 0 {
            &&& r == (AppEvent::Idle, Effects { save_environments: true, ..no_effects() })
            &&& environment_created(a0, a1, name)
            &&& environment_name_done(t0, t1, a0.environments.items@.len() as usize)
        } else {
            r == idle() && a1 == a0 && environment_name_closed(t0, t1)
        },
        Key::Esc => r == idle() && a1 == a0 && environment_name_closed(t0, t1),
        Key::Char(_) | Key::Backspace | Key::Left | Key::Right => r == idle() && a1 == a0 && typed(
            t0,
            t1,
            LineInput::EnvironmentName,
            key,
        ),
        _ => r == idle() && a1 == a0 && t1 == t0,
    }
}

fn close_environment_name(tui: &mut TuiState)
    ensures
        keeps_cursors(*old(tui), *final(tui)),
        environment_name_closed(*old(tui), *final(tui)),
{
    proof {
        reveal(cursors_in_text);
    }
    tui.editing_environment_name = false;
    proof {
        reveal(environment_name_closed);
    }
}

fn finish_environment_name(tui: &mut TuiState, i: usize)
    ensures
        keeps_cursors(*old(tui), *final(tui)),
        environment_name_done(*old(tui), *final(tui), i),
{
    proof {
        reveal(cursors_in_text);
    }
    tui.editing_environment_name = false;
    tui.environment_index = i;
    proof {
        reveal(environment_name_done);
    }
}

fn create_environment(app: &mut App, name: String)
    requires
        old(app).environments.all_wf(),
    ensures
        environment_created(*old(app), *final(app), name@),
        final(app).environments.items@.len() == old(app).environments.items@.len() + 1,
        final(app).environments.all_wf(),
{
    app.environments.add_environment(name);
    proof {
        reveal(environment_created);
        assert(app.environments.items@.drop_last() =~= old(app).environments.items@);
        assert forall|j: int| 0 <= j < app.environments.items@.len() implies (#[trigger] app.environments.items@[j]).wf() by {
            if j < old(app).environments.items@.len() {
                assert(app.environments.items@[j] == app.environments.items@.drop_last()[j]);
            }
        }
    }
}

pub fn handle_environment_name_editing(app: &mut App, tui: &mut TuiState, key: Key) -> (r: (AppEvent, Effects))
    requires
        old(app).environments.all_wf(),
        edits_at_cursor(key) ==> old(tui).environment_name_cursor <= old(tui).environment_name_input@.len(),
    ensures
        keeps_cursors(*old(tui), *final(tui)),
        environment_name_post(*old(app), *old(tui), *final(app), *final(tui), key, r),
        final(app).environments.all_wf(),
{
    proof {
        reveal(environment_name_post);
    }
    match key {
        Key::Esc => {
            close_environment_name(tui);
            (AppEvent::Idle, Effects::none())
        },
        Key::Enter => {
            let name = trim(tui.environment_name_input.as_str());
            if !name.as_str().is_empty() {
                create_environment(app, name);
                let i = app.environments.items.len() - 1;
                finish_environment_name(tui, i);
                let mut e = Effects::none();
                e.save_environments = true;
                (AppEvent::Idle, e)
            } else {
                close_environment_name(tui);
                (AppEvent::Idle, Effects::none())
            }
        },
        Key::Char(_) | Key::Backspace | Key::Left | Key::Right => {
            type_into(tui, LineInput::EnvironmentName, key);
            (AppEvent::Idle, Effects::none())
        },
        _ => (AppEvent::Idle, Effects::none()),
    }
}

// ── History search ───────────────────────────────────────────────────────

/// `t1` is `t0` with history entry `i` of the list selected.
#[verifier::opaque]
pub open spec fn history_selection(t0: TuiState, t1: TuiState, i: usize) -> bool {
    t1 == (TuiState { history_index: i, ..t0 })
}

/// `t1` is `t0` with the search closed and the first entry selected.
#[verifier::opaque]
pub open spec fn search_closed(t0: TuiState, t1: TuiState) -> bool {
    t1 == (TuiState { history_search_active: false, history_index: 0, ..t0 })
}

/// `t1` is `t0` with the search text replaced by `q` and the first entry
/// selected.
#[verifier::opaque]
pub open spec fn search_text_set(t0: TuiState, t1: TuiState, q: Seq<char>) -> bool {
    &&& t1 == (TuiState { history_search_input: t1.history_search_input, history_index: 0, ..t0 })
    &&& t1.history_search_input@ == q
}

/// The number of history entries the search text lists.
pub open spec fn listed_count(t: TuiState, a: App) -> nat {
    filtered(t.history_search_input@, a.history.entries@).len()
}

/// The history search. Enter and Esc close it; Backspace deletes the last
/// character of the search text and a character is appended to it, both
/// selecting the first entry; Up and Down move the selection within the
/// listed entries.
#[verifier::opaque]
pub open spec fn history_search_post(a: App, t0: TuiState, t1: TuiState, key: Key) -> bool {
    let q = t0.history_search_input@;
    match key {
        Key::Enter | Key::Esc => search_closed(t0, t1),
        Key::Backspace => search_text_set(t0, t1, if q.len() > 0 { q.drop_last() } else { q }),
        Key::Char(c) => search_text_set(t0, t1, q.push(c)),
        Key::Up => history_selection(t0, t1, dec(t0.history_index)),
        Key::Down => if listed_count(t0, a) > 0 && t0.history_index < listed_count(t0, a) - 1 {
            history_selection(t0, t1, (t0.history_index + 1) as usize)
        } else {
            t1 == t0
        },
        _ => t1 == t0,
    }
}

pub fn select_history(tui: &mut TuiState, i: usize)
    ensures
        keeps_cursors(*old(tui), *final(tui)),
        history_selection(*old(tui), *final(tui), i),
{
    proof {
        reveal(cursors_in_text);
    }
    tui.history_index = i;
    proof {
        reveal(history_selection);
    }
}

fn close_search(tui: &mut TuiState)
    ensures
        keeps_cursors(*old(tui), *final(tui)),
        search_closed(*old(tui), *final(tui)),
{
    proof {
        reveal(cursors_in_text);
    }
    tui.history_search_active = false;
    tui.history_index = 0;
    proof {
        reveal(search_closed);
    }
}

pub(crate) fn set_search_text(tui: &mut TuiState, q: String)
    ensures
        keeps_cursors(*old(tui), *final(tui)),
        search_text_set(*old(tui), *final(tui), q@),
{
    proof {
        reveal(cursors_in_text);
    }
    tui.history_search_input = q;
    tui.history_index = 0;
    proof {
        reveal(search_text_set);
    }
}

pub fn handle_history_search(tui: &mut TuiState, app: &App, key: Key) -> (r: (AppEvent, Effects))
    ensures
        keeps_cursors(*old(tui), *final(tui)),
        r == idle(),
        history_search_post(*app, *old(tui), *final(tui), key),
{
    proof {
        reveal(history_search_post);
    }
    match key {
        Key::Enter | Key::Esc => close_search(tui),
        Key::Backspace => {
            let mut q = tui.history_search_input.clone();
            pop_char(&mut q);
            set_search_text(tui, q);
        },
        Key::Char(c) => {
            let mut q = tui.history_search_input.clone();
            push_char(&mut q, c);
            set_search_text(tui, q);
        },
        Key::Up => {
            let i = if tui.history_index > 0 {
                tui.history_index - 1
            } else {
                0
            };
            select_history(tui, i);
        },
        Key::Down => {
            let listed = tui.history_filtered_indices(app.history.entries.as_slice());
            if listed.len() > 0 && tui.history_index < listed.len() - 1 {
                let i = tui.history_index + 1;
                select_history(tui, i);
            }
        },
        _ => {},
    }
    (AppEvent::Idle, Effects::none())
}

// ── Dispatch ─────────────────────────────────────────────────────────────

/// What a key needs of the state to be handled while an input has the
/// keyboard: the cursor of the input it edits within its text, room to
/// count up the scheme, and environments with sorted variables.
pub open spec fn editing_ready(a: App, t: TuiState, press: KeyPress) -> bool {
    let key = press.key;
    if t.history_search_active {
        true
    } else if t.editing_url {
        edits_at_cursor(key) ==> t.url_cursor <= t.url_input@.len()
    } else if t.is_editing_body {
        body_key_needs_cursor(press) ==> t.body_cursor <= t.body_input@.len()
    } else if t.editing_header {
        edits_at_cursor(key) ==> input_cursor(t, header_input(t)) <= input_text(t, header_input(t)).len()
    } else if t.editing_param {
        edits_at_cursor(key) ==> input_cursor(t, param_input(t)) <= input_text(t, param_input(t)).len()
    } else if t.editing_auth {
        &&& key == Key::Right ==> t.auth_type_index < usize::MAX
        &&& edits_at_cursor(key) ==> match auth_input(t) {
            Some(w) => input_cursor(t, w) <= input_text(t, w).len(),
            None => true,
        }
    } else if t.editing_variable {
        &&& a.environments.all_wf()
        &&& edits_at_cursor(key) ==> input_cursor(t, variable_input(t)) <= input_text(t, variable_input(t)).len()
    } else if t.editing_collection_name {
        edits_at_cursor(key) ==> t.collection_name_cursor <= t.collection_name_input@.len()
    } else if t.editing_environment_name {
        &&& a.environments.all_wf()
        &&& edits_at_cursor(key) ==> t.environment_name_cursor <= t.environment_name_input@.len()
    } else {
        true
    }
}

/// A key while an input has the keyboard goes to that input: the history
/// search first, then the URL bar, the body, header, parameter,
/// authentication and variable editors and the two name inputs.
pub open spec fn editing_post(a0: App, t0: TuiState, a1: App, t1: TuiState, press: KeyPress, r: (AppEvent, Effects)) -> bool {
    let key = press.key;
    if t0.history_search_active {
        r == idle() && a1 == a0 && history_search_post(a0, t0, t1, key)
    } else if t0.editing_url {
        r == idle() && url_editing_post(a0, t0, a1, t1, key)
    } else if t0.is_editing_body {
        r == idle() && body_editing_post(a0, t0, a1, t1, press)
    } else if t0.editing_header {
        r == idle() && header_editing_post(a0, t0, a1, t1, key)
    } else if t0.editing_param {
        r == idle() && param_editing_post(a0, t0, a1, t1, key)
    } else if t0.editing_auth {
        r == idle() && auth_editing_post(a0, t0, a1, t1, key)
    } else if t0.editing_variable {
        variable_editing_post(a0, t0, a1, t1, key, r)
    } else if t0.editing_collection_name {
        collection_name_post(a0, t0, a1, t1, key, r)
    } else if t0.editing_environment_name {
        environment_name_post(a0, t0, a1, t1, key, r)
    } else {
        r == idle() && a1 == a0 && t1 == t0
    }
}

pub fn handle_editing(app: &mut App, tui: &mut TuiState, press: KeyPress) -> (r: (AppEvent, Effects))
    requires
        editing_ready(*old(app), *old(tui), press),
    ensures
        keeps_cursors(*old(tui), *final(tui)),
        editing_post(*old(app), *old(tui), *final(app), *final(tui), press, r),
        old(app).environments.all_wf() ==> final(app).environments.all_wf(),
{
    let key = press.key;
    if tui.history_search_active {
        handle_history_search(tui, app, key)
    } else if tui.editing_url {
        handle_url_editing(app, tui, key)
    } else if tui.is_editing_body {
        handle_body_editing(app, tui, press)
    } else if tui.editing_header {
        handle_header_editing(app, tui, key)
    } else if tui.editing_param {
        handle_param_editing(app, tui, key)
    } else if tui.editing_auth {
        handle_auth_editing(app, tui, key)
    } else if tui.editing_variable {
        handle_variable_editing(app, tui, key)
    } else if tui.editing_collection_name {
        handle_collection_name_editing(app, tui, key)
    } else if tui.editing_environment_name {
        handle_environment_name_editing(app, tui, key)
    } else {
        (AppEvent::Idle, Effects::none())
    }
}

} // verus!
