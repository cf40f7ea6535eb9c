//! Keys in the drawers: the history, the collections and the environments.
use vstd::prelude::*;
use crate::app::{collection_loaded, history_loaded, request_filed, App};
use crate::models::environment::lookup;
use crate::models::request::method_name;
use crate::text::{char_len, concat3};
use crate::tui::edit_keys::{
    adjusted, collection_name_post, environment_name_post, handle_collection_name_editing,
    handle_environment_name_editing, handle_history_search, handle_variable_editing, history_search_post,
    history_selection, idle, removed, search_text_set, select_history, set_search_text, variable_editing_post,
    variable_input,
};
use crate::tui::inputs::{input_cursor, input_text};
use crate::tui::keys::{dec, edits_at_cursor, no_effects, AppEvent, Effects, Key};
use crate::tui::state::{cursors_in_text, filtered, keeps_cursors, FocusedPanel, TuiState};

verus! {

broadcast use vstd::string::group_string_axioms;

/// The text of an optional body; empty when there is none.
pub open spec fn body_text(b: Option<Seq<char>>) -> Seq<char> {
    match b {
        Some(x) => x,
        None => Seq::empty(),
    }
}

/// `t1` is `t0` after a request was loaded into the editor: the URL and
/// body inputs hold the request's URL and body with the cursors at their
/// ends, the response is scrolled to the top, the request panel has the
/// focus and the drawer is closed.
#[verifier::opaque]
pub open spec fn editor_loaded(a1: App, t0: TuiState, t1: TuiState) -> bool {
    &&& t1 == (TuiState {
        url_input: t1.url_input,
        url_cursor: a1.current_request@.url.len() as usize,
        body_input: t1.body_input,
        body_cursor: body_text(a1.current_request@.body).len() as usize,
        response_scroll: 0,
        focused_panel: FocusedPanel::Request,
        drawer: None,
        ..t0
    })
    &&& t1.url_input@ == a1.current_request@.url
    &&& t1.body_input@ == body_text(a1.current_request@.body)
}

/// `t1` is `t0` with the drawer closed.
#[verifier::opaque]
pub open spec fn drawer_closed(t0: TuiState, t1: TuiState) -> bool {
    t1 == (TuiState { drawer: None, ..t0 })
}

/// Fills the editor from the request being edited and closes the drawer.
fn load_editor(app: &App, tui: &mut TuiState)
    ensures
        keeps_cursors(*old(tui), *final(tui)),
        editor_loaded(*app, *old(tui), *final(tui)),
{
    proof {
        reveal(cursors_in_text);
    }
    let url = app.current_request.url.clone();
    let body = match &app.current_request.body {
        Some(b) => b.clone(),
        None => String::new(),
    };
    let uc = char_len(url.as_str());
    let bc = char_len(body.as_str());
    tui.url_input = url;
    tui.url_cursor = uc;
    tui.body_input = body;
    tui.body_cursor = bc;
    tui.response_scroll = 0;
    tui.focused_panel = FocusedPanel::Request;
    tui.drawer = None;
    proof {
        reveal(editor_loaded);
    }
}

fn close_drawer(tui: &mut TuiState)
    ensures
        keeps_cursors(*old(tui), *final(tui)),
        drawer_closed(*old(tui), *final(tui)),
{
    proof {
        reveal(cursors_in_text);
    }
    tui.drawer = None;
    proof {
        reveal(drawer_closed);
    }
}

// ── History drawer ───────────────────────────────────────────────────────

/// `t1` is `t0` with the history search open.
#[verifier::opaque]
pub open spec fn search_opened(t0: TuiState, t1: TuiState) -> bool {
    t1 == (TuiState { history_search_active: true, ..t0 })
}

/// `a1` is `a0` without history entry `i`.
#[verifier::opaque]
pub open spec fn history_removed(a0: App, a1: App, i: usize) -> bool {
    &&& a1 == (App { history: a1.history, ..a0 })
    &&& a1.history.entries@ == removed(a0.history.entries@, i)
}

/// The history drawer lists the entries that the search text selects. While
/// the search is open keys go to it. Up and Down move the selection within
/// the list; Enter loads the selected entry into the editor; `d` removes it,
/// asks for the history to be written, and steps the selection back when it
/// falls off the end; `/` opens the search; Esc clears the search text, or
/// closes the drawer when there is none.
#[verifier::opaque]
pub open spec fn history_drawer_post(a0: App, t0: TuiState, a1: App, t1: TuiState, key: Key, r: (AppEvent, Effects)) -> bool {
    let listed = filtered(t0.history_search_input@, a0.history.entries@);
    let i = t0.history_index;
    if t0.history_search_active {
        r == idle() && a1 == a0 && history_search_post(a0, t0, t1, key)
    } else {
        match key {
            Key::Up => r == idle() && a1 == a0 && history_selection(t0, t1, dec(i)),
            Key::Down => r == idle() && a1 == a0 && if listed.len() > 0 && i < listed.len() - 1 {
                history_selection(t0, t1, (i + 1) as usize)
            } else {
                t1 == t0
            },
            Key::Enter => r == idle() && if i < listed.len() {
                history_loaded(a0, a1, listed[i as int]) && editor_loaded(a1, t0, t1)
            } else {
                a1 == a0 && t1 == t0
            },
            Key::Char('d') => if i < listed.len() {
                &&& r == (AppEvent::Idle, Effects { save_history: true, ..no_effects() })
                &&& history_removed(a0, a1, listed[i as int])
                &&& history_selection(t0, t1, adjusted(i, filtered(t0.history_search_input@, a1.history.entries@).len()))
            } else {
                r == idle() && a1 == a0 && t1 == t0
            },
            Key::Char('/') => r == idle() && a1 == a0 && search_opened(t0, t1),
            Key::Esc => r == idle() && a1 == a0 && if t0.history_search_input@.len() > 0 {
                search_text_set(t0, t1, Seq::empty())
            } else {
                drawer_closed(t0, t1)
            },
            _ => r == idle() && a1 == a0 && t1 == t0,
        }
    }
}

fn open_search(tui: &mut TuiState)
    ensures
        keeps_cursors(*old(tui), *final(tui)),
        search_opened(*old(tui), *final(tui)),
{
    proof {
        reveal(cursors_in_text);
    }
    tui.history_search_active = true;
    proof {
        reveal(search_opened);
    }
}

fn drop_history_entry(app: &mut App, i: usize)
    ensures
        history_removed(*old(app), *final(app), i),
        final(app).environments == old(app).environments,
{
    app.remove_history_entry(i);
    proof {
        reveal(history_removed);
    }
}

pub fn handle_drawer_history(app: &mut App, tui: &mut TuiState, key: Key) -> (r: (AppEvent, Effects))
    ensures
        keeps_cursors(*old(tui), *final(tui)),
        history_drawer_post(*old(app), *old(tui), *final(app), *final(tui), key, r),
        final(app).environments == old(app).environments,
{
    proof {
        reveal(history_drawer_post);
    }
    if tui.history_search_active {
        return handle_history_search(tui, app, key);
    }
    let listed = tui.history_filtered_indices(app.history.entries.as_slice());
    match key {
        Key::Up => {
            let i = if tui.history_index > 0 {
                tui.history_index - 1
            } else {
                0
            };
            select_history(tui, i);
        },
        Key::Down => {
            if listed.len() > 0 && tui.history_index < listed.len() - 1 {
                let i = tui.history_index + 1;
                select_history(tui, i);
            }
        },
        Key::Enter => {
            if tui.history_index < listed.len() {
                app.load_history_entry(listed[tui.history_index]);
                load_editor(app, tui);
            }
        },
        Key::Char('d') => {
            if tui.history_index < listed.len() {
                drop_history_entry(app, listed[tui.history_index]);
                let now = tui.history_filtered_indices(app.history.entries.as_slice());
                let i = tui.history_index;
                let j = if i > 0 && i >= now.len() {
                    i - 1
                } else {
                    i
                };
                select_history(tui, j);
                let mut e = Effects::none();
                e.save_history = true;
                return (AppEvent::Idle, e);
            }
        },
        Key::Char('/') => open_search(tui),
        Key::Esc => {
            if !tui.history_search_input.as_str().is_empty() {
                set_search_text(tui, String::new());
            } else {
                close_drawer(tui);
            }
        },
        _ => {},
    }
    (AppEvent::Idle, Effects::none())
}

// ── Collections drawer ───────────────────────────────────────────────────

/// The number of requests in collection `c`; none when there is no such
/// collection.
pub open spec fn entry_count(a: App, c: usize) -> nat {
    if c < a.collections.items@.len() {
        a.collections.items@[c as int].entries@.len()
    } else {
        0
    }
}

/// The name a request is saved under: its method and URL.
pub open spec fn filing_name(a: App) -> Seq<char> {
    method_name(a.current_request.method) + " "@ + a.current_request.url@
}

/// `t1` is `t0` with collection `i` selected.
#[verifier::opaque]
pub open spec fn collection_selected(t0: TuiState, t1: TuiState, i: usize) -> bool {
    t1 == (TuiState { collection_index: i, ..t0 })
}

/// `t1` is `t0` with request `i` of the open collection selected.
#[verifier::opaque]
pub open spec fn collection_request_selected(t0: TuiState, t1: TuiState, i: usize) -> bool {
    t1 == (TuiState { collection_request_index: i, ..t0 })
}

/// `t1` is `t0` with the collection's requests listed (`open`) or the
/// collections listed again, the first request selected.
#[verifier::opaque]
pub open spec fn collection_requests_shown(t0: TuiState, t1: TuiState, open: bool) -> bool {
    t1 == (TuiState { in_collection_requests: open, collection_request_index: 0, ..t0 })
}

/// `t1` is `t0` with the input for a new collection's name open and empty.
#[verifier::opaque]
pub open spec fn collection_name_opened(t0: TuiState, t1: TuiState) -> bool {
    &&& t1 == (TuiState {
        editing_collection_name: true,
        collection_name_input: t1.collection_name_input,
        collection_name_cursor: 0,
        ..t0
    })
    &&& t1.collection_name_input@.len() == 0
}

/// `a1` is `a0` without request `i` of collection `c`; `a0` when there is
/// no such collection or request.
#[verifier::opaque]
pub open spec fn collection_entry_removed(a0: App, a1: App, c: usize, i: usize) -> bool {
    &&& a1 == (App { collections: a1.collections, ..a0 })
    &&& a1.collections.items@.len() == a0.collections.items@.len()
    &&& forall|j: int| 0 <= j < a0.collections.items@.len() && j != c ==>
        #[trigger] a1.collections.items@[j] == a0.collections.items@[j]
    &&& c < a0.collections.items@.len() ==> {
        &&& a1.collections.items@[c as int].name == a0.collections.items@[c as int].name
        &&& a1.collections.items@[c as int].entries@ == removed(a0.collections.items@[c as int].entries@, i)
    }
}

/// `a1` is `a0` without collection `c`.
#[verifier::opaque]
pub open spec fn collection_removed(a0: App, a1: App, c: usize) -> bool {
    &&& a1 == (App { collections: a1.collections, ..a0 })
    &&& a1.collections.items@ == removed(a0.collections.items@, c)
}

/// The collections drawer. While a new collection's name is typed keys go
/// to that input. Listing a collection's requests: Up and Down move the
/// selection; Enter loads the selected request into the editor; `a` saves
/// the request being edited, named by its method and URL, when it has a
/// URL; `d` removes the selected request; Esc goes back to the list of
/// collections. Listing the collections: Up and Down move the selection;
/// Enter lists the selected collection's requests; `n` opens the name input
/// for a new collection; `d` removes the selected collection; Esc closes the
/// drawer. Removing and saving ask for the collections to be written.
#[verifier::opaque]
pub open spec fn collections_drawer_post(
    a0: App,
    t0: TuiState,
    a1: App,
    t1: TuiState,
    key: Key,
    r: (AppEvent, Effects),
) -> bool {
    let saving = (AppEvent::Idle, Effects { save_collections: true, ..no_effects() });
    let c = t0.collection_index;
    if t0.editing_collection_name {
        collection_name_post(a0, t0, a1, t1, key, r)
    } else if t0.in_collection_requests {
        let n = entry_count(a0, c);
        let i = t0.collection_request_index;
        match key {
            Key::Up => r == idle() && a1 == a0 && collection_request_selected(t0, t1, dec(i)),
            Key::Down => r == idle() && a1 == a0 && if n > 0 && i < n - 1 {
                collection_request_selected(t0, t1, (i + 1) as usize)
            } else {
                t1 == t0
            },
            Key::Enter => r == idle() && collection_loaded(a0, a1, c, i) && editor_loaded(a1, t0, t1),
            Key::Char('a') => t1 == t0 && if a0.current_request@.url.len() > 0 {
                &&& request_filed(a0, a1, c, filing_name(a0))
                &&& r == if c < a0.collections.items@.len() { saving } else { idle() }
            } else {
                r == idle() && a1 == a0
            },
            Key::Char('d') => if n > 0 {
                &&& r == saving
                &&& collection_entry_removed(a0, a1, c, i)
                &&& collection_request_selected(t0, t1, adjusted(i, removed(a0.collections.items@[c as int].entries@, i).len()))
            } else {
                r == idle() && a1 == a0 && t1 == t0
            },
            Key::Esc => r == idle() && a1 == a0 && collection_requests_shown(t0, t1, false),
            _ => r == idle() && a1 == a0 && t1 == t0,
        }
    } else {
        let k = a0.collections.items@.len();
        match key {
            Key::Up => r == idle() && a1 == a0 && collection_selected(t0, t1, dec(c)),
            Key::Down => r == idle() && a1 == a0 && if k > 0 && c < k - 1 {
                collection_selected(t0, t1, (c + 1) as usize)
            } else {
                t1 == t0
            },
            Key::Enter => r == idle() && a1 == a0 && if k > 0 {
                collection_requests_shown(t0, t1, true)
            } else {
                t1 == t0
            },
            Key::Char('n') => r == idle() && a1 == a0 && collection_name_opened(t0, t1),
            Key::Char('d') => if k > 0 {
                &&& r == saving
                &&& collection_removed(a0, a1, c)
                &&& collection_selected(t0, t1, adjusted(c, removed(a0.collections.items@, c).len()))
            } else {
                r == idle() && a1 == a0 && t1 == t0
            },
            Key::Esc => r == idle() && a1 == a0 && drawer_closed(t0, t1),
            _ => r == idle() && a1 == a0 && t1 == t0,
        }
    }
}

fn select_collection(tui: &mut TuiState, i: usize)
    ensures
        keeps_cursors(*old(tui), *final(tui)),
        collection_selected(*old(tui), *final(tui), i),
{
    proof {
        reveal(cursors_in_text);
    }
    tui.collection_index = i;
    proof {
        reveal(collection_selected);
    }
}

fn select_collection_request(tui: &mut TuiState, i: usize)
    ensures
        keeps_cursors(*old(tui), *final(tui)),
        collection_request_selected(*old(tui), *final(tui), i),
{
    proof {
        reveal(cursors_in_text);
    }
    tui.collection_request_index = i;
    proof {
        reveal(collection_request_selected);
    }
}

fn show_collection_requests(tui: &mut TuiState, open: bool)
    ensures
        keeps_cursors(*old(tui), *final(tui)),
        collection_requests_shown(*old(tui), *final(tui), open),
{
    proof {
        reveal(cursors_in_text);
    }
    tui.in_collection_requests = open;
    tui.collection_request_index = 0;
    proof {
        reveal(collection_requests_shown);
    }
}

fn open_collection_name(tui: &mut TuiState)
    ensures
        keeps_cursors(*old(tui), *final(tui)),
        collection_name_opened(*old(tui), *final(tui)),
{
    proof {
        reveal(cursors_in_text);
    }
    tui.editing_collection_name = true;
    tui.collection_name_input = String::new();
    tui.collection_name_cursor = 0;
    proof {
        reveal(collection_name_opened);
    }
}

fn drop_collection_entry(app: &mut App, c: usize, i: usize)
    ensures
        collection_entry_removed(*old(app), *final(app), c, i),
        final(app).environments == old(app).environments,
{
    proof {
        reveal(collection_entry_removed);
    }
    if c < app.collections.items.len() {
        let mut col = app.collections.items.remove(c);
        col.remove_entry(i);
        app.collections.items.insert(c, col);
        proof {
            assert forall|j: int| 0 <= j < old(app).collections.items@.len() && j != c implies
                #[trigger] app.collections.items@[j] == old(app).collections.items@[j] by {
                if j < c {
                } else {
                }
            }
        }
    }
}

fn drop_collection(app: &mut App, c: usize)
    ensures
        collection_removed(*old(app), *final(app), c),
        final(app).collections.items@ == removed(old(app).collections.items@, c),
        final(app).environments == old(app).environments,
{
    app.collections.remove_collection(c);
    proof {
        reveal(collection_removed);
    }
}

/// Saves the request being edited in collection `c` under its method and
/// URL; whether a collection changed.
fn file_request(app: &mut App, c: usize) -> (changed: bool)
    ensures
        changed == (c < old(app).collections.items@.len()),
        request_filed(*old(app), *final(app), c, filing_name(*old(app))),
        final(app).environments == old(app).environments,
{
    let m = app.current_request.method.to_string();
    let name = concat3(m.as_str(), " ", app.current_request.url.as_str());
    app.add_request_to_collection(c, name)
}

pub fn handle_drawer_collections(app: &mut App, tui: &mut TuiState, key: Key) -> (r: (AppEvent, Effects))
    requires
        old(tui).editing_collection_name ==> (edits_at_cursor(key) ==> old(tui).collection_name_cursor
            <= old(tui).collection_name_input@.len()),
    ensures
        keeps_cursors(*old(tui), *final(tui)),
        collections_drawer_post(*old(app), *old(tui), *final(app), *final(tui), key, r),
        final(app).environments == old(app).environments,
{
    proof {
        reveal(collections_drawer_post);
    }
    if tui.editing_collection_name {
        return handle_collection_name_editing(app, tui, key);
    }
    let c = tui.collection_index;
    if tui.in_collection_requests {
        let n = if c < app.collections.items.len() {
            app.collections.items[c].entries.len()
        } else {
            0
        };
        match key {
            Key::Up => {
                let i = if tui.collection_request_index > 0 {
                    tui.collection_request_index - 1
                } else {
                    0
                };
                select_collection_request(tui, i);
            },
            Key::Down => {
                if n > 0 && tui.collection_request_index < n - 1 {
                    let i = tui.collection_request_index + 1;
                    select_collection_request(tui, i);
                }
            },
            Key::Enter => {
                app.load_collection_entry(c, tui.collection_request_index);
                load_editor(app, tui);
            },
            Key::Char('a') => {
                if !app.current_request.url.as_str().is_empty() {
                    if file_request(app, c) {
                        let mut e = Effects::none();
                        e.save_collections = true;
                        return (AppEvent::Idle, e);
                    }
                }
            },
            Key::Char('d') => {
                if n > 0 {
                    let i = tui.collection_request_index;
                    drop_collection_entry(app, c, i);
                    let m = if i < n {
                        n - 1
                    } else {
                        n
                    };
                    let j = if i > 0 && i >= m {
                        i - 1
                    } else {
                        i
                    };
                    select_collection_request(tui, j);
                    let mut e = Effects::none();
                    e.save_collections = true;
                    return (AppEvent::Idle, e);
                }
            },
            Key::Esc => show_collection_requests(tui, false),
            _ => {},
        }
    } else {
        let k = app.collections.items.len();
        match key {
            Key::Up => {
                let i = if c > 0 {
                    c - 1
                } else {
                    0
                };
                select_collection(tui, i);
            },
            Key::Down => {
                if k > 0 && c < k - 1 {
                    select_collection(tui, c + 1);
                }
            },
            Key::Enter => {
                if k > 0 {
                    show_collection_requests(tui, true);
                }
            },
            Key::Char('n') => open_collection_name(tui),
            Key::Char('d') => {
                if k > 0 {
                    drop_collection(app, c);
                    let m = app.collections.items.len();
                    let j = if c > 0 && c >= m {
                        c - 1
                    } else {
                        c
                    };
                    select_collection(tui, j);
                    let mut e = Effects::none();
                    e.save_collections = true;
                    return (AppEvent::Idle, e);
                }
            },
            Key::Esc => close_drawer(tui),
            _ => {},
        }
    }
    (AppEvent::Idle, Effects::none())
}

// ── Environments drawer ──────────────────────────────────────────────────

/// The variables of environment `e`; none when there is no such
/// environment.
pub open spec fn env_vars(a: App, e: usize) -> Seq<(Seq<char>, Seq<char>)> {
    if e < a.environments.items@.len() {
        a.environments.items@[e as int].vars()
    } else {
        Seq::empty()
    }
}

/// The active environment after environment `c` is removed: none when it
/// was `c`, one lower when it came after `c`.
pub open spec fn active_after_removal(active: Option<usize>, c: usize) -> Option<usize> {
    match active {
        Some(a) => if a == c {
            None
        } else if c < a {
            Some((a - 1) as usize)
        } else {
            Some(a)
        },
        None => None,
    }
}

/// The active environment after Enter on environment `c`: none when `c`
/// was active, else `c`.
pub open spec fn active_toggled(active: Option<usize>, c: usize) -> Option<usize> {
    if active == Some(c) {
        None
    } else {
        Some(c)
    }
}

/// `t1` is `t0` with environment `i` selected.
#[verifier::opaque]
pub open spec fn environment_selected(t0: TuiState, t1: TuiState, i: usize) -> bool {
    t1 == (TuiState { environment_index: i, ..t0 })
}

/// `t1` is `t0` with variable `i` of the listed environment selected.
#[verifier::opaque]
pub open spec fn variable_selected(t0: TuiState, t1: TuiState, i: usize) -> bool {
    t1 == (TuiState { environment_variable_index: i, ..t0 })
}

/// `t1` is `t0` with the environment's variables listed (`open`) or the
/// environments listed again, the first variable selected.
#[verifier::opaque]
pub open spec fn variables_shown(t0: TuiState, t1: TuiState, open: bool) -> bool {
    t1 == (TuiState { in_environment_vars: open, environment_variable_index: 0, ..t0 })
}

/// `t1` is `t0` with the input for a new environment's name open and empty.
#[verifier::opaque]
pub open spec fn environment_name_opened(t0: TuiState, t1: TuiState) -> bool {
    &&& t1 == (TuiState {
        editing_environment_name: true,
        environment_name_input: t1.environment_name_input,
        environment_name_cursor: 0,
        ..t0
    })
    &&& t1.environment_name_input@.len() == 0
}

/// `t1` is `t0` with the variable editor open on name `k` and value `v`,
/// the cursors at their ends, the name being edited.
#[verifier::opaque]
pub open spec fn variable_opened(t0: TuiState, t1: TuiState, k: Seq<char>, v: Seq<char>) -> bool {
    &&& t1 == (TuiState {
        variable_key_input: t1.variable_key_input,
        variable_value_input: t1.variable_value_input,
        variable_key_cursor: k.len() as usize,
        variable_value_cursor: v.len() as usize,
        editing_variable_key: true,
        editing_variable: true,
        ..t0
    })
    &&& t1.variable_key_input@ == k
    &&& t1.variable_value_input@ == v
}

/// `a1` is `a0` without variable `k` in environment `e`; `a0` when there
/// is no such environment.
#[verifier::opaque]
pub open spec fn variable_removed(a0: App, a1: App, e: usize, k: Seq<char>) -> bool {
    &&& a1 == (App { environments: a1.environments, ..a0 })
    &&& a1.environments.items@.len() == a0.environments.items@.len()
    &&& forall|j: int| 0 <= j < a0.environments.items@.len() && j != e ==>
        #[trigger] a1.environments.items@[j] == a0.environments.items@[j]
    &&& e < a0.environments.items@.len() ==> {
        let e0 = a0.environments.items@[e as int];
        let e1 = a1.environments.items@[e as int];
        &&& e1.wf()
        &&& e1.name == e0.name
        &&& forall|x: Seq<char>| #[trigger] lookup(e1.vars(), x) == if x == k {
            None
        } else {
            lookup(e0.vars(), x)
        }
    }
}

/// `a1` is `a0` without environment `c`, the active environment following
/// the removal.
#[verifier::opaque]
pub open spec fn environment_removed(a0: App, a1: App, c: usize) -> bool {
    &&& a1 == (App {
        environments: a1.environments,
        active_environment: active_after_removal(a0.active_environment, c),
        ..a0
    })
    &&& a1.environments.items@ == removed(a0.environments.items@, c)
}

/// What a key needs of the state in the environments drawer: environments
/// with sorted variables; the cursor of the input a key edits within its
/// text; and, listing variables, the selection within a non-empty list for
/// Enter and `d`.
pub open spec fn environments_drawer_ready(a: App, t: TuiState, key: Key) -> bool {
    &&& a.environments.all_wf()
    &&& if t.editing_environment_name {
        edits_at_cursor(key) ==> t.environment_name_cursor <= t.environment_name_input@.len()
    } else if t.editing_variable {
        edits_at_cursor(key) ==> input_cursor(t, variable_input(t)) <= input_text(t, variable_input(t)).len()
    } else if t.in_environment_vars {
        (key == Key::Enter || key == Key::Char('d')) && env_vars(a, t.environment_index).len() > 0
            ==> t.environment_variable_index < env_vars(a, t.environment_index).len()
    } else {
        true
    }
}

/// The environments drawer. While a new environment's name or a variable is
/// typed keys go to that input. Listing an environment's variables: Up and
/// Down move the selection; Enter opens the variable editor on the selected
/// variable; `a` opens it empty; `d` removes the selected variable; Esc
/// goes back to the list of environments. Listing the environments: Up and
/// Down move the selection; Enter makes the selected environment the active
/// one, or no environment active when it already is; `v` lists its
/// variables; `n` opens the name input for a new environment; `d` removes
/// the selected environment; Esc closes the drawer. Removing asks for the
/// environments to be written.
#[verifier::opaque]
pub open spec fn environments_drawer_post(
    a0: App,
    t0: TuiState,
    a1: App,
    t1: TuiState,
    key: Key,
    r: (AppEvent, Effects),
) -> bool {
    let saving = (AppEvent::Idle, Effects { save_environments: true, ..no_effects() });
    let c = t0.environment_index;
    if t0.editing_environment_name {
        environment_name_post(a0, t0, a1, t1, key, r)
    } else if t0.editing_variable {
        variable_editing_post(a0, t0, a1, t1, key, r)
    } else if t0.in_environment_vars {
        let vars = env_vars(a0, c);
        let n = vars.len();
        let i = t0.environment_variable_index;
        match key {
            Key::Up => r == idle() && a1 == a0 && variable_selected(t0, t1, dec(i)),
            Key::Down => r == idle() && a1 == a0 && if n > 0 && i < n - 1 {
                variable_selected(t0, t1, (i + 1) as usize)
            } else {
                t1 == t0
            },
            Key::Enter => r == idle() && a1 == a0 && if n > 0 {
                variable_opened(t0, t1, vars[i as int].0, match lookup(vars, vars[i as int].0) {
                    Some(v) => v,
                    None => Seq::empty(),
                })
            } else {
                t1 == t0
            },
            Key::Char('a') => r == idle() && a1 == a0 && variable_opened(t0, t1, Seq::empty(), Seq::empty()),
            Key::Char('d') => if n > 0 {
                &&& r == saving
                &&& variable_removed(a0, a1, c, vars[i as int].0)
                &&& variable_selected(t0, t1, adjusted(i, env_vars(a1, c).len()))
            } else {
                r == idle() && a1 == a0 && t1 == t0
            },
            Key::Esc => r == idle() && a1 == a0 && variables_shown(t0, t1, false),
            _ => r == idle() && a1 == a0 && t1 == t0,
        }
    } else {
        let k = a0.environments.items@.len();
        match key {
            Key::Up => r == idle() && a1 == a0 && environment_selected(t0, t1, dec(c)),
            Key::Down => r == idle() && a1 == a0 && if k > 0 && c < k - 1 {
                environment_selected(t0, t1, (c + 1) as usize)
            } else {
                t1 == t0
            },
            Key::Enter => r == idle() && t1 == t0 && if k > 0 {
                a1 == (App { active_environment: active_toggled(a0.active_environment, c), ..a0 })
            } else {
                a1 == a0
            },
            Key::Char('v') => r == idle() && a1 == a0 && if k > 0 {
                variables_shown(t0, t1, true)
            } else {
                t1 == t0
            },
            Key::Char('n') => r == idle() && a1 == a0 && environment_name_opened(t0, t1),
            Key::Char('d') => if k > 0 {
                &&& r == saving
                &&& environment_removed(a0, a1, c)
                &&& environment_selected(t0, t1, adjusted(c, removed(a0.environments.items@, c).len()))
            } else {
                r == idle() && a1 == a0 && t1 == t0
            },
            Key::Esc => r == idle() && a1 == a0 && drawer_closed(t0, t1),
            _ => r == idle() && a1 == a0 && t1 == t0,
        }
    }
}

fn select_environment(tui: &mut TuiState, i: usize)
    ensures
        keeps_cursors(*old(tui), *final(tui)),
        environment_selected(*old(tui), *final(tui), i),
{
    proof {
        reveal(cursors_in_text);
    }
    tui.environment_index = i;
    proof {
        reveal(environment_selected);
    }
}

fn select_variable(tui: &mut TuiState, i: usize)
    ensures
        keeps_cursors(*old(tui), *final(tui)),
        variable_selected(*old(tui), *final(tui), i),
{
    proof {
        reveal(cursors_in_text);
    }
    tui.environment_variable_index = i;
    proof {
        reveal(variable_selected);
    }
}

fn show_variables(tui: &mut TuiState, open: bool)
    ensures
        keeps_cursors(*old(tui), *final(tui)),
        variables_shown(*old(tui), *final(tui), open),
{
    proof {
        reveal(cursors_in_text);
    }
    tui.in_environment_vars = open;
    tui.environment_variable_index = 0;
    proof {
        reveal(variables_shown);
    }
}

fn open_environment_name(tui: &mut TuiState)
    ensures
        keeps_cursors(*old(tui), *final(tui)),
        environment_name_opened(*old(tui), *final(tui)),
{
    proof {
        reveal(cursors_in_text);
    }
    tui.editing_environment_name = true;
    tui.environment_name_input = String::new();
    tui.environment_name_cursor = 0;
    proof {
        reveal(environment_name_opened);
    }
}

fn open_variable(tui: &mut TuiState, k: String, v: String)
    ensures
        keeps_cursors(*old(tui), *final(tui)),
        variable_opened(*old(tui), *final(tui), k@, v@),
{
    proof {
        reveal(cursors_in_text);
    }
    let kc = char_len(k.as_str());
    let vc = char_len(v.as_str());
    tui.variable_key_input = k;
    tui.variable_value_input = v;
    tui.variable_key_cursor = kc;
    tui.variable_value_cursor = vc;
    tui.editing_variable_key = true;
    tui.editing_variable = true;
    proof {
        reveal(variable_opened);
    }
}

fn drop_variable(app: &mut App, e: usize, k: String)
    requires
        old(app).environments.all_wf(),
    ensures
        variable_removed(*old(app), *final(app), e, k@),
        final(app).environments.items@.len() == old(app).environments.items@.len(),
        final(app).environments.all_wf(),
{
    proof {
        reveal(variable_removed);
    }
    if e < app.environments.items.len() {
        let mut env = app.environments.items.remove(e);
        env.remove_variable(k.as_str());
        app.environments.items.insert(e, env);
        proof {
            assert forall|j: int| 0 <= j < old(app).environments.items@.len() && j != e implies
                #[trigger] app.environments.items@[j] == old(app).environments.items@[j] by {
                if j < e {
                } else {
                }
            }
            assert forall|j: int| 0 <= j < app.environments.items@.len() implies (#[trigger] app.environments.items@[j]).wf() by {
                if j != e {
                    assert(app.environments.items@[j] == old(app).environments.items@[j]);
                }
            }
        }
    }
}

fn drop_environment(app: &mut App, c: usize)
    requires
        old(app).environments.all_wf(),
    ensures
        environment_removed(*old(app), *final(app), c),
        final(app).environments.items@ == removed(old(app).environments.items@, c),
        final(app).environments.all_wf(),
{
    let active = match app.active_environment {
        Some(a) => if a == c {
            None
        } else if c < a {
            Some(a - 1)
        } else {
            Some(a)
        },
        None => None,
    };
    app.active_environment = active;
    app.environments.remove_environment(c);
    proof {
        reveal(environment_removed);
        assert forall|j: int| 0 <= j < app.environments.items@.len() implies (#[trigger] app.environments.items@[j]).wf() by {
            if c < old(app).environments.items@.len() {
                if j < c {
                    assert(app.environments.items@[j] == old(app).environments.items@[j]);
                } else {
                    assert(app.environments.items@[j] == old(app).environments.items@[j + 1]);
                }
            } else {
                assert(app.environments.items@[j] == old(app).environments.items@[j]);
            }
        }
    }
}

fn toggle_active_environment(app: &mut App, c: usize)
    ensures
        *final(app) == (App { active_environment: active_toggled(old(app).active_environment, c), ..*old(app) }),
{
    let active = if app.active_environment == Some(c) {
        None
    } else {
        Some(c)
    };
    app.active_environment = active;
}

pub fn handle_drawer_environments(app: &mut App, tui: &mut TuiState, key: Key) -> (r: (AppEvent, Effects))
    requires
        environments_drawer_ready(*old(app), *old(tui), key),
    ensures
        keeps_cursors(*old(tui), *final(tui)),
        environments_drawer_post(*old(app), *old(tui), *final(app), *final(tui), key, r),
        final(app).environments.all_wf(),
{
    proof {
        reveal(environments_drawer_post);
    }
    if tui.editing_environment_name {
        return handle_environment_name_editing(app, tui, key);
    }
    if tui.editing_variable {
        return handle_variable_editing(app, tui, key);
    }
    let c = tui.environment_index;
    if tui.in_environment_vars {
        let n = if c < app.environments.items.len() {
            app.environments.items[c].variables.len()
        } else {
            0
        };
        match key {
            Key::Up => {
                let i = if tui.environment_variable_index > 0 {
                    tui.environment_variable_index - 1
                } else {
                    0
                };
                select_variable(tui, i);
            },
            Key::Down => {
                if n > 0 && tui.environment_variable_index < n - 1 {
                    let i = tui.environment_variable_index + 1;
                    select_variable(tui, i);
                }
            },
            Key::Enter => {
                if n > 0 {
                    let keys = app.environments.items[c].sorted_keys();
                    let k = keys[tui.environment_variable_index].clone();
                    let v = match app.environments.items[c].get_variable(k.as_str()) {
                        Some(v) => v,
                        None => String::new(),
                    };
                    open_variable(tui, k, v);
                }
            },
            Key::Char('a') => open_variable(tui, String::new(), String::new()),
            Key::Char('d') => {
                if n > 0 {
                    let keys = app.environments.items[c].sorted_keys();
                    let k = keys[tui.environment_variable_index].clone();
                    drop_variable(app, c, k);
                    let m = app.environments.items[c].variables.len();
                    let i = tui.environment_variable_index;
                    let j = if i > 0 && i >= m {
                        i - 1
                    } else {
                        i
                    };
                    select_variable(tui, j);
                    let mut e = Effects::none();
                    e.save_environments = true;
                    return (AppEvent::Idle, e);
                }
            },
            Key::Esc => show_variables(tui, false),
            _ => {},
        }
    } else {
        let k = app.environments.items.len();
        match key {
            Key::Up => {
                let i = if c > 0 {
                    c - 1
                } else {
                    0
                };
                select_environment(tui, i);
            },
            Key::Down => {
                if k > 0 && c < k - 1 {
                    select_environment(tui, c + 1);
                }
            },
            Key::Enter => {
                if k > 0 {
                    toggle_active_environment(app, c);
                }
            },
            Key::Char('v') => {
                if k > 0 {
                    show_variables(tui, true);
                }
            },
            Key::Char('n') => open_environment_name(tui),
            Key::Char('d') => {
                if k > 0 {
                    drop_environment(app, c);
                    let m = app.environments.items.len();
                    let j = if c > 0 && c >= m {
                        c - 1
                    } else {
                        c
                    };
                    select_environment(tui, j);
                    let mut e = Effects::none();
                    e.save_environments = true;
                    return (AppEvent::Idle, e);
                }
            },
            Key::Esc => close_drawer(tui),
            _ => {},
        }
    }
    (AppEvent::Idle, Effects::none())
}

} // verus!
