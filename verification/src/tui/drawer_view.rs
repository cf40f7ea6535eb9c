//! What the drawers show: the history, the collections and the
//! environments, with their titles, lists and key hints.
use vstd::prelude::*;
use crate::app::App;
use crate::models::request::{parse_method, Method};
use crate::text::{char_len, concat2, concat3, decimal, u16_to_decimal, usize_to_decimal};
use crate::tui::screen::{field_look, or_placeholder, sat_sub};
use crate::tui::state::{filtered, TuiState};
use crate::tui::view::{badge, badge_look, bold, bold_look, fg, fg_look, first_chars, first_chars_exec, method_color, method_tone_of, pad_left, pad_left_exec, piece, piece_of, pieces, plain, rv, scroll_offset, scroll_offset_of, status_color, status_tone_of, truncate, truncated, underlined, underlined_look, Look, Piece, Row, Tone};

verus! {

broadcast use vstd::string::group_string_axioms;

/// What a drawer's list area holds: a line of text, or list rows.
pub enum DrawerBody {
    Text(Vec<Piece>),
    Rows(Vec<Row>),
}

/// A drawer: title and border colour, the search line (history only), the
/// list area, the key hints, and the cursor (column, line of the list
/// area) while a name or variable is typed.
pub struct DrawerView {
    pub title: String,
    pub border: Tone,
    pub search: Option<Vec<Piece>>,
    pub body: Option<DrawerBody>,
    pub help: Option<Vec<Piece>>,
    pub cursor: Option<(usize, usize)>,
}

/// The list area as texts and looks.
pub enum BodyShape {
    Text(Seq<(Seq<char>, Look)>),
    Rows(Seq<(Seq<(Seq<char>, Look)>, bool)>),
}

/// A drawer as texts and looks.
pub struct DrawerShape {
    pub title: Seq<char>,
    pub border: Tone,
    pub search: Option<Seq<(Seq<char>, Look)>>,
    pub body: Option<BodyShape>,
    pub help: Option<Seq<(Seq<char>, Look)>>,
    pub cursor: Option<(int, int)>,
}

pub open spec fn opt_pieces(o: Option<Vec<Piece>>) -> Option<Seq<(Seq<char>, Look)>> {
    match o {
        Some(v) => Some(pieces(v@)),
        None => None,
    }
}

pub open spec fn body_shape(b: DrawerBody) -> BodyShape {
    match b {
        DrawerBody::Text(v) => BodyShape::Text(pieces(v@)),
        DrawerBody::Rows(r) => BodyShape::Rows(crate::tui::view::rows(r@)),
    }
}

pub open spec fn shape(v: DrawerView) -> DrawerShape {
    DrawerShape {
        title: v.title@,
        border: v.border,
        search: opt_pieces(v.search),
        body: match v.body {
            Some(b) => Some(body_shape(b)),
            None => None,
        },
        help: opt_pieces(v.help),
        cursor: match v.cursor {
            Some((x, y)) => Some((x as int, y as int)),
            None => None,
        },
    }
}

/// The method a saved method name stands for; GET when it names none.
pub open spec fn method_or_get(name: Seq<char>) -> Method {
    match parse_method(name) {
        Some(m) => m,
        None => Method::GET,
    }
}

/// The selection marker of a list row.
pub open spec fn marker(selected: bool) -> Seq<char> {
    if selected {
        " \u{25b6} "@
    } else {
        "   "@
    }
}

/// The short method badge of a saved request: its first four letters,
/// right-aligned, black on the method's colour.
pub open spec fn short_badge(method: Seq<char>) -> (Seq<char>, Look) {
    (pad_left(first_chars(method, 4), 4), badge(method_tone_of(method_or_get(method))))
}

/// Key hints: pairs of a key, drawn bold in its colour, and what it does.
pub open spec fn hint(key: Seq<char>, t: Tone, what: Seq<char>) -> Seq<(Seq<char>, Look)> {
    seq![(key, bold(t)), (what, fg(Tone::White))]
}

pub open spec fn history_help() -> Seq<(Seq<char>, Look)> {
    hint(" h"@, Tone::Magenta, ":close  "@) + hint("\u{2191}\u{2193}"@, Tone::Cyan, ":nav  "@) + hint(
        "Enter"@,
        Tone::Green,
        ":load  "@,
    ) + hint("d"@, Tone::Red, ":del  "@) + hint("/"@, Tone::Magenta, ":search  "@) + hint(
        "Esc"@,
        Tone::Cyan,
        ":close"@,
    )
}

pub open spec fn collection_requests_help() -> Seq<(Seq<char>, Look)> {
    hint(" c"@, Tone::Cyan, ":close  "@) + hint("\u{2191}\u{2193}"@, Tone::Cyan, ":nav  "@) + hint(
        "Enter"@,
        Tone::Green,
        ":load  "@,
    ) + hint("a"@, Tone::Green, ":save req  "@) + hint("d"@, Tone::Red, ":del  "@) + hint(
        "Esc"@,
        Tone::Cyan,
        ":back"@,
    )
}

pub open spec fn collections_help() -> Seq<(Seq<char>, Look)> {
    hint(" c"@, Tone::Cyan, ":close  "@) + hint("\u{2191}\u{2193}"@, Tone::Cyan, ":nav  "@) + hint(
        "Enter"@,
        Tone::Green,
        ":open  "@,
    ) + hint("n"@, Tone::Green, ":new  "@) + hint("d"@, Tone::Red, ":del  "@) + hint("Esc"@, Tone::Cyan, ":close"@)
}

pub open spec fn variables_help() -> Seq<(Seq<char>, Look)> {
    hint(" e"@, Tone::Green, ":close  "@) + hint("\u{2191}\u{2193}"@, Tone::Cyan, ":nav  "@) + hint(
        "Enter"@,
        Tone::Green,
        ":edit  "@,
    ) + hint("a"@, Tone::Green, ":add  "@) + hint("d"@, Tone::Red, ":del  "@) + hint("Esc"@, Tone::Cyan, ":back"@)
}

pub open spec fn environments_help() -> Seq<(Seq<char>, Look)> {
    hint(" e"@, Tone::Green, ":close  "@) + hint("\u{2191}\u{2193}"@, Tone::Cyan, ":nav  "@) + hint(
        "Enter"@,
        Tone::Green,
        ":activate  "@,
    ) + hint("v"@, Tone::Cyan, ":vars  "@) + hint("n"@, Tone::Green, ":new  "@) + hint("d"@, Tone::Red, ":del  "@)
        + hint("Esc"@, Tone::Cyan, ":close"@)
}

fn push_hint(v: &mut Vec<Piece>, key: &str, t: Tone, what: &str)
    ensures
        pieces(final(v)@) == pieces(old(v)@) + hint(key@, t, what@),
{
    let ghost before = pieces(v@);
    v.push(piece(key, bold_look(t)));
    v.push(piece(what, fg_look(Tone::White)));
    assert(pieces(v@) =~= before + hint(key@, t, what@));
}

fn history_help_exec() -> (r: Vec<Piece>)
    ensures
        pieces(r@) == history_help(),
{
    let mut v: Vec<Piece> = Vec::new();
    assert(pieces(v@) =~= Seq::<(Seq<char>, Look)>::empty());
    push_hint(&mut v, " h", Tone::Magenta, ":close  ");
    push_hint(&mut v, "\u{2191}\u{2193}", Tone::Cyan, ":nav  ");
    push_hint(&mut v, "Enter", Tone::Green, ":load  ");
    push_hint(&mut v, "d", Tone::Red, ":del  ");
    push_hint(&mut v, "/", Tone::Magenta, ":search  ");
    push_hint(&mut v, "Esc", Tone::Cyan, ":close");
    assert(pieces(v@) =~= history_help());
    v
}

fn collections_help_exec(requests: bool) -> (r: Vec<Piece>)
    ensures
        pieces(r@) == if requests { collection_requests_help() } else { collections_help() },
{
    let mut v: Vec<Piece> = Vec::new();
    assert(pieces(v@) =~= Seq::<(Seq<char>, Look)>::empty());
    push_hint(&mut v, " c", Tone::Cyan, ":close  ");
    push_hint(&mut v, "\u{2191}\u{2193}", Tone::Cyan, ":nav  ");
    if requests {
        push_hint(&mut v, "Enter", Tone::Green, ":load  ");
        push_hint(&mut v, "a", Tone::Green, ":save req  ");
        push_hint(&mut v, "d", Tone::Red, ":del  ");
        push_hint(&mut v, "Esc", Tone::Cyan, ":back");
        assert(pieces(v@) =~= collection_requests_help());
    } else {
        push_hint(&mut v, "Enter", Tone::Green, ":open  ");
        push_hint(&mut v, "n", Tone::Green, ":new  ");
        push_hint(&mut v, "d", Tone::Red, ":del  ");
        push_hint(&mut v, "Esc", Tone::Cyan, ":close");
        assert(pieces(v@) =~= collections_help());
    }
    v
}

fn environments_help_exec(vars: bool) -> (r: Vec<Piece>)
    ensures
        pieces(r@) == if vars { variables_help() } else { environments_help() },
{
    let mut v: Vec<Piece> = Vec::new();
    assert(pieces(v@) =~= Seq::<(Seq<char>, Look)>::empty());
    push_hint(&mut v, " e", Tone::Green, ":close  ");
    push_hint(&mut v, "\u{2191}\u{2193}", Tone::Cyan, ":nav  ");
    if vars {
        push_hint(&mut v, "Enter", Tone::Green, ":edit  ");
        push_hint(&mut v, "a", Tone::Green, ":add  ");
        push_hint(&mut v, "d", Tone::Red, ":del  ");
        push_hint(&mut v, "Esc", Tone::Cyan, ":back");
        assert(pieces(v@) =~= variables_help());
    } else {
        push_hint(&mut v, "Enter", Tone::Green, ":activate  ");
        push_hint(&mut v, "v", Tone::Cyan, ":vars  ");
        push_hint(&mut v, "n", Tone::Green, ":new  ");
        push_hint(&mut v, "d", Tone::Red, ":del  ");
        push_hint(&mut v, "Esc", Tone::Cyan, ":close");
        assert(pieces(v@) =~= environments_help());
    }
    v
}

fn marker_exec(selected: bool) -> (s: &'static str)
    ensures
        s@ == marker(selected),
{
    if selected {
        " \u{25b6} "
    } else {
        "   "
    }
}

fn short_badge_exec(method: &String) -> (p: Piece)
    ensures
        crate::tui::view::pv(p) == short_badge(method@),
{
    let m = match Method::from_str(method.as_str()) {
        Ok(m) => m,
        Err(_) => Method::GET,
    };
    let first = first_chars_exec(method.as_str(), 4);
    piece_of(pad_left_exec(first.as_str(), 4), badge_look(method_color(m)))
}

/// The rows of a list window: rows `offset` to `offset + visible` of the
/// `n` rows, as far as there are.
pub open spec fn window_len(n: nat, offset: nat, visible: nat) -> nat {
    if offset >= n {
        0
    } else if n - offset < visible {
        (n - offset) as nat
    } else {
        visible
    }
}

fn window_end(n: usize, offset: usize, visible: usize) -> (e: usize)
    requires
        offset < n,
    ensures
        offset <= e <= n,
        e - offset == window_len(n as nat, offset as nat, visible as nat),
{
    if n - offset < visible {
        n
    } else {
        offset + visible
    }
}

// ── History drawer ───────────────────────────────────────────────────────

/// A history row: marker, method badge, URL (cut to the list's width less
/// twelve columns) and the status code in its colour.
pub open spec fn history_row(a: App, t: TuiState, f: Seq<usize>, d: int, width: nat) -> (Seq<(Seq<char>, Look)>, bool) {
    let e = a.history.entries@[f[d] as int];
    let sel = d == t.history_index;
    let status = match e.status {
        Some(s) => (" "@ + pad_left(decimal(s as nat), 3), fg(status_tone_of(s))),
        None => ("    "@, plain()),
    };
    (
        seq![
            (marker(sel), fg(Tone::Magenta)),
            short_badge(e.method@),
            (" "@, plain()),
            (truncated(e.url@, sat_sub(width, 12)), fg(Tone::White)),
            status,
        ],
        sel,
    )
}

/// The history drawer with an inner area of
/// `width` columns and `height` lines.
pub open spec fn history_drawer_of(a: App, t: TuiState, width: nat, height: nat) -> DrawerShape {
    let f = filtered(t.history_search_input@, a.history.entries@);
    let total = a.history.entries@.len();
    let q = t.history_search_input@;
    let title = if q.len() == 0 {
        " HISTORY ["@ + decimal(total) + "]  /=search "@
    } else {
        " HISTORY ["@ + decimal(f.len()) + "/"@ + decimal(total) + "]  /=search "@
    };
    if height == 0 {
        DrawerShape { title, border: Tone::Magenta, search: None, body: None, help: None, cursor: None }
    } else {
        let searching = t.history_search_active || q.len() > 0;
        let list_h = sat_sub(height, if searching { 2 } else { 1 });
        let search = if searching {
            Some(
                seq![
                    ("/ "@, bold(Tone::Magenta)),
                    (q + if t.history_search_active { "\u{2588}"@ } else { ""@ }, fg(Tone::White)),
                ],
            )
        } else {
            None
        };
        let body = if f.len() == 0 {
            BodyShape::Text(
                seq![(if total == 0 { " (empty)"@ } else { " (no results)"@ }, fg(Tone::DarkGray))],
            )
        } else {
            let offset = scroll_offset_of(t.history_index, list_h as usize);
            BodyShape::Rows(
                Seq::new(
                    window_len(f.len(), offset as nat, list_h),
                    |j: int| history_row(a, t, f, offset + j, width),
                ),
            )
        };
        DrawerShape { title, border: Tone::Magenta, search, body: Some(body), help: Some(history_help()), cursor: None }
    }
}

fn history_status_piece(status: Option<u16>) -> (p: Piece)
    ensures
        crate::tui::view::pv(p) == match status {
            Some(s) => (" "@ + pad_left(decimal(s as nat), 3), fg(status_tone_of(s))),
            None => ("    "@, plain()),
        },
{
    match status {
        Some(s) => {
            let d = u16_to_decimal(s);
            let padded = pad_left_exec(d.as_str(), 3);
            piece_of(concat2(" ", padded.as_str()), fg_look(status_color(s)))
        },
        None => piece("    ", fg_look(Tone::Plain)),
    }
}

/// The history drawer for an inner area `width`
/// columns wide and `height` lines high.
pub fn history_drawer(app: &App, tui: &TuiState, width: usize, height: usize) -> (r: DrawerView)
    requires
        tui.history_index < usize::MAX,
    ensures
        shape(r) == history_drawer_of(*app, *tui, width as nat, height as nat),
{
    let f = tui.history_filtered_indices(app.history.entries.as_slice());
    let total = app.history.entries.len();
    let q_empty = tui.history_search_input.as_str().is_empty();
    let title = if q_empty {
        let d = usize_to_decimal(total);
        concat3(" HISTORY [", d.as_str(), "]  /=search ")
    } else {
        let a = usize_to_decimal(f.len());
        let d = usize_to_decimal(total);
        let x = concat3(" HISTORY [", a.as_str(), "/");
        concat3(x.as_str(), d.as_str(), "]  /=search ")
    };
    let ghost want = history_drawer_of(*app, *tui, width as nat, height as nat);
    if height == 0 {
        let r = DrawerView { title, border: Tone::Magenta, search: None, body: None, help: None, cursor: None };
        assert(shape(r) == want);
        return r;
    }
    let searching = tui.history_search_active || !q_empty;
    let list_h = crate::tui::screen::sat_exec(height, if searching { 2 } else { 1 });
    let search = if searching {
        let mut l: Vec<Piece> = Vec::new();
        l.push(piece("/ ", bold_look(Tone::Magenta)));
        let mark = if tui.history_search_active {
            "\u{2588}"
        } else {
            ""
        };
        l.push(piece_of(concat2(tui.history_search_input.as_str(), mark), fg_look(Tone::White)));
        assert(Some(pieces(l@)) =~= want.search);
        Some(l)
    } else {
        None
    };
    let body = if f.len() == 0 {
        let msg = if total == 0 {
            " (empty)"
        } else {
            " (no results)"
        };
        let mut l: Vec<Piece> = Vec::new();
        l.push(piece(msg, fg_look(Tone::DarkGray)));
        assert(pieces(l@) =~= seq![(msg@, fg(Tone::DarkGray))]);
        DrawerBody::Text(l)
    } else {
        let offset = scroll_offset(tui.history_index, list_h);
        let end = if offset < f.len() {
            window_end(f.len(), offset, list_h)
        } else {
            offset
        };
        let row_w = crate::tui::screen::sat_exec(width, 12);
        let mut out: Vec<Row> = Vec::new();
        let mut d: usize = offset;
        while d < end
            invariant
                offset <= d <= end,
                end <= f@.len() || end == offset,
                end - offset == window_len(f@.len(), offset as nat, list_h as nat),
                f@ == filtered(tui.history_search_input@, app.history.entries@),
                forall|k: int| 0 <= k < f@.len() ==> (#[trigger] f@[k] as int) < app.history.entries@.len(),
                row_w as nat == sat_sub(width as nat, 12),
                out@.len() == d - offset,
                forall|k: int| 0 <= k < out@.len() ==> rv(#[trigger] out@[k]) == history_row(
                    *app,
                    *tui,
                    f@,
                    offset + k,
                    width as nat,
                ),
            decreases end - d,
        {
            let e = &app.history.entries[f[d]];
            let sel = d == tui.history_index;
            let mut l: Vec<Piece> = Vec::new();
            l.push(piece(marker_exec(sel), fg_look(Tone::Magenta)));
            l.push(short_badge_exec(&e.method));
            l.push(piece(" ", fg_look(Tone::Plain)));
            l.push(piece_of(truncate(e.url.as_str(), row_w), fg_look(Tone::White)));
            l.push(history_status_piece(e.status));
            let row = Row { pieces: l, highlighted: sel };
            assert(pieces(row.pieces@) =~= history_row(*app, *tui, f@, d as int, width as nat).0);
            out.push(row);
            d += 1;
        }
        assert(crate::tui::view::rows(out@) =~= Seq::new(
            window_len(f@.len(), offset as nat, list_h as nat),
            |j: int| history_row(*app, *tui, f@, offset + j, width as nat),
        ));
        DrawerBody::Rows(out)
    };
    let r = DrawerView {
        title,
        border: Tone::Magenta,
        search,
        body: Some(body),
        help: Some(history_help_exec()),
        cursor: None,
    };
    assert(shape(r).title == want.title);
    assert(shape(r).search == want.search);
    assert(shape(r).body == want.body);
    assert(shape(r).help == want.help);
    assert(shape(r) == want);
    r
}

// ── Collections drawer ───────────────────────────────────────────────────

/// The line of a name being typed: the label and the name (a placeholder
/// when empty), underlined in yellow.
pub open spec fn name_line(input: Seq<char>) -> Seq<(Seq<char>, Look)> {
    seq![("Name: "@, fg(Tone::White)), (or_placeholder(input, "..."@), underlined(Tone::Yellow))]
}

/// A row of a collection's requests: marker, method badge and URL (cut to
/// the list's width less ten columns).
pub open spec fn entry_row(a: App, t: TuiState, c: int, i: int, width: nat) -> (Seq<(Seq<char>, Look)>, bool) {
    let e = a.collections.items@[c].entries@[i];
    let sel = i == t.collection_request_index;
    (
        seq![
            (marker(sel), fg(Tone::Cyan)),
            short_badge(e.method@),
            (" "@, plain()),
            (truncated(e.url@, sat_sub(width, 10)), fg(Tone::White)),
        ],
        sel,
    )
}

/// A row of the collection list: marker, name in bold and the number of
/// requests.
pub open spec fn collection_row(a: App, t: TuiState, i: int) -> (Seq<(Seq<char>, Look)>, bool) {
    let c = a.collections.items@[i];
    let sel = i == t.collection_index;
    (
        seq![
            (marker(sel), fg(Tone::Cyan)),
            (c.name@, bold(Tone::White)),
            (" ("@ + decimal(c.entries@.len()) + ")"@, fg(Tone::DarkGray)),
        ],
        sel,
    )
}

/// The collections drawer with an inner area
/// of `width` columns and `height` lines.
pub open spec fn collections_drawer_of(a: App, t: TuiState, width: nat, height: nat) -> DrawerShape {
    let n = a.collections.items@.len();
    let title = " COLLECTIONS ["@ + decimal(n) + "] "@;
    let help = Some(if t.in_collection_requests { collection_requests_help() } else { collections_help() });
    let list_h = sat_sub(height, 1);
    let gray = fg(Tone::DarkGray);
    if height == 0 {
        DrawerShape { title, border: Tone::Cyan, search: None, body: None, help: None, cursor: None }
    } else if t.editing_collection_name {
        DrawerShape {
            title,
            border: Tone::Cyan,
            search: None,
            body: Some(BodyShape::Text(name_line(t.collection_name_input@))),
            help,
            cursor: Some((5 + t.collection_name_cursor, 0)),
        }
    } else if t.in_collection_requests {
        let c = t.collection_index;
        if c >= n {
            DrawerShape {
                title,
                border: Tone::Cyan,
                search: None,
                body: Some(BodyShape::Text(seq![(" (error)"@, fg(Tone::Red))])),
                help: None,
                cursor: None,
            }
        } else {
            let m = a.collections.items@[c as int].entries@.len();
            let body = if m == 0 {
                BodyShape::Text(seq![(" (empty)"@, gray)])
            } else {
                let offset = scroll_offset_of(t.collection_request_index, list_h as usize);
                BodyShape::Rows(
                    Seq::new(
                        window_len(m, offset as nat, list_h),
                        |j: int| entry_row(a, t, c as int, offset + j, width),
                    ),
                )
            };
            DrawerShape { title, border: Tone::Cyan, search: None, body: Some(body), help, cursor: None }
        }
    } else if n == 0 {
        DrawerShape {
            title,
            border: Tone::Cyan,
            search: None,
            body: Some(BodyShape::Text(seq![(" (empty)  n:new"@, gray)])),
            help,
            cursor: None,
        }
    } else {
        let offset = scroll_offset_of(t.collection_index, list_h as usize);
        DrawerShape {
            title,
            border: Tone::Cyan,
            search: None,
            body: Some(
                BodyShape::Rows(
                    Seq::new(window_len(n, offset as nat, list_h), |j: int| collection_row(a, t, offset + j)),
                ),
            ),
            help,
            cursor: None,
        }
    }
}

fn name_line_exec(input: &String) -> (r: Vec<Piece>)
    ensures
        pieces(r@) == name_line(input@),
{
    let mut l: Vec<Piece> = Vec::new();
    l.push(piece("Name: ", fg_look(Tone::White)));
    let shown = if input.as_str().is_empty() {
        "...".to_string()
    } else {
        input.clone()
    };
    l.push(piece_of(shown, underlined_look(Tone::Yellow)));
    assert(pieces(l@) =~= name_line(input@));
    l
}

fn text_body(msg: &str, look: Look) -> (b: DrawerBody)
    ensures
        body_shape(b) == BodyShape::Text(seq![(msg@, look)]),
{
    let mut l: Vec<Piece> = Vec::new();
    l.push(piece(msg, look));
    assert(pieces(l@) =~= seq![(msg@, look)]);
    DrawerBody::Text(l)
}

fn entry_rows(app: &App, tui: &TuiState, c: usize, list_h: usize, width: usize) -> (r: Vec<Row>)
    requires
        c < app.collections.items@.len(),
        tui.collection_request_index < usize::MAX,
    ensures
        crate::tui::view::rows(r@) == ({
            let m = app.collections.items@[c as int].entries@.len();
            let offset = scroll_offset_of(tui.collection_request_index, list_h);
            Seq::new(window_len(m, offset as nat, list_h as nat), |j: int| entry_row(*app, *tui, c as int, offset + j, width as nat))
        }),
{
    let entries = &app.collections.items[c].entries;
    let offset = scroll_offset(tui.collection_request_index, list_h);
    let end = if offset < entries.len() {
        window_end(entries.len(), offset, list_h)
    } else {
        offset
    };
    let row_w = crate::tui::screen::sat_exec(width, 10);
    let mut out: Vec<Row> = Vec::new();
    let mut i: usize = offset;
    while i < end
        invariant
            offset <= i <= end,
            end <= entries@.len() || end == offset,
            end - offset == window_len(entries@.len(), offset as nat, list_h as nat),
            entries@ == app.collections.items@[c as int].entries@,
            row_w as nat == sat_sub(width as nat, 10),
            out@.len() == i - offset,
            forall|k: int| 0 <= k < out@.len() ==> rv(#[trigger] out@[k]) == entry_row(
                *app,
                *tui,
                c as int,
                offset + k,
                width as nat,
            ),
        decreases end - i,
    {
        let e = &entries[i];
        let sel = i == tui.collection_request_index;
        let mut l: Vec<Piece> = Vec::new();
        l.push(piece(marker_exec(sel), fg_look(Tone::Cyan)));
        l.push(short_badge_exec(&e.method));
        l.push(piece(" ", fg_look(Tone::Plain)));
        l.push(piece_of(truncate(e.url.as_str(), row_w), fg_look(Tone::White)));
        let row = Row { pieces: l, highlighted: sel };
        assert(pieces(row.pieces@) =~= entry_row(*app, *tui, c as int, i as int, width as nat).0);
        out.push(row);
        i += 1;
    }
    assert(crate::tui::view::rows(out@) =~= Seq::new(
        window_len(entries@.len(), offset as nat, list_h as nat),
        |j: int| entry_row(*app, *tui, c as int, offset + j, width as nat),
    ));
    out
}

fn collection_rows(app: &App, tui: &TuiState, list_h: usize) -> (r: Vec<Row>)
    requires
        tui.collection_index < usize::MAX,
    ensures
        crate::tui::view::rows(r@) == ({
            let n = app.collections.items@.len();
            let offset = scroll_offset_of(tui.collection_index, list_h);
            Seq::new(window_len(n, offset as nat, list_h as nat), |j: int| collection_row(*app, *tui, offset + j))
        }),
{
    let items = &app.collections.items;
    let offset = scroll_offset(tui.collection_index, list_h);
    let end = if offset < items.len() {
        window_end(items.len(), offset, list_h)
    } else {
        offset
    };
    let mut out: Vec<Row> = Vec::new();
    let mut i: usize = offset;
    while i < end
        invariant
            offset <= i <= end,
            end <= items@.len() || end == offset,
            end - offset == window_len(items@.len(), offset as nat, list_h as nat),
            items@ == app.collections.items@,
            out@.len() == i - offset,
            forall|k: int| 0 <= k < out@.len() ==> rv(#[trigger] out@[k]) == collection_row(*app, *tui, offset + k),
        decreases end - i,
    {
        let col = &items[i];
        let sel = i == tui.collection_index;
        let mut l: Vec<Piece> = Vec::new();
        l.push(piece(marker_exec(sel), fg_look(Tone::Cyan)));
        l.push(piece_of(col.name.clone(), bold_look(Tone::White)));
        let d = usize_to_decimal(col.entries.len());
        l.push(piece_of(concat3(" (", d.as_str(), ")"), fg_look(Tone::DarkGray)));
        let row = Row { pieces: l, highlighted: sel };
        assert(pieces(row.pieces@) =~= collection_row(*app, *tui, i as int).0);
        out.push(row);
        i += 1;
    }
    assert(crate::tui::view::rows(out@) =~= Seq::new(
        window_len(items@.len(), offset as nat, list_h as nat),
        |j: int| collection_row(*app, *tui, offset + j),
    ));
    out
}

/// The collections drawer for an inner area
/// `width` columns wide and `height` lines high.
pub fn collections_drawer(app: &App, tui: &TuiState, width: usize, height: usize) -> (r: DrawerView)
    requires
        tui.collection_index < usize::MAX,
        tui.collection_request_index < usize::MAX,
        tui.collection_name_cursor + 5 <= usize::MAX,
    ensures
        shape(r) == collections_drawer_of(*app, *tui, width as nat, height as nat),
{
    let ghost want = collections_drawer_of(*app, *tui, width as nat, height as nat);
    let n = app.collections.items.len();
    let d = usize_to_decimal(n);
    let title = concat3(" COLLECTIONS [", d.as_str(), "] ");
    if height == 0 {
        return DrawerView { title, border: Tone::Cyan, search: None, body: None, help: None, cursor: None };
    }
    let list_h = crate::tui::screen::sat_exec(height, 1);
    let help = collections_help_exec(tui.in_collection_requests);
    if tui.editing_collection_name {
        let body = DrawerBody::Text(name_line_exec(&tui.collection_name_input));
        let r = DrawerView {
            title,
            border: Tone::Cyan,
            search: None,
            body: Some(body),
            help: Some(help),
            cursor: Some((5 + tui.collection_name_cursor, 0)),
        };
        assert(shape(r) == want);
        return r;
    }
    if tui.in_collection_requests {
        let c = tui.collection_index;
        if c >= n {
            let r = DrawerView {
                title,
                border: Tone::Cyan,
                search: None,
                body: Some(text_body(" (error)", fg_look(Tone::Red))),
                help: None,
                cursor: None,
            };
            assert(shape(r) == want);
            return r;
        }
        let body = if app.collections.items[c].entries.len() == 0 {
            text_body(" (empty)", fg_look(Tone::DarkGray))
        } else {
            DrawerBody::Rows(entry_rows(app, tui, c, list_h, width))
        };
        let r = DrawerView { title, border: Tone::Cyan, search: None, body: Some(body), help: Some(help), cursor: None };
        assert(shape(r) == want);
        return r;
    }
    let body = if n == 0 {
        text_body(" (empty)  n:new", fg_look(Tone::DarkGray))
    } else {
        DrawerBody::Rows(collection_rows(app, tui, list_h))
    };
    let r = DrawerView { title, border: Tone::Cyan, search: None, body: Some(body), help: Some(help), cursor: None };
    assert(shape(r) == want);
    r
}

// ── Environments drawer ──────────────────────────────────────────────────

/// The line of the variable being typed: name (cyan unless typed) `=`
/// value (white unless typed), placeholders when empty.
pub open spec fn variable_line(t: TuiState) -> Seq<(Seq<char>, Look)> {
    seq![
        (or_placeholder(t.variable_key_input@, "key"@), field_look(t.editing_variable_key, fg(Tone::Cyan))),
        ("="@, fg(Tone::DarkGray)),
        (or_placeholder(t.variable_value_input@, "val"@), field_look(!t.editing_variable_key, fg(Tone::White))),
    ]
}

/// Where the cursor of the variable being typed stands.
pub open spec fn variable_cursor(t: TuiState) -> (int, int) {
    if t.editing_variable_key {
        (t.variable_key_cursor as int, 0)
    } else {
        let kl = if t.variable_key_input@.len() == 0 { 3 } else { t.variable_key_input@.len() as int };
        (kl + 1 + t.variable_value_cursor, 0)
    }
}

/// A variable's row: marker, name, `=` and the value cut to what the row
/// leaves of the list's width.
pub open spec fn variable_row(t: TuiState, vars: Seq<(Seq<char>, Seq<char>)>, i: int, width: nat) -> (Seq<(Seq<char>, Look)>, bool) {
    let sel = i == t.environment_variable_index;
    let k = vars[i].0;
    let v = vars[i].1;
    let room = sat_sub(width, k.len() + 7);
    let shown = if v.len() > room { v.take(crate::tui::view::minus_one(room) as int) } else { v };
    (seq![(marker(sel), fg(Tone::Green)), (k, fg(Tone::Cyan)), ("="@, fg(Tone::DarkGray)), (shown, fg(Tone::White))], sel)
}

/// An environment's row: marker, name in bold, and a mark when it is the
/// active one.
pub open spec fn environment_row(a: App, t: TuiState, i: int) -> (Seq<(Seq<char>, Look)>, bool) {
    let sel = i == t.environment_index;
    (
        seq![
            (marker(sel), fg(Tone::Green)),
            (a.environments.items@[i].name@, bold(Tone::White)),
            if a.active_environment == Some(i as usize) {
                (" \u{2605} active"@, bold(Tone::Green))
            } else {
                (""@, plain())
            },
        ],
        sel,
    )
}

/// The environments drawer with an inner area
/// of `width` columns and `height` lines.
pub open spec fn environments_drawer_of(a: App, t: TuiState, width: nat, height: nat) -> DrawerShape {
    let n = a.environments.items@.len();
    let title = " ENVIRONMENTS ["@ + decimal(n) + "]"@;
    let help = Some(if t.in_environment_vars { variables_help() } else { environments_help() });
    let list_h = sat_sub(height, 1);
    let gray = fg(Tone::DarkGray);
    let nothing = DrawerShape { title, border: Tone::Green, search: None, body: None, help: None, cursor: None };
    if height == 0 {
        nothing
    } else if t.editing_environment_name {
        DrawerShape {
            title,
            border: Tone::Green,
            search: None,
            body: Some(BodyShape::Text(name_line(t.environment_name_input@))),
            help,
            cursor: Some((5 + t.environment_name_cursor, 0)),
        }
    } else if t.in_environment_vars {
        let e = t.environment_index;
        if e >= n {
            nothing
        } else if t.editing_variable {
            DrawerShape {
                title,
                border: Tone::Green,
                search: None,
                body: Some(BodyShape::Text(variable_line(t))),
                help: None,
                cursor: Some(variable_cursor(t)),
            }
        } else {
            let vars = a.environments.items@[e as int].vars();
            let body = if vars.len() == 0 {
                BodyShape::Text(seq![(" (empty)  a:add"@, gray)])
            } else {
                BodyShape::Rows(Seq::new(window_len(vars.len(), 0, list_h), |i: int| variable_row(t, vars, i, width)))
            };
            DrawerShape { title, border: Tone::Green, search: None, body: Some(body), help, cursor: None }
        }
    } else if n == 0 {
        DrawerShape {
            title,
            border: Tone::Green,
            search: None,
            body: Some(BodyShape::Text(seq![(" (empty)  n:new"@, gray)])),
            help,
            cursor: None,
        }
    } else {
        let offset = scroll_offset_of(t.environment_index, list_h as usize);
        DrawerShape {
            title,
            border: Tone::Green,
            search: None,
            body: Some(
                BodyShape::Rows(
                    Seq::new(window_len(n, offset as nat, list_h), |j: int| environment_row(a, t, offset + j)),
                ),
            ),
            help,
            cursor: None,
        }
    }
}

fn variable_line_exec(tui: &TuiState) -> (r: Vec<Piece>)
    ensures
        pieces(r@) == variable_line(*tui),
{
    let mut l: Vec<Piece> = Vec::new();
    let k = if tui.variable_key_input.as_str().is_empty() {
        "key".to_string()
    } else {
        tui.variable_key_input.clone()
    };
    let v = if tui.variable_value_input.as_str().is_empty() {
        "val".to_string()
    } else {
        tui.variable_value_input.clone()
    };
    let kl = if tui.editing_variable_key {
        underlined_look(Tone::Yellow)
    } else {
        fg_look(Tone::Cyan)
    };
    let vl = if !tui.editing_variable_key {
        underlined_look(Tone::Yellow)
    } else {
        fg_look(Tone::White)
    };
    l.push(piece_of(k, kl));
    l.push(piece("=", fg_look(Tone::DarkGray)));
    l.push(piece_of(v, vl));
    assert(pieces(l@) =~= variable_line(*tui));
    l
}

fn variable_rows(app: &App, tui: &TuiState, e: usize, list_h: usize, width: usize) -> (r: Vec<Row>)
    requires
        e < app.environments.items@.len(),
    ensures
        crate::tui::view::rows(r@) == ({
            let vars = app.environments.items@[e as int].vars();
            Seq::new(window_len(vars.len(), 0, list_h as nat), |i: int| variable_row(*tui, vars, i, width as nat))
        }),
{
    let vars = &app.environments.items[e].variables;
    let ghost vv = app.environments.items@[e as int].vars();
    let end = if 0 < vars.len() {
        window_end(vars.len(), 0, list_h)
    } else {
        0
    };
    let mut out: Vec<Row> = Vec::new();
    let mut i: usize = 0;
    while i < end
        invariant
            i <= end,
            end <= vars@.len() || end == 0,
            end == window_len(vars@.len(), 0, list_h as nat),
            vv == crate::models::pairs_view(vars@),
            out@.len() == i,
            forall|k: int| 0 <= k < out@.len() ==> rv(#[trigger] out@[k]) == variable_row(*tui, vv, k, width as nat),
        decreases end - i,
    {
        let sel = i == tui.environment_variable_index;
        let k = &vars[i].0;
        let v = &vars[i].1;
        let klen = char_len(k.as_str());
        let room = if klen >= width {
            0
        } else {
            crate::tui::screen::sat_exec(width - klen, 7)
        };
        let vlen = char_len(v.as_str());
        let shown = if vlen > room {
            let cut = if room > 0 {
                room - 1
            } else {
                0
            };
            let vc = crate::text::to_chars(v.as_str());
            let s = crate::text::slice_chars(&vc, 0, cut);
            assert(vc@.subrange(0, cut as int) =~= vc@.take(cut as int));
            s
        } else {
            v.clone()
        };
        let mut l: Vec<Piece> = Vec::new();
        l.push(piece(marker_exec(sel), fg_look(Tone::Green)));
        l.push(piece_of(k.clone(), fg_look(Tone::Cyan)));
        l.push(piece("=", fg_look(Tone::DarkGray)));
        l.push(piece_of(shown, fg_look(Tone::White)));
        let row = Row { pieces: l, highlighted: sel };
        assert(pieces(row.pieces@) =~= variable_row(*tui, vv, i as int, width as nat).0);
        out.push(row);
        i += 1;
    }
    assert(crate::tui::view::rows(out@) =~= Seq::new(
        window_len(vv.len(), 0, list_h as nat),
        |i: int| variable_row(*tui, vv, i, width as nat),
    ));
    out
}

fn environment_rows(app: &App, tui: &TuiState, list_h: usize) -> (r: Vec<Row>)
    requires
        tui.environment_index < usize::MAX,
    ensures
        crate::tui::view::rows(r@) == ({
            let n = app.environments.items@.len();
            let offset = scroll_offset_of(tui.environment_index, list_h);
            Seq::new(window_len(n, offset as nat, list_h as nat), |j: int| environment_row(*app, *tui, offset + j))
        }),
{
    let items = &app.environments.items;
    let offset = scroll_offset(tui.environment_index, list_h);
    let end = if offset < items.len() {
        window_end(items.len(), offset, list_h)
    } else {
        offset
    };
    let mut out: Vec<Row> = Vec::new();
    let mut i: usize = offset;
    while i < end
        invariant
            offset <= i <= end,
            end <= items@.len() || end == offset,
            end - offset == window_len(items@.len(), offset as nat, list_h as nat),
            items@ == app.environments.items@,
            out@.len() == i - offset,
            forall|k: int| 0 <= k < out@.len() ==> rv(#[trigger] out@[k]) == environment_row(*app, *tui, offset + k),
        decreases end - i,
    {
        let sel = i == tui.environment_index;
        let mut l: Vec<Piece> = Vec::new();
        l.push(piece(marker_exec(sel), fg_look(Tone::Green)));
        l.push(piece_of(items[i].name.clone(), bold_look(Tone::White)));
        if app.active_environment == Some(i) {
            l.push(piece(" \u{2605} active", bold_look(Tone::Green)));
        } else {
            l.push(piece("", fg_look(Tone::Plain)));
        }
        let row = Row { pieces: l, highlighted: sel };
        assert(pieces(row.pieces@) =~= environment_row(*app, *tui, i as int).0);
        out.push(row);
        i += 1;
    }
    assert(crate::tui::view::rows(out@) =~= Seq::new(
        window_len(items@.len(), offset as nat, list_h as nat),
        |j: int| environment_row(*app, *tui, offset + j),
    ));
    out
}

/// What the environments drawer needs to be drawn: cursor positions that
/// fit in a machine word.
pub open spec fn environments_drawer_ready(t: TuiState) -> bool {
    &&& t.environment_index < usize::MAX
    &&& t.environment_name_cursor + 5 <= usize::MAX
    &&& t.variable_key_input@.len() + t.variable_value_cursor + 4 <= usize::MAX
}

/// The environments drawer for an inner area
/// `width` columns wide and `height` lines high.
pub fn environments_drawer(app: &App, tui: &TuiState, width: usize, height: usize) -> (r: DrawerView)
    requires
        environments_drawer_ready(*tui),
    ensures
        shape(r) == environments_drawer_of(*app, *tui, width as nat, height as nat),
{
    let ghost want = environments_drawer_of(*app, *tui, width as nat, height as nat);
    let n = app.environments.items.len();
    let d = usize_to_decimal(n);
    let title = concat3(" ENVIRONMENTS [", d.as_str(), "]");
    if height == 0 {
        return DrawerView { title, border: Tone::Green, search: None, body: None, help: None, cursor: None };
    }
    let list_h = crate::tui::screen::sat_exec(height, 1);
    if tui.editing_environment_name {
        let body = DrawerBody::Text(name_line_exec(&tui.environment_name_input));
        let r = DrawerView {
            title,
            border: Tone::Green,
            search: None,
            body: Some(body),
            help: Some(environments_help_exec(tui.in_environment_vars)),
            cursor: Some((5 + tui.environment_name_cursor, 0)),
        };
        assert(shape(r) == want);
        return r;
    }
    if tui.in_environment_vars {
        let e = tui.environment_index;
        if e >= n {
            let r = DrawerView { title, border: Tone::Green, search: None, body: None, help: None, cursor: None };
            assert(shape(r) == want);
            return r;
        }
        if tui.editing_variable {
            let x = if tui.editing_variable_key {
                tui.variable_key_cursor
            } else {
                let kl = if tui.variable_key_input.as_str().is_empty() {
                    3
                } else {
                    char_len(tui.variable_key_input.as_str())
                };
                kl + 1 + tui.variable_value_cursor
            };
            let r = DrawerView {
                title,
                border: Tone::Green,
                search: None,
                body: Some(DrawerBody::Text(variable_line_exec(tui))),
                help: None,
                cursor: Some((x, 0)),
            };
            assert(shape(r) == want);
            return r;
        }
        let body = if app.environments.items[e].variables.len() == 0 {
            text_body(" (empty)  a:add", fg_look(Tone::DarkGray))
        } else {
            DrawerBody::Rows(variable_rows(app, tui, e, list_h, width))
        };
        let r = DrawerView {
            title,
            border: Tone::Green,
            search: None,
            body: Some(body),
            help: Some(environments_help_exec(true)),
            cursor: None,
        };
        assert(shape(r) == want);
        return r;
    }
    let body = if n == 0 {
        text_body(" (empty)  n:new", fg_look(Tone::DarkGray))
    } else {
        DrawerBody::Rows(environment_rows(app, tui, list_h))
    };
    let r = DrawerView {
        title,
        border: Tone::Green,
        search: None,
        body: Some(body),
        help: Some(environments_help_exec(false)),
        cursor: None,
    };
    assert(shape(r) == want);
    r
}

} // verus!
