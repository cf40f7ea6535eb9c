//! What the screen shows, as plain values: pieces of text with their
//! colours, rows of pieces, titles and cursor positions. The program around
//! the library only turns these into terminal widgets.
use vstd::prelude::*;
use crate::models::request::Method;
use crate::text::{
    char_len, concat2, concat3, find, find_from, lemma_find_from_occurs, from_chars, slice_chars, strip_trailing, to_chars, trim_start, trim_start_seq,
};
use crate::tui::state::{RequestTab, ResponseTab};

verus! {

broadcast use vstd::string::group_string_axioms;

/// A colour of the terminal; `Plain` leaves the terminal's own.
#[derive(Debug, Clone, Copy, PartialEq, Eq, Structural)]
pub enum Tone {
    Plain,
    White,
    DarkGray,
    Cyan,
    Yellow,
    Green,
    Red,
    Magenta,
    Blue,
    Black,
}

/// How a piece of text is drawn.
#[derive(Debug, Clone, Copy, PartialEq, Eq, Structural)]
pub struct Look {
    pub fg: Tone,
    pub bg: Tone,
    pub bold: bool,
    pub underlined: bool,
}

/// A piece of text and how it is drawn.
#[derive(Debug)]
pub struct Piece {
    pub text: String,
    pub look: Look,
}

/// A line of a list: its pieces, and whether it is the selected line
/// (drawn on a dark background).
#[derive(Debug)]
pub struct Row {
    pub pieces: Vec<Piece>,
    pub highlighted: bool,
}

/// Text in colour `t`.
pub open spec fn fg(t: Tone) -> Look {
    Look { fg: t, bg: Tone::Plain, bold: false, underlined: false }
}

/// Bold text in colour `t`.
pub open spec fn bold(t: Tone) -> Look {
    Look { fg: t, bg: Tone::Plain, bold: true, underlined: false }
}

/// Underlined text in colour `t`.
pub open spec fn underlined(t: Tone) -> Look {
    Look { fg: t, bg: Tone::Plain, bold: false, underlined: true }
}

/// Bold black text on colour `t`.
pub open spec fn badge(t: Tone) -> Look {
    Look { fg: Tone::Black, bg: t, bold: true, underlined: false }
}

/// Text as the terminal draws it by default.
pub open spec fn plain() -> Look {
    fg(Tone::Plain)
}

pub fn fg_look(t: Tone) -> (l: Look)
    ensures
        l == fg(t),
{
    Look { fg: t, bg: Tone::Plain, bold: false, underlined: false }
}

pub fn bold_look(t: Tone) -> (l: Look)
    ensures
        l == bold(t),
{
    Look { fg: t, bg: Tone::Plain, bold: true, underlined: false }
}

pub fn underlined_look(t: Tone) -> (l: Look)
    ensures
        l == underlined(t),
{
    Look { fg: t, bg: Tone::Plain, bold: false, underlined: true }
}

pub fn badge_look(t: Tone) -> (l: Look)
    ensures
        l == badge(t),
{
    Look { fg: Tone::Black, bg: t, bold: true, underlined: false }
}

/// A piece as its text and look.
pub open spec fn pv(p: Piece) -> (Seq<char>, Look) {
    (p.text@, p.look)
}

/// Pieces as texts and looks.
pub open spec fn pieces(v: Seq<Piece>) -> Seq<(Seq<char>, Look)> {
    v.map_values(|p: Piece| pv(p))
}

/// A row as its pieces and whether it is selected.
pub open spec fn rv(r: Row) -> (Seq<(Seq<char>, Look)>, bool) {
    (pieces(r.pieces@), r.highlighted)
}

/// Rows as pieces and selection marks.
pub open spec fn rows(v: Seq<Row>) -> Seq<(Seq<(Seq<char>, Look)>, bool)> {
    v.map_values(|r: Row| rv(r))
}

/// Lines of pieces as texts and looks.
pub open spec fn lines(v: Seq<Vec<Piece>>) -> Seq<Seq<(Seq<char>, Look)>> {
    v.map_values(|l: Vec<Piece>| pieces(l@))
}

pub fn piece(text: &str, look: Look) -> (p: Piece)
    ensures
        pv(p) == (text@, look),
{
    Piece { text: text.to_string(), look }
}

pub fn piece_of(text: String, look: Look) -> (p: Piece)
    ensures
        pv(p) == (text@, look),
{
    Piece { text, look }
}

// ── Colours ──────────────────────────────────────────────────────────────

/// The colour of each method's badge.
pub open spec fn method_tone_of(m: Method) -> Tone {
    match m {
        Method::GET => Tone::Green,
        Method::POST => Tone::Blue,
        Method::PUT => Tone::Yellow,
        Method::DELETE => Tone::Red,
        Method::PATCH => Tone::Magenta,
    }
}

pub fn method_color(m: Method) -> (t: Tone)
    ensures
        t == method_tone_of(m),
{
    match m {
        Method::GET => Tone::Green,
        Method::POST => Tone::Blue,
        Method::PUT => Tone::Yellow,
        Method::DELETE => Tone::Red,
        Method::PATCH => Tone::Magenta,
    }
}

/// The colour of a status code: green for success, yellow for redirects,
/// red otherwise.
pub open spec fn status_tone_of(status: u16) -> Tone {
    if 200 <= status <= 299 {
        Tone::Green
    } else if 300 <= status <= 399 {
        Tone::Yellow
    } else {
        Tone::Red
    }
}

pub fn status_color(status: u16) -> (t: Tone)
    ensures
        t == status_tone_of(status),
{
    if 200 <= status && status <= 299 {
        Tone::Green
    } else if 300 <= status && status <= 399 {
        Tone::Yellow
    } else {
        Tone::Red
    }
}

/// The reason phrase of the common status codes; empty for the others.
pub open spec fn status_text_of(status: u16) -> Seq<char> {
    if status == 200 {
        "OK"@
    } else if status == 201 {
        "Created"@
    } else if status == 204 {
        "No Content"@
    } else if status == 301 {
        "Moved Permanently"@
    } else if status == 302 {
        "Found"@
    } else if status == 304 {
        "Not Modified"@
    } else if status == 400 {
        "Bad Request"@
    } else if status == 401 {
        "Unauthorized"@
    } else if status == 403 {
        "Forbidden"@
    } else if status == 404 {
        "Not Found"@
    } else if status == 405 {
        "Method Not Allowed"@
    } else if status == 500 {
        "Internal Server Error"@
    } else if status == 502 {
        "Bad Gateway"@
    } else if status == 503 {
        "Service Unavailable"@
    } else {
        ""@
    }
}

pub fn status_text(status: u16) -> (s: &'static str)
    ensures
        s@ == status_text_of(status),
{
    match status {
        200 => "OK",
        201 => "Created",
        204 => "No Content",
        301 => "Moved Permanently",
        302 => "Found",
        304 => "Not Modified",
        400 => "Bad Request",
        401 => "Unauthorized",
        403 => "Forbidden",
        404 => "Not Found",
        405 => "Method Not Allowed",
        500 => "Internal Server Error",
        502 => "Bad Gateway",
        503 => "Service Unavailable",
        _ => "",
    }
}

// ── Layout helpers ───────────────────────────────────────────────────────

/// The first line of a list window of `visible` lines that keeps line
/// `selected` in view.
pub open spec fn scroll_offset_of(selected: usize, visible: usize) -> usize {
    if selected >= visible {
        (selected + 1 - visible) as usize
    } else {
        0
    }
}

pub fn scroll_offset(selected: usize, visible: usize) -> (r: usize)
    requires
        selected >= visible ==> selected < usize::MAX,
    ensures
        r == scroll_offset_of(selected, visible),
{
    if selected >= visible {
        selected + 1 - visible
    } else {
        0
    }
}

/// `n - 1`, or 0 at 0.
pub open spec fn minus_one(n: nat) -> nat {
    if n > 0 {
        (n - 1) as nat
    } else {
        0
    }
}

/// `s` cut to fit `max` characters: the first `max - 1` characters and an
/// ellipsis when it is longer, else `s`.
pub open spec fn truncated(s: Seq<char>, max: nat) -> Seq<char> {
    if s.len() > max {
        s.take(minus_one(max) as int) + "\u{2026}"@
    } else {
        s
    }
}

pub fn truncate(s: &str, max: usize) -> (r: String)
    ensures
        r@ == truncated(s@, max as nat),
{
    let v = to_chars(s);
    if v.len() > max {
        let n = if max > 0 {
            max - 1
        } else {
            0
        };
        let head = slice_chars(&v, 0, n);
        assert(v@.subrange(0, n as int) =~= v@.take(n as int));
        concat2(head.as_str(), "\u{2026}")
    } else {
        s.to_string()
    }
}

/// `n` spaces.
pub open spec fn blanks(n: nat) -> Seq<char> {
    Seq::new(n, |i: int| ' ')
}

pub fn blanks_exec(n: usize) -> (r: String)
    ensures
        r@ == blanks(n as nat),
{
    let mut v: Vec<char> = Vec::new();
    let mut i: usize = 0;
    while i < n
        invariant
            i <= n,
            v@ == blanks(i as nat),
        decreases n - i,
    {
        v.push(' ');
        i += 1;
        assert(v@ =~= blanks(i as nat));
    }
    from_chars(&v)
}

/// `s` right-aligned in `w` characters (`format!("{:>w}", s)`).
pub open spec fn pad_left(s: Seq<char>, w: nat) -> Seq<char> {
    if s.len() >= w {
        s
    } else {
        blanks((w - s.len()) as nat) + s
    }
}

pub fn pad_left_exec(s: &str, w: usize) -> (r: String)
    ensures
        r@ == pad_left(s@, w as nat),
{
    let n = char_len(s);
    if n >= w {
        s.to_string()
    } else {
        let b = blanks_exec(w - n);
        concat2(b.as_str(), s)
    }
}

/// The first `n` characters of `s`, or all of them.
pub open spec fn first_chars(s: Seq<char>, n: nat) -> Seq<char> {
    if s.len() > n {
        s.take(n as int)
    } else {
        s
    }
}

pub fn first_chars_exec(s: &str, n: usize) -> (r: String)
    ensures
        r@ == first_chars(s@, n as nat),
{
    let v = to_chars(s);
    if v.len() > n {
        let r = slice_chars(&v, 0, n);
        assert(v@.subrange(0, n as int) =~= v@.take(n as int));
        r
    } else {
        s.to_string()
    }
}

// ── Tab bars ─────────────────────────────────────────────────────────────

/// A tab bar: each name between spaces, the active one bold yellow, the
/// others dark grey.
pub open spec fn tab_titles(names: Seq<Seq<char>>, active: int) -> Seq<(Seq<char>, Look)> {
    Seq::new(
        names.len(),
        |i: int| (" "@ + names[i] + " "@, if i == active { bold(Tone::Yellow) } else { fg(Tone::DarkGray) }),
    )
}

/// The request panel's tabs.
pub open spec fn request_tab_names() -> Seq<Seq<char>> {
    seq!["1:Params"@, "2:Headers"@, "3:Body"@, "4:Auth"@]
}

/// The response panel's tabs.
pub open spec fn response_tab_names() -> Seq<Seq<char>> {
    seq!["1:Body"@, "2:Headers"@, "3:Cookies"@]
}

pub open spec fn request_tab_index(t: RequestTab) -> int {
    match t {
        RequestTab::Params => 0,
        RequestTab::Headers => 1,
        RequestTab::Body => 2,
        RequestTab::Auth => 3,
    }
}

pub open spec fn response_tab_index(t: ResponseTab) -> int {
    match t {
        ResponseTab::Body => 0,
        ResponseTab::Headers => 1,
        ResponseTab::Cookies => 2,
    }
}

fn tab_piece(name: &str, active: bool) -> (p: Piece)
    ensures
        pv(p) == (" "@ + name@ + " "@, if active { bold(Tone::Yellow) } else { fg(Tone::DarkGray) }),
{
    let t = concat3(" ", name, " ");
    let look = if active {
        bold_look(Tone::Yellow)
    } else {
        fg_look(Tone::DarkGray)
    };
    Piece { text: t, look }
}

/// The request panel's tab bar.
pub fn request_tab_bar(tab: RequestTab) -> (r: Vec<Piece>)
    ensures
        pieces(r@) == tab_titles(request_tab_names(), request_tab_index(tab)),
{
    let mut r: Vec<Piece> = Vec::new();
    r.push(tab_piece("1:Params", tab == RequestTab::Params));
    r.push(tab_piece("2:Headers", tab == RequestTab::Headers));
    r.push(tab_piece("3:Body", tab == RequestTab::Body));
    r.push(tab_piece("4:Auth", tab == RequestTab::Auth));
    assert(pieces(r@) =~= tab_titles(request_tab_names(), request_tab_index(tab)));
    r
}

/// The response panel's tab bar.
pub fn response_tab_bar(tab: ResponseTab) -> (r: Vec<Piece>)
    ensures
        pieces(r@) == tab_titles(response_tab_names(), response_tab_index(tab)),
{
    let mut r: Vec<Piece> = Vec::new();
    r.push(tab_piece("1:Body", tab == ResponseTab::Body));
    r.push(tab_piece("2:Headers", tab == ResponseTab::Headers));
    r.push(tab_piece("3:Cookies", tab == ResponseTab::Cookies));
    assert(pieces(r@) =~= tab_titles(response_tab_names(), response_tab_index(tab)));
    r
}

// ── JSON colouring ───────────────────────────────────────────────────────

/// Where a line of pretty-printed JSON names a key: the position of the
/// closing quote followed by `": "`, when the line (without its indentation)
/// starts with a quote.
pub open spec fn json_key_end(t: Seq<char>) -> Option<int> {
    if t.len() > 0 && t[0] == '"' {
        find_from(t, "\": "@, 0)
    } else {
        None
    }
}

/// The value part of a line of pretty-printed JSON, without indentation,
/// key and trailing commas: the text whose kind decides its colour.
pub open spec fn json_value_core(line: Seq<char>) -> Seq<char> {
    let t = trim_start_seq(line);
    match json_key_end(t) {
        Some(pos) => strip_trailing(t.skip(pos + 3), ','),
        None => strip_trailing(t, ','),
    }
}

/// The colour of a JSON value: green for a string, magenta for `true` and
/// `false`, red for `null`, yellow for a number, dark grey otherwise
/// (brackets). `number` says whether the value parses as a number.
pub open spec fn json_value_tone(v: Seq<char>, number: bool) -> Tone {
    if v.len() > 0 && v[0] == '"' {
        Tone::Green
    } else if v == "true"@ || v == "false"@ {
        Tone::Magenta
    } else if v == "null"@ {
        Tone::Red
    } else if number {
        Tone::Yellow
    } else {
        Tone::DarkGray
    }
}

/// A line of pretty-printed JSON in colour: the indentation, then the key
/// in cyan and `": "` in dark grey when there is a key, then the value in
/// the colour of its kind.
pub open spec fn json_line_view(line: Seq<char>, number: bool) -> Seq<(Seq<char>, Look)> {
    let t = trim_start_seq(line);
    let indent = line.take(line.len() - t.len());
    let tone = fg(json_value_tone(json_value_core(line), number));
    match json_key_end(t) {
        Some(pos) => seq![
            (indent, plain()),
            (t.take(pos + 1), fg(Tone::Cyan)),
            (": "@, fg(Tone::DarkGray)),
            (t.skip(pos + 3), tone),
        ],
        None => seq![(indent, plain()), (t, tone)],
    }
}

fn strip_trailing_commas(v: &Vec<char>, from: usize) -> (r: String)
    requires
        from <= v@.len(),
    ensures
        r@ == strip_trailing(v@.skip(from as int), ','),
{
    let mut end = v.len();
    while end > from && v[end - 1] == ','
        invariant
            from <= end <= v@.len(),
            strip_trailing(v@.skip(from as int), ',') == strip_trailing(v@.subrange(from as int, end as int), ','),
        decreases end,
    {
        assert(v@.subrange(from as int, end as int).drop_last() =~= v@.subrange(from as int, end - 1));
        end -= 1;
    }
    assert(v@.skip(from as int) =~= v@.subrange(from as int, v@.len() as int));
    slice_chars(v, from, end)
}

/// Where the key of a trimmed JSON line ends, if it has one.
fn key_end(t: &Vec<char>) -> (r: Option<usize>)
    ensures
        match r {
            Some(p) => json_key_end(t@) == Some(p as int) && p + 3 <= t@.len() && p + 3 <= t.len(),
            None => json_key_end(t@) is None,
        },
{
    if t.len() > 0 && t[0] == '"' {
        let pat = to_chars("\": ");
        let r = find(t.as_slice(), pat.as_slice());
        proof {
            reveal_strlit("\": ");
            lemma_find_from_occurs(t@, pat@, 0);
        }
        r
    } else {
        None
    }
}

/// The value text of a JSON line whose kind decides its colour
/// (`json_value_core`); the program around the library tells whether it
/// parses as a number.
pub fn json_value_text(line: &str) -> (r: String)
    ensures
        r@ == json_value_core(line@),
{
    let t = to_chars(trim_start(line).as_str());
    match key_end(&t) {
        Some(pos) => strip_trailing_commas(&t, pos + 3),
        None => {
            assert(t@.skip(0) =~= t@);
            strip_trailing_commas(&t, 0)
        },
    }
}

/// Colours a line of pretty-printed JSON; `number`
/// says whether its value text parses as a number.
pub fn colorize_json_line(line: &str, number: bool) -> (r: Vec<Piece>)
    ensures
        pieces(r@) == json_line_view(line@, number),
{
    let ts = trim_start(line);
    let t = to_chars(ts.as_str());
    let lv = to_chars(line);
    let indent = slice_chars(&lv, 0, lv.len() - t.len());
    assert(lv@.subrange(0, lv@.len() - t@.len()) =~= line@.take(line@.len() - t@.len()));
    let core = json_value_text(line);
    let v = to_chars(core.as_str());
    let tone = if v.len() > 0 && v[0] == '"' {
        Tone::Green
    } else if crate::text::str_eq(core.as_str(), "true") || crate::text::str_eq(core.as_str(), "false") {
        Tone::Magenta
    } else if crate::text::str_eq(core.as_str(), "null") {
        Tone::Red
    } else if number {
        Tone::Yellow
    } else {
        Tone::DarkGray
    };
    let mut r: Vec<Piece> = Vec::new();
    r.push(piece_of(indent, fg_look(Tone::Plain)));
    match key_end(&t) {
        Some(pos) => {
            let key = slice_chars(&t, 0, pos + 1);
            let value = slice_chars(&t, pos + 3, t.len());
            assert(t@.subrange(0, pos + 1) =~= t@.take(pos + 1));
            assert(t@.subrange(pos + 3, t@.len() as int) =~= t@.skip(pos + 3));
            r.push(piece_of(key, fg_look(Tone::Cyan)));
            r.push(piece(": ", fg_look(Tone::DarkGray)));
            r.push(piece_of(value, fg_look(tone)));
            assert(pieces(r@) =~= json_line_view(line@, number));
        },
        None => {
            r.push(piece_of(ts, fg_look(tone)));
            assert(pieces(r@) =~= json_line_view(line@, number));
        },
    }
    r
}

} // verus!
