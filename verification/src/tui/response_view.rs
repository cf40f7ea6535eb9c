//! What the response panel shows: a message while nothing can be shown,
//! else the status line and the body, header or cookie tab.
use vstd::prelude::*;
use crate::app::App;
use crate::models::request::method_name;
use crate::models::response::{header_texts, header_value_str, json_pretty, json_pretty_of, raw_headers, Response};
use crate::text::{ascii_lower, ascii_lower_chars, concat2, concat3, decimal, find, find_from, from_chars, lemma_find_from_occurs, slice_chars, to_chars, trim, trim_seq, u16_to_decimal, usize_to_decimal};
use crate::tui::state::TuiState;
use crate::tui::view::{
    badge, badge_look, bold, bold_look, fg, fg_look, method_color, method_tone_of, piece, piece_of, pieces,
    plain, status_color, status_text, status_text_of, status_tone_of, Look, Piece, Tone,
};

verus! {

broadcast use vstd::string::group_string_axioms;

/// What the response panel shows.
pub enum ResponseState {
    /// A request is on its way: a line saying so.
    Sending(Vec<Vec<Piece>>),
    /// The request failed: the error, drawn wrapped.
    Failed(Vec<Vec<Piece>>),
    /// No response yet: how to send one.
    Nothing(Vec<Vec<Piece>>),
    /// A response: its status line; the tabs follow.
    Received(Vec<Piece>),
}

/// The status line: a dot, the code and its reason in the code's colour,
/// and the method's badge.
pub open spec fn status_line_of(status: u16, a: App) -> Seq<(Seq<char>, Look)> {
    let t = status_tone_of(status);
    let m = a.current_request.method;
    seq![
        ("\u{25cf} "@, fg(t)),
        (decimal(status as nat), bold(t)),
        (" "@ + status_text_of(status) + "  "@, fg(t)),
        (" "@ + method_name(m) + " "@, badge(method_tone_of(m))),
    ]
}

/// The message lines of the response panel when it shows no response.
pub open spec fn sending_lines() -> Seq<Seq<(Seq<char>, Look)>> {
    seq![seq![("  \u{25cf} "@, fg(Tone::Yellow)), ("Sending..."@, fg(Tone::Yellow))]]
}

pub open spec fn failed_lines(error: Seq<char>) -> Seq<Seq<(Seq<char>, Look)>> {
    seq![seq![("  Error"@, bold(Tone::Red))], Seq::empty(), seq![("  "@ + error, fg(Tone::Red))]]
}

pub open spec fn nothing_lines() -> Seq<Seq<(Seq<char>, Look)>> {
    seq![
        Seq::empty(),
        seq![("  No response yet."@, fg(Tone::DarkGray))],
        Seq::empty(),
        seq![("  Press "@, fg(Tone::DarkGray)), ("s"@, bold(Tone::Green)), (" to send the request."@, fg(Tone::DarkGray))],
    ]
}

/// What the response panel shows: a note while a
/// request is on its way; else the error; else a note when there is no
/// response; else the status line.
pub open spec fn response_state_of(a: App, r: ResponseState) -> bool {
    if a.is_loading {
        r matches ResponseState::Sending(l) && crate::tui::view::lines(l@) == sending_lines()
    } else if a.error_message is Some {
        r matches ResponseState::Failed(l) && crate::tui::view::lines(l@) == failed_lines(
            a.error_message->0@,
        )
    } else if a.current_response is None {
        r matches ResponseState::Nothing(l) && crate::tui::view::lines(l@) == nothing_lines()
    } else {
        r matches ResponseState::Received(l) && pieces(l@) == status_line_of(
            a.current_response->0.status,
            a,
        )
    }
}

pub fn response_state(app: &App) -> (r: ResponseState)
    ensures
        response_state_of(*app, r),
{
    let mut out: Vec<Vec<Piece>> = Vec::new();
    if app.is_loading {
        let mut l: Vec<Piece> = Vec::new();
        l.push(piece("  \u{25cf} ", fg_look(Tone::Yellow)));
        l.push(piece("Sending...", fg_look(Tone::Yellow)));
        assert(pieces(l@) =~= sending_lines()[0]);
        out.push(l);
        assert(crate::tui::view::lines(out@) =~= sending_lines());
        return ResponseState::Sending(out);
    }
    match &app.error_message {
        Some(e) => {
            let mut l1: Vec<Piece> = Vec::new();
            l1.push(piece("  Error", bold_look(Tone::Red)));
            let l2: Vec<Piece> = Vec::new();
            let mut l3: Vec<Piece> = Vec::new();
            l3.push(piece_of(concat2("  ", e.as_str()), fg_look(Tone::Red)));
            assert(pieces(l1@) =~= failed_lines(e@)[0]);
            assert(pieces(l2@) =~= failed_lines(e@)[1]);
            assert(pieces(l3@) =~= failed_lines(e@)[2]);
            out.push(l1);
            out.push(l2);
            out.push(l3);
            assert(crate::tui::view::lines(out@) =~= failed_lines(e@));
            return ResponseState::Failed(out);
        },
        None => {},
    }
    match &app.current_response {
        None => {
            let l1: Vec<Piece> = Vec::new();
            let mut l2: Vec<Piece> = Vec::new();
            l2.push(piece("  No response yet.", fg_look(Tone::DarkGray)));
            let l3: Vec<Piece> = Vec::new();
            let mut l4: Vec<Piece> = Vec::new();
            l4.push(piece("  Press ", fg_look(Tone::DarkGray)));
            l4.push(piece("s", bold_look(Tone::Green)));
            l4.push(piece(" to send the request.", fg_look(Tone::DarkGray)));
            assert(pieces(l1@) =~= nothing_lines()[0]);
            assert(pieces(l2@) =~= nothing_lines()[1]);
            assert(pieces(l3@) =~= nothing_lines()[2]);
            assert(pieces(l4@) =~= nothing_lines()[3]);
            out.push(l1);
            out.push(l2);
            out.push(l3);
            out.push(l4);
            assert(crate::tui::view::lines(out@) =~= nothing_lines());
            ResponseState::Nothing(out)
        },
        Some(resp) => {
            let t = status_color(resp.status);
            let m = app.current_request.method;
            let mut l: Vec<Piece> = Vec::new();
            l.push(piece("\u{25cf} ", fg_look(t)));
            l.push(piece_of(u16_to_decimal(resp.status), bold_look(t)));
            l.push(piece_of(concat3(" ", status_text(resp.status), "  "), fg_look(t)));
            let name = m.to_string();
            l.push(piece_of(concat3(" ", name.as_str(), " "), badge_look(method_color(m))));
            assert(pieces(l@) =~= status_line_of(resp.status, *app));
            ResponseState::Received(l)
        },
    }
}

// ── Body tab ─────────────────────────────────────────────────────────────

/// A line without its carriage return, if it ends in one.
pub open spec fn strip_cr(s: Seq<char>) -> Seq<char> {
    if s.len() > 0 && s.last() == '\r' {
        s.drop_last()
    } else {
        s
    }
}

/// The lines of a text as `str::lines` gives them: split at each newline,
/// a carriage return before it dropped, no last empty line.
pub open spec fn lines_of(s: Seq<char>) -> Seq<Seq<char>>
    decreases s.len(),
{
    if s.len() == 0 {
        Seq::empty()
    } else {
        match find_from(s, "\n"@, 0) {
            Some(k) => if 0 <= k < s.len() {
                seq![strip_cr(s.take(k))] + lines_of(s.skip(k + 1))
            } else {
                seq![s]
            },
            None => seq![s],
        }
    }
}

/// Is a stored body a JSON object or array (pretty-printed and coloured),
/// rather than another value (shown raw)?
pub open spec fn is_structured(body: Seq<char>) -> bool {
    body.len() > 0 && (body[0] == '{' || body[0] == '[')
}

/// The body pretty-printed; empty when it cannot be.
pub open spec fn pretty_body(body: Seq<char>) -> Seq<char> {
    match json_pretty_of(body) {
        Some(p) => p,
        None => Seq::empty(),
    }
}

/// `min(n, len - 1)`, or 0 for an empty list: the first line shown when
/// scrolled by `n`.
pub open spec fn clamp_scroll(n: usize, len: nat) -> nat {
    let last = if len > 0 { (len - 1) as nat } else { 0 };
    if (n as nat) < last { n as nat } else { last }
}

/// The response body tab for a frame `height` lines high: the
/// pretty-printed lines from the scrolled-to one on, whether they are
/// coloured as JSON, and the title, with the position when the body is
/// longer than the frame and a raw mark for values other than objects and
/// arrays.
pub struct BodyTabView {
    pub title: String,
    pub lines: Vec<String>,
    pub json: bool,
}

pub open spec fn body_title_of(scroll: nat, total: nat, height: nat, json: bool) -> Seq<char> {
    (if total > height {
        " Body ["@ + decimal(scroll + 1) + "/"@ + decimal(total) + "] "@
    } else {
        " Body "@
    }) + (if json { ""@ } else { "(raw)"@ })
}

fn split_lines(s: &str) -> (r: Vec<String>)
    ensures
        r@.len() == lines_of(s@).len(),
        forall|i: int| 0 <= i < r@.len() ==> (#[trigger] r@[i])@ == lines_of(s@)[i],
{
    let v = to_chars(s);
    let mut out: Vec<String> = Vec::new();
    let mut start: usize = 0;
    let ghost full = s@;
    assert(v@.skip(0) =~= v@);
    while start < v.len()
        invariant
            start <= v@.len(),
            v@ == full,
            lines_of(full) == out@.map_values(|x: String| x@) + lines_of(v@.skip(start as int)),
        decreases v.len() - start,
    {
        let rest = slice_chars(&v, start, v.len());
        let rv = to_chars(rest.as_str());
        assert(rv@ =~= v@.skip(start as int));
        let nl = to_chars("\n");
        proof {
            reveal_strlit("\n");
        }
        let k = find(rv.as_slice(), nl.as_slice());
        proof {
            lemma_find_from_occurs(rv@, nl@, 0);
        }
        match k {
            Some(k) => {
                let mut end = k;
                if end > 0 && rv[end - 1] == '\r' {
                    end = end - 1;
                }
                let line = slice_chars(&rv, 0, end);
                assert(line@ =~= strip_cr(rv@.take(k as int)));
                assert(rv@.skip(k + 1) =~= v@.skip(start + k + 1));
                let ghost before = out@.map_values(|x: String| x@);
                out.push(line);
                assert(out@.map_values(|x: String| x@) =~= before.push(line@));
                start = start + k + 1;
            },
            None => {
                let ghost before = out@.map_values(|x: String| x@);
                out.push(rest);
                assert(out@.map_values(|x: String| x@) =~= before.push(rv@));
                assert(v@.skip(v@.len() as int) =~= Seq::<char>::empty());
                start = v.len();
            },
        }
    }
    assert(v@.skip(start as int) =~= Seq::<char>::empty());
    assert(out@.map_values(|x: String| x@) =~= lines_of(full));
    proof {
        assert forall|i: int| 0 <= i < out@.len() implies (#[trigger] out@[i])@ == lines_of(s@)[i] by {
            assert(out@.map_values(|x: String| x@)[i] == out@[i]@);
        }
    }
    out
}

/// The response body tab for a frame `height`
/// lines high.
pub fn response_body_tab(resp: &Response, tui: &TuiState, height: usize) -> (r: BodyTabView)
    ensures
        ({
            let all = lines_of(pretty_body(resp.body@));
            let scroll = clamp_scroll(tui.response_scroll, all.len());
            &&& r.json == is_structured(resp.body@)
            &&& r.title@ == body_title_of(scroll, all.len(), height as nat, r.json)
            &&& r.lines@.len() == all.len() - scroll
            &&& forall|i: int| 0 <= i < r.lines@.len() ==> (#[trigger] r.lines@[i])@ == all[scroll + i]
        }),
{
    let b = to_chars(resp.body.as_str());
    let json = b.len() > 0 && (b[0] == '{' || b[0] == '[');
    let text = match json_pretty(resp.body.as_str()) {
        Some(p) => p,
        None => String::new(),
    };
    let all = split_lines(text.as_str());
    let n = all.len();
    let last = if n > 0 {
        n - 1
    } else {
        0
    };
    let scroll = if tui.response_scroll < last {
        tui.response_scroll
    } else {
        last
    };
    let mut shown: Vec<String> = Vec::new();
    let mut i: usize = scroll;
    while i < n
        invariant
            scroll <= i <= n,
            n == all@.len(),
            shown@.len() == i - scroll,
            forall|j: int| 0 <= j < shown@.len() ==> (#[trigger] shown@[j])@ == all@[scroll + j]@,
        decreases n - i,
    {
        shown.push(all[i].clone());
        i += 1;
    }
    let head = if n > height {
        let a = usize_to_decimal(scroll + 1);
        let t = usize_to_decimal(n);
        let x = concat3(" Body [", a.as_str(), "/");
        concat3(x.as_str(), t.as_str(), "] ")
    } else {
        " Body ".to_string()
    };
    let title = if json {
        concat2(head.as_str(), "")
    } else {
        concat2(head.as_str(), "(raw)")
    };
    BodyTabView { title, lines: shown, json }
}

// ── Header and cookie tabs ───────────────────────────────────────────────

/// Is the header a `Set-Cookie` header (its name in any case)?
pub open spec fn is_cookie_header(name: Seq<char>) -> bool {
    ascii_lower(name) == "set-cookie"@
}

/// A header's line: name, `: ` and value; cookies in yellow, other
/// headers with a cyan name and a white value.
pub open spec fn header_line(h: (Seq<char>, Seq<char>)) -> Seq<(Seq<char>, Look)> {
    let c = is_cookie_header(h.0);
    seq![
        (h.0, fg(if c { Tone::Yellow } else { Tone::Cyan })),
        (": "@, fg(Tone::DarkGray)),
        (h.1, fg(if c { Tone::Yellow } else { Tone::White })),
    ]
}

fn is_cookie_name(name: &str) -> (b: bool)
    ensures
        b == is_cookie_header(name@),
{
    let v = to_chars(name);
    let l = ascii_lower_chars(v.as_slice());
    let s = from_chars(l.as_slice());
    crate::text::str_eq(s.as_str(), "set-cookie")
}

/// The response header tab: the headers from
/// the scrolled-to one on, and the position in the title.
pub fn response_headers_tab(resp: &Response, tui: &TuiState) -> (r: crate::tui::screen::TabView)
    ensures
        ({
            let hs = header_texts(raw_headers(resp.headers@), "?"@);
            let scroll = clamp_scroll(tui.response_headers_scroll, hs.len());
            &&& r.title@ == " Headers ["@ + decimal(scroll + 1) + "/"@ + decimal(
                if hs.len() > 0 { hs.len() } else { 1 },
            ) + "] "@
            &&& crate::tui::view::lines(r.lines@) == Seq::new(
                (hs.len() - scroll) as nat,
                |i: int| header_line(hs[scroll + i]),
            )
            &&& r.cursor is None
        }),
{
    let ghost hs = header_texts(raw_headers(resp.headers@), "?"@);
    let n = resp.headers.len();
    let last = if n > 0 {
        n - 1
    } else {
        0
    };
    let scroll = if tui.response_headers_scroll < last {
        tui.response_headers_scroll
    } else {
        last
    };
    let mut out: Vec<Vec<Piece>> = Vec::new();
    let mut i: usize = scroll;
    while i < n
        invariant
            scroll <= i <= n,
            n == resp.headers@.len(),
            hs == header_texts(raw_headers(resp.headers@), "?"@),
            out@.len() == i - scroll,
            forall|j: int| 0 <= j < out@.len() ==> pieces((#[trigger] out@[j])@) == header_line(hs[scroll + j]),
        decreases n - i,
    {
        let c = is_cookie_name(resp.headers[i].0.as_str());
        let mut l: Vec<Piece> = Vec::new();
        l.push(piece_of(resp.headers[i].0.clone(), fg_look(if c { Tone::Yellow } else { Tone::Cyan })));
        l.push(piece(": ", fg_look(Tone::DarkGray)));
        l.push(piece_of(header_value_str(&resp.headers[i].1, "?"), fg_look(if c { Tone::Yellow } else { Tone::White })));
        assert(pieces(l@) =~= header_line(hs[i as int]));
        out.push(l);
        i += 1;
    }
    assert(crate::tui::view::lines(out@) =~= Seq::new((hs.len() - scroll) as nat, |i: int| header_line(hs[scroll + i])));
    let a = usize_to_decimal(scroll + 1);
    let t = usize_to_decimal(if n > 0 { n } else { 1 });
    let x = concat3(" Headers [", a.as_str(), "/");
    let title = concat3(x.as_str(), t.as_str(), "] ");
    crate::tui::screen::TabView { title, lines: out, cursor: None }
}

/// The name and value of a cookie from a `Set-Cookie` value: the part
/// before the first `;`, trimmed, split at its first `=` (no value when it
/// has none).
pub open spec fn cookie_of(v: Seq<char>) -> (Seq<char>, Seq<char>) {
    let first = match find_from(v, ";"@, 0) {
        Some(k) => v.take(k),
        None => v,
    };
    let part = trim_seq(first);
    match find_from(part, "="@, 0) {
        Some(k) => (part.take(k), part.skip(k + 1)),
        None => (part, Seq::empty()),
    }
}

/// The cookies the response sets, in order.
pub open spec fn cookies_of(hs: Seq<(Seq<char>, Seq<char>)>) -> Seq<(Seq<char>, Seq<char>)>
    decreases hs.len(),
{
    if hs.len() == 0 {
        Seq::empty()
    } else {
        let rest = cookies_of(hs.drop_last());
        if is_cookie_header(hs.last().0) {
            rest.push(cookie_of(hs.last().1))
        } else {
            rest
        }
    }
}

/// A cookie's line: its name in bold yellow, `=` and its value.
pub open spec fn cookie_line(c: (Seq<char>, Seq<char>)) -> Seq<(Seq<char>, Look)> {
    seq![("  "@, plain()), (c.0, bold(Tone::Yellow)), ("="@, fg(Tone::DarkGray)), (c.1, fg(Tone::White))]
}

/// The lines of the cookie tab: a note when there are none, else a line per
/// cookie.
pub open spec fn cookie_lines(cs: Seq<(Seq<char>, Seq<char>)>) -> Seq<Seq<(Seq<char>, Look)>> {
    if cs.len() == 0 {
        seq![seq![("  No Set-Cookie headers in this response."@, fg(Tone::DarkGray))]]
    } else {
        Seq::new(cs.len(), |i: int| cookie_line(cs[i]))
    }
}

fn cookie_exec(v: &str) -> (r: (String, String))
    ensures
        (r.0@, r.1@) == cookie_of(v@),
{
    let c = to_chars(v);
    let semi = to_chars(";");
    let eq = to_chars("=");
    proof {
        reveal_strlit(";");
        reveal_strlit("=");
    }
    let first = match find(c.as_slice(), semi.as_slice()) {
        Some(k) => {
            proof {
                lemma_find_from_occurs(c@, semi@, 0);
            }
            let f = slice_chars(&c, 0, k);
            assert(c@.subrange(0, k as int) =~= c@.take(k as int));
            f
        },
        None => v.to_string(),
    };
    let part = trim(first.as_str());
    let p = to_chars(part.as_str());
    match find(p.as_slice(), eq.as_slice()) {
        Some(k) => {
            proof {
                lemma_find_from_occurs(p@, eq@, 0);
            }
            assert(k + 1 <= p.len());
            let name = slice_chars(&p, 0, k);
            let value = slice_chars(&p, k + 1, p.len());
            assert(p@.subrange(0, k as int) =~= p@.take(k as int));
            assert(p@.subrange(k + 1, p@.len() as int) =~= p@.skip(k + 1));
            (name, value)
        },
        None => (part, String::new()),
    }
}

/// The cookie tab: the count in the title,
/// and the cookies' lines.
pub fn response_cookies_tab(resp: &Response) -> (r: crate::tui::screen::TabView)
    ensures
        ({
            let cs = cookies_of(header_texts(raw_headers(resp.headers@), ""@));
            &&& r.title@ == " Cookies ["@ + decimal(cs.len()) + "] "@
            &&& crate::tui::view::lines(r.lines@) == cookie_lines(cs)
            &&& r.cursor is None
        }),
{
    let ghost hs = header_texts(raw_headers(resp.headers@), ""@);
    let mut cs: Vec<(String, String)> = Vec::new();
    let mut i: usize = 0;
    while i < resp.headers.len()
        invariant
            i <= resp.headers@.len(),
            hs == header_texts(raw_headers(resp.headers@), ""@),
            crate::models::pairs_view(cs@) == cookies_of(hs.take(i as int)),
        decreases resp.headers.len() - i,
    {
        assert(hs.take(i + 1).drop_last() =~= hs.take(i as int));
        if is_cookie_name(resp.headers[i].0.as_str()) {
            let value = header_value_str(&resp.headers[i].1, "");
            let c = cookie_exec(value.as_str());
            let ghost before = cs@;
            cs.push(c);
            assert(crate::models::pairs_view(cs@) =~= crate::models::pairs_view(before).push((c.0@, c.1@)));
        }
        i += 1;
    }
    assert(hs.take(resp.headers@.len() as int) =~= hs);
    let ghost want = cookies_of(hs);
    let mut out: Vec<Vec<Piece>> = Vec::new();
    if cs.len() == 0 {
        let mut l: Vec<Piece> = Vec::new();
        l.push(piece("  No Set-Cookie headers in this response.", fg_look(Tone::DarkGray)));
        assert(pieces(l@) =~= cookie_lines(want)[0]);
        out.push(l);
    } else {
        let mut j: usize = 0;
        while j < cs.len()
            invariant
                j <= cs@.len(),
                cs@.len() > 0,
                crate::models::pairs_view(cs@) == want,
                out@.len() == j,
                forall|k: int| 0 <= k < j ==> pieces((#[trigger] out@[k])@) == cookie_line(want[k]),
            decreases cs.len() - j,
        {
            let mut l: Vec<Piece> = Vec::new();
            l.push(piece("  ", fg_look(Tone::Plain)));
            l.push(piece_of(cs[j].0.clone(), bold_look(Tone::Yellow)));
            l.push(piece("=", fg_look(Tone::DarkGray)));
            l.push(piece_of(cs[j].1.clone(), fg_look(Tone::White)));
            assert(pieces(l@) =~= cookie_line(want[j as int]));
            out.push(l);
            j += 1;
        }
    }
    assert(crate::tui::view::lines(out@) =~= cookie_lines(want));
    let d = usize_to_decimal(cs.len());
    let title = concat3(" Cookies [", d.as_str(), "] ");
    crate::tui::screen::TabView { title, lines: out, cursor: None }
}

} // verus!
