//! What the top bar, the status bar and the two panels show.
use vstd::prelude::*;
use crate::app::{App, NOTICE_MILLIS};
use crate::models::auth::{auth_summary, auth_type_label, auth_type_name, Auth, AUTH_TYPE_COUNT};
use crate::models::request::method_name;
use crate::text::{char_len, concat2, concat3, to_chars};
use crate::tui::state::{FocusedPanel, RequestTab, TuiState};
use crate::tui::view::{
    badge, badge_look, blanks, blanks_exec, bold, bold_look, fg, fg_look, method_color, method_tone_of, pad_left,
    pad_left_exec, piece, piece_of, pieces, plain, pv, truncate, truncated, underlined, underlined_look, Look, Piece,
    Tone,
};

verus! {

broadcast use vstd::string::group_string_axioms;

/// The name of the active environment, when there is one.
pub open spec fn active_env_name(a: App) -> Option<Seq<char>> {
    match a.active_environment {
        Some(i) => if i < a.environments.items@.len() {
            Some(a.environments.items@[i as int].name@)
        } else {
            None
        },
        None => None,
    }
}

pub fn active_env_name_exec(app: &App) -> (r: Option<String>)
    ensures
        match r {
            Some(s) => active_env_name(*app) == Some(s@),
            None => active_env_name(*app) is None,
        },
{
    match app.active_environment {
        Some(i) => if i < app.environments.items.len() {
            Some(app.environments.items[i].name.clone())
        } else {
            None
        },
        None => None,
    }
}

/// The notice shown at time `now_ms`: the last notice while it is less
/// than three seconds old.
pub open spec fn notice_at(a: App, now_ms: u64) -> Option<Seq<char>> {
    match a.status_notice {
        Some((m, t)) => if now_ms < t || now_ms - t < NOTICE_MILLIS {
            Some(m@)
        } else {
            None
        },
        None => None,
    }
}

// ── Status bar ───────────────────────────────────────────────────────────

/// The hint for the focused panel.
pub open spec fn panel_hint(t: TuiState) -> Seq<char> {
    match t.focused_panel {
        FocusedPanel::Request => match t.request_tab {
            RequestTab::Params | RequestTab::Headers => "\u{2191}\u{2193}:nav  Enter:edit  a:add  d:del"@,
            RequestTab::Body => "Enter:edit body"@,
            RequestTab::Auth => "Enter:configure"@,
        },
        FocusedPanel::Response => "\u{2191}\u{2193}:scroll  y:copy  w:save"@,
    }
}

/// The status bar: while an input has the keyboard,
/// the keys of that input; otherwise the global keys, the hint for the
/// focused panel, the active environment and a mark while a request is on
/// its way.
pub open spec fn status_bar_of(a: App, t: TuiState) -> Seq<(Seq<char>, Look)> {
    if t.editing() {
        editing_hints_of(t)
    } else {
        global_hints_of(a, t)
    }
}

/// The keys of the input that has the keyboard.
pub open spec fn editing_hints_of(t: TuiState) -> Seq<(Seq<char>, Look)> {
    let key = bold(Tone::Cyan);
    let text = fg(Tone::White);
    {
        if t.editing_url {
            seq![(" Enter"@, key), (":confirm  "@, text), ("Esc"@, key), (":cancel  URL editing"@, text)]
        } else if t.is_editing_body {
            seq![
                (" Enter"@, key),
                (":newline  "@, text),
                ("Tab"@, key),
                (":indent  "@, text),
                ("C-f"@, key),
                (":fmt JSON  "@, text),
                ("Esc"@, key),
                (":save & exit"@, text),
            ]
        } else if t.history_search_active {
            seq![
                (" Type to filter  "@, text),
                ("\u{2191}\u{2193}"@, key),
                (":nav  "@, text),
                ("Enter/Esc"@, bold(Tone::Magenta)),
                (":done"@, text),
            ]
        } else {
            seq![(" Tab"@, key), (":field  "@, text), ("Enter"@, key), (":confirm  "@, text), ("Esc"@, key), (":cancel"@, text)]
        }
    }
}

/// The global keys, the hint for the focused panel, the active environment
/// and a mark while a request is on its way.
pub open spec fn global_hints_of(a: App, t: TuiState) -> Seq<(Seq<char>, Look)> {
    let key = bold(Tone::Cyan);
    let text = fg(Tone::White);
    {
        let env = match active_env_name(a) {
            Some(n) => "  [ENV:"@ + n + "]"@,
            None => Seq::empty(),
        };
        let loading = if a.is_loading { "  \u{23f3}"@ } else { ""@ };
        seq![
            (" h"@, bold(Tone::Magenta)),
            (":History  "@, text),
            ("c"@, key),
            (":Collections  "@, text),
            ("e"@, bold(Tone::Green)),
            (":Envs  "@, text),
            ("u"@, bold(Tone::Yellow)),
            (":URL  "@, text),
            ("m"@, bold(Tone::Yellow)),
            (":method  "@, text),
            ("s"@, bold(Tone::Green)),
            (":send  "@, text),
            ("Tab"@, key),
            (":switch  "@, text),
            (panel_hint(t), text),
            (env, bold(Tone::Green)),
            (loading, fg(Tone::Yellow)),
            ("  q"@, bold(Tone::Red)),
            (":quit"@, text),
        ]
    }
}

fn panel_hint_exec(tui: &TuiState) -> (s: &'static str)
    ensures
        s@ == panel_hint(*tui),
{
    match tui.focused_panel {
        FocusedPanel::Request => match tui.request_tab {
            RequestTab::Params | RequestTab::Headers => "\u{2191}\u{2193}:nav  Enter:edit  a:add  d:del",
            RequestTab::Body => "Enter:edit body",
            RequestTab::Auth => "Enter:configure",
        },
        FocusedPanel::Response => "\u{2191}\u{2193}:scroll  y:copy  w:save",
    }
}

fn editing_hints(tui: &TuiState) -> (r: Vec<Piece>)
    ensures
        pieces(r@) == editing_hints_of(*tui),
{
    let key = bold_look(Tone::Cyan);
    let text = fg_look(Tone::White);
    let mut r: Vec<Piece> = Vec::new();
    if tui.editing_url {
        r.push(piece(" Enter", key));
        r.push(piece(":confirm  ", text));
        r.push(piece("Esc", key));
        r.push(piece(":cancel  URL editing", text));
    } else if tui.is_editing_body {
        r.push(piece(" Enter", key));
        r.push(piece(":newline  ", text));
        r.push(piece("Tab", key));
        r.push(piece(":indent  ", text));
        r.push(piece("C-f", key));
        r.push(piece(":fmt JSON  ", text));
        r.push(piece("Esc", key));
        r.push(piece(":save & exit", text));
    } else if tui.history_search_active {
        r.push(piece(" Type to filter  ", text));
        r.push(piece("\u{2191}\u{2193}", key));
        r.push(piece(":nav  ", text));
        r.push(piece("Enter/Esc", bold_look(Tone::Magenta)));
        r.push(piece(":done", text));
    } else {
        r.push(piece(" Tab", key));
        r.push(piece(":field  ", text));
        r.push(piece("Enter", key));
        r.push(piece(":confirm  ", text));
        r.push(piece("Esc", key));
        r.push(piece(":cancel", text));
    }
    assert(pieces(r@) =~= editing_hints_of(*tui));
    r
}

fn global_hints(app: &App, tui: &TuiState) -> (r: Vec<Piece>)
    ensures
        pieces(r@) == global_hints_of(*app, *tui),
{
    let key = bold_look(Tone::Cyan);
    let text = fg_look(Tone::White);
    let env = match active_env_name_exec(app) {
        Some(n) => concat3("  [ENV:", n.as_str(), "]"),
        None => String::new(),
    };
    let loading = if app.is_loading {
        "  \u{23f3}"
    } else {
        ""
    };
    let mut r: Vec<Piece> = Vec::new();
    r.push(piece(" h", bold_look(Tone::Magenta)));
    r.push(piece(":History  ", text));
    r.push(piece("c", key));
    r.push(piece(":Collections  ", text));
    r.push(piece("e", bold_look(Tone::Green)));
    r.push(piece(":Envs  ", text));
    r.push(piece("u", bold_look(Tone::Yellow)));
    r.push(piece(":URL  ", text));
    r.push(piece("m", bold_look(Tone::Yellow)));
    r.push(piece(":method  ", text));
    r.push(piece("s", bold_look(Tone::Green)));
    r.push(piece(":send  ", text));
    r.push(piece("Tab", key));
    r.push(piece(":switch  ", text));
    r.push(piece(panel_hint_exec(tui), text));
    r.push(piece_of(env, bold_look(Tone::Green)));
    r.push(piece(loading, fg_look(Tone::Yellow)));
    r.push(piece("  q", bold_look(Tone::Red)));
    r.push(piece(":quit", text));
    assert(pieces(r@) =~= global_hints_of(*app, *tui));
    r
}

/// The status bar's line; it is drawn on dark grey.
pub fn status_bar(app: &App, tui: &TuiState) -> (r: Vec<Piece>)
    ensures
        pieces(r@) == status_bar_of(*app, *tui),
{
    if tui.is_editing() {
        editing_hints(tui)
    } else {
        global_hints(app, tui)
    }
}

// ── Top bar ──────────────────────────────────────────────────────────────

/// `a - b`, or 0 when `b` is larger.
pub open spec fn sat_sub(a: nat, b: nat) -> nat {
    if a >= b {
        (a - b) as nat
    } else {
        0
    }
}

/// The method badge: the method's name right-aligned in five columns,
/// black on the method's colour.
pub open spec fn method_badge_of(a: App) -> (Seq<char>, Look) {
    let m = a.current_request.method;
    (" "@ + pad_left(method_name(m), 5) + " "@, badge(method_tone_of(m)))
}

/// The URL line of the top bar for a bar `width` columns wide: the URL
/// being typed, or the request's URL, or a grey placeholder; cut to leave
/// room on the right for the notice, or else the active environment, in
/// green (bold for a notice), pushed to the right edge.
pub open spec fn url_line_of(a: App, t: TuiState, width: nat, notice: Option<Seq<char>>) -> Seq<(Seq<char>, Look)> {
    let url = a.current_request.url@;
    let env_text = match active_env_name(a) {
        Some(n) => " ["@ + n + "]"@,
        None => Seq::empty(),
    };
    let notice_text = match notice {
        Some(n) => " ["@ + n + "]"@,
        None => Seq::empty(),
    };
    let url_text = if t.editing_url {
        t.url_input@
    } else if url.len() == 0 {
        "https://..."@
    } else {
        url
    };
    let url_look = if t.editing_url || url.len() > 0 { fg(Tone::White) } else { fg(Tone::DarkGray) };
    let suffix = if notice_text.len() > 0 { notice_text } else { env_text };
    let room = sat_sub(width, suffix.len());
    let shown = truncated(url_text, if url_text.len() < room { url_text.len() } else { room });
    let padding = sat_sub(sat_sub(width, shown.len()), suffix.len());
    if suffix.len() == 0 {
        seq![(shown, url_look)]
    } else {
        seq![
            (shown, url_look),
            (blanks(padding), plain()),
            (suffix, if notice_text.len() > 0 { bold(Tone::Green) } else { fg(Tone::Green) }),
        ]
    }
}

/// The top bar: border colour, method badge, URL line, and the cursor
/// column in the URL line while the URL is typed.
pub struct TopBar {
    pub border: Tone,
    pub badge: Piece,
    pub url: Vec<Piece>,
    pub cursor: Option<usize>,
}

pub fn sat_exec(a: usize, b: usize) -> (r: usize)
    ensures
        r == sat_sub(a as nat, b as nat),
{
    if a >= b {
        a - b
    } else {
        0
    }
}

/// The top bar for a URL line `width` columns wide at
/// time `now_ms`: yellow while the URL is typed, cyan otherwise.
pub fn top_bar(app: &App, tui: &TuiState, width: usize, now_ms: u64) -> (r: TopBar)
    ensures
        r.border == if tui.editing_url { Tone::Yellow } else { Tone::Cyan },
        pv(r.badge) == method_badge_of(*app),
        pieces(r.url@) == url_line_of(*app, *tui, width as nat, notice_at(*app, now_ms)),
        r.cursor == if tui.editing_url { Some(tui.url_cursor) } else { None::<usize> },
{
    let m = app.current_request.method;
    let name = m.to_string();
    let padded = pad_left_exec(name.as_str(), 5);
    let badge = piece_of(concat3(" ", padded.as_str(), " "), badge_look(method_color(m)));
    let env_text = match active_env_name_exec(app) {
        Some(n) => concat3(" [", n.as_str(), "]"),
        None => String::new(),
    };
    let notice = app.status_notice_text(now_ms);
    let notice_text = match &notice {
        Some(n) => concat3(" [", n.as_str(), "]"),
        None => String::new(),
    };
    let url_empty = app.current_request.url.as_str().is_empty();
    let url_text = if tui.editing_url {
        tui.url_input.clone()
    } else if url_empty {
        "https://...".to_string()
    } else {
        app.current_request.url.clone()
    };
    let url_look = if tui.editing_url || !url_empty {
        fg_look(Tone::White)
    } else {
        fg_look(Tone::DarkGray)
    };
    let has_notice = !notice_text.as_str().is_empty();
    let suffix = if has_notice {
        notice_text
    } else {
        env_text
    };
    let suffix_len = char_len(suffix.as_str());
    let text_len = char_len(url_text.as_str());
    let room = sat_exec(width, suffix_len);
    let keep = if text_len < room {
        text_len
    } else {
        room
    };
    let shown = truncate(url_text.as_str(), keep);
    let shown_len = char_len(shown.as_str());
    let padding = sat_exec(sat_exec(width, shown_len), suffix_len);
    let mut url: Vec<Piece> = Vec::new();
    url.push(piece_of(shown, url_look));
    if suffix_len > 0 {
        url.push(piece_of(blanks_exec(padding), fg_look(Tone::Plain)));
        let look = if has_notice {
            bold_look(Tone::Green)
        } else {
            fg_look(Tone::Green)
        };
        url.push(piece_of(suffix, look));
    }
    proof {
        reveal_strlit(" [");
        reveal_strlit("]");
    }
    assert(pieces(url@) =~= url_line_of(*app, *tui, width as nat, notice_at(*app, now_ms)));
    let border = if tui.editing_url {
        Tone::Yellow
    } else {
        Tone::Cyan
    };
    let cursor = if tui.editing_url {
        Some(tui.url_cursor)
    } else {
        None
    };
    TopBar { border, badge, url, cursor }
}

// ── Request panel ────────────────────────────────────────────────────────

/// A tab's content: a title, lines of pieces, and where the cursor stands
/// (column and line inside the tab's frame) while something is typed.
pub struct TabView {
    pub title: String,
    pub lines: Vec<Vec<Piece>>,
    pub cursor: Option<(usize, usize)>,
}

/// `text`, or the grey placeholder's text when it is empty.
pub open spec fn or_placeholder(text: Seq<char>, placeholder: Seq<char>) -> Seq<char> {
    if text.len() == 0 {
        placeholder
    } else {
        text
    }
}

/// The look of the name or value being typed (`active`) and of the other.
pub open spec fn field_look(active: bool, other: Look) -> Look {
    if active {
        underlined(Tone::Yellow)
    } else {
        other
    }
}

/// A line of the parameter or header list. The line being edited shows the
/// typed name and value (placeholders when empty), the one being typed
/// underlined in yellow; other lines show the pair, the selected one marked
/// and its name in bold.
pub open spec fn pair_line(
    p: (Seq<char>, Seq<char>),
    selected: bool,
    editing: bool,
    key_in: Seq<char>,
    val_in: Seq<char>,
    editing_key: bool,
    sep: Seq<char>,
) -> Seq<(Seq<char>, Look)> {
    if editing && selected {
        seq![
            ("\u{25b8} "@, fg(Tone::Yellow)),
            (or_placeholder(key_in, "key"@), field_look(editing_key, fg(Tone::Cyan))),
            (sep, fg(Tone::DarkGray)),
            (or_placeholder(val_in, "value"@), field_look(!editing_key, fg(Tone::White))),
        ]
    } else {
        seq![
            (if selected { "\u{25b8} "@ } else { "  "@ }, fg(Tone::Yellow)),
            (p.0, if selected { bold(Tone::Cyan) } else { fg(Tone::Cyan) }),
            (sep, fg(Tone::DarkGray)),
            (p.1, fg(Tone::White)),
        ]
    }
}

/// The lines of the parameter or header list: a grey note (with the add
/// key while the panel has the focus) when there are none and none is
/// being edited, else a line per pair.
pub open spec fn pair_lines(
    ps: Seq<(Seq<char>, Seq<char>)>,
    index: usize,
    focused: bool,
    editing: bool,
    key_in: Seq<char>,
    val_in: Seq<char>,
    editing_key: bool,
    sep: Seq<char>,
    none_text: Seq<char>,
) -> Seq<Seq<(Seq<char>, Look)>> {
    if ps.len() == 0 && !editing {
        seq![
            seq![
                (none_text, fg(Tone::DarkGray)),
                if focused { ("  a:add"@, fg(Tone::DarkGray)) } else { (""@, plain()) },
            ],
        ]
    } else {
        Seq::new(
            ps.len(),
            |i: int| pair_line(ps[i], focused && i == index, editing, key_in, val_in, editing_key, sep),
        )
    }
}

/// The title of the list: its name, with the count when there are pairs.
pub open spec fn counted_title(name: Seq<char>, n: nat) -> Seq<char> {
    if n > 0 {
        " "@ + name + " ["@ + crate::text::decimal(n) + "] "@
    } else {
        " "@ + name + " "@
    }
}

/// Where the cursor stands while a pair is edited: after the name's frame
/// and marker and the typed part of the name, or after the whole shown name
/// and the separator and the typed part of the value; on the pair's line.
pub open spec fn pair_cursor(
    index: usize,
    key_in: Seq<char>,
    key_cursor: usize,
    val_cursor: usize,
    editing_key: bool,
    sep_len: nat,
) -> (int, int) {
    let key_len = if key_in.len() == 0 { 3 } else { key_in.len() as int };
    (if editing_key { 3 + key_cursor } else { 3 + key_len + sep_len + val_cursor }, 1 + index)
}

fn pair_list(
    ps: &Vec<(String, String)>,
    index: usize,
    focused: bool,
    editing: bool,
    key_in: &String,
    val_in: &String,
    editing_key: bool,
    sep: &str,
    none_text: &str,
) -> (r: Vec<Vec<Piece>>)
    ensures
        crate::tui::view::lines(r@) == pair_lines(
            crate::models::pairs_view(ps@),
            index,
            focused,
            editing,
            key_in@,
            val_in@,
            editing_key,
            sep@,
            none_text@,
        ),
{
    let ghost want = pair_lines(
        crate::models::pairs_view(ps@),
        index,
        focused,
        editing,
        key_in@,
        val_in@,
        editing_key,
        sep@,
        none_text@,
    );
    let mut out: Vec<Vec<Piece>> = Vec::new();
    if ps.len() == 0 && !editing {
        let mut l: Vec<Piece> = Vec::new();
        l.push(piece(none_text, fg_look(Tone::DarkGray)));
        if focused {
            l.push(piece("  a:add", fg_look(Tone::DarkGray)));
        } else {
            l.push(piece("", fg_look(Tone::Plain)));
        }
        assert(pieces(l@) =~= want[0]);
        out.push(l);
        assert(crate::tui::view::lines(out@) =~= want);
        return out;
    }
    let key_shown = if key_in.as_str().is_empty() {
        "key".to_string()
    } else {
        key_in.clone()
    };
    let val_shown = if val_in.as_str().is_empty() {
        "value".to_string()
    } else {
        val_in.clone()
    };
    let mut i: usize = 0;
    while i < ps.len()
        invariant
            i <= ps@.len(),
            out@.len() == i,
            key_shown@ == or_placeholder(key_in@, "key"@),
            val_shown@ == or_placeholder(val_in@, "value"@),
            want == pair_lines(
                crate::models::pairs_view(ps@),
                index,
                focused,
                editing,
                key_in@,
                val_in@,
                editing_key,
                sep@,
                none_text@,
            ),
            !(ps@.len() == 0 && !editing),
            forall|k: int| 0 <= k < i ==> pieces((#[trigger] out@[k])@) == want[k],
        decreases ps.len() - i,
    {
        let selected = focused && i == index;
        let mut l: Vec<Piece> = Vec::new();
        if editing && selected {
            l.push(piece("\u{25b8} ", fg_look(Tone::Yellow)));
            let kl = if editing_key {
                underlined_look(Tone::Yellow)
            } else {
                fg_look(Tone::Cyan)
            };
            let vl = if !editing_key {
                underlined_look(Tone::Yellow)
            } else {
                fg_look(Tone::White)
            };
            l.push(piece_of(key_shown.clone(), kl));
            l.push(piece(sep, fg_look(Tone::DarkGray)));
            l.push(piece_of(val_shown.clone(), vl));
        } else {
            let marker = if selected {
                "\u{25b8} "
            } else {
                "  "
            };
            l.push(piece(marker, fg_look(Tone::Yellow)));
            let kl = if selected {
                bold_look(Tone::Cyan)
            } else {
                fg_look(Tone::Cyan)
            };
            l.push(piece_of(ps[i].0.clone(), kl));
            l.push(piece(sep, fg_look(Tone::DarkGray)));
            l.push(piece_of(ps[i].1.clone(), fg_look(Tone::White)));
        }
        assert(pieces(l@) =~= want[i as int]);
        out.push(l);
        i += 1;
    }
    assert(crate::tui::view::lines(out@) =~= want);
    out
}

fn counted_title_exec(name: &str, n: usize) -> (r: String)
    ensures
        r@ == counted_title(name@, n as nat),
{
    if n > 0 {
        let d = crate::text::usize_to_decimal(n);
        let a = concat3(" ", name, " [");
        concat3(a.as_str(), d.as_str(), "] ")
    } else {
        concat3(" ", name, " ")
    }
}

/// What a pair cursor needs to fit in a machine word.
pub open spec fn pair_cursor_fits(index: usize, key_in: Seq<char>, key_cursor: usize, val_cursor: usize) -> bool {
    &&& key_cursor + 3 <= usize::MAX
    &&& key_in.len() + val_cursor + 8 <= usize::MAX
    &&& index + 1 <= usize::MAX
}

fn pair_cursor_exec(
    index: usize,
    key_in: &String,
    key_cursor: usize,
    val_cursor: usize,
    editing_key: bool,
    sep_len: usize,
) -> (r: (usize, usize))
    requires
        pair_cursor_fits(index, key_in@, key_cursor, val_cursor),
        sep_len <= 2,
    ensures
        (r.0 as int, r.1 as int) == pair_cursor(index, key_in@, key_cursor, val_cursor, editing_key, sep_len as nat),
{
    let key_len = if key_in.as_str().is_empty() {
        3
    } else {
        char_len(key_in.as_str())
    };
    let x = if editing_key {
        3 + key_cursor
    } else {
        3 + key_len + sep_len + val_cursor
    };
    (x, index + 1)
}

/// The query parameter tab.
pub fn params_tab(app: &App, tui: &TuiState) -> (r: TabView)
    requires
        tui.editing_param ==> pair_cursor_fits(
            tui.param_index,
            tui.param_key_input@,
            tui.param_key_cursor,
            tui.param_value_cursor,
        ),
    ensures
        r.title@ == counted_title("Query Params"@, app.current_request.params@.len()),
        crate::tui::view::lines(r.lines@) == pair_lines(
            app.current_request@.params,
            tui.param_index,
            tui.focused_panel == FocusedPanel::Request,
            tui.editing_param,
            tui.param_key_input@,
            tui.param_value_input@,
            tui.editing_param_key,
            "="@,
            "  (no params)"@,
        ),
        match r.cursor {
            Some((x, y)) => tui.editing_param && (x as int, y as int) == pair_cursor(
                tui.param_index,
                tui.param_key_input@,
                tui.param_key_cursor,
                tui.param_value_cursor,
                tui.editing_param_key,
                1,
            ),
            None => !tui.editing_param,
        },
{
    let focused = tui.focused_panel == FocusedPanel::Request;
    let lines = pair_list(
        &app.current_request.params,
        tui.param_index,
        focused,
        tui.editing_param,
        &tui.param_key_input,
        &tui.param_value_input,
        tui.editing_param_key,
        "=",
        "  (no params)",
    );
    let title = counted_title_exec("Query Params", app.current_request.params.len());
    let cursor = if tui.editing_param {
        proof {
            reveal_strlit("=");
        }
        Some(
            pair_cursor_exec(
                tui.param_index,
                &tui.param_key_input,
                tui.param_key_cursor,
                tui.param_value_cursor,
                tui.editing_param_key,
                1,
            ),
        )
    } else {
        None
    };
    TabView { title, lines, cursor }
}

/// The header tab.
pub fn headers_tab(app: &App, tui: &TuiState) -> (r: TabView)
    requires
        tui.editing_header ==> pair_cursor_fits(
            tui.header_index,
            tui.header_key_input@,
            tui.header_key_cursor,
            tui.header_value_cursor,
        ),
    ensures
        r.title@ == counted_title("Headers"@, app.current_request.headers@.len()),
        crate::tui::view::lines(r.lines@) == pair_lines(
            app.current_request@.headers,
            tui.header_index,
            tui.focused_panel == FocusedPanel::Request,
            tui.editing_header,
            tui.header_key_input@,
            tui.header_value_input@,
            tui.editing_header_key,
            ": "@,
            "  (no headers)"@,
        ),
        match r.cursor {
            Some((x, y)) => tui.editing_header && (x as int, y as int) == pair_cursor(
                tui.header_index,
                tui.header_key_input@,
                tui.header_key_cursor,
                tui.header_value_cursor,
                tui.editing_header_key,
                2,
            ),
            None => !tui.editing_header,
        },
{
    let focused = tui.focused_panel == FocusedPanel::Request;
    let lines = pair_list(
        &app.current_request.headers,
        tui.header_index,
        focused,
        tui.editing_header,
        &tui.header_key_input,
        &tui.header_value_input,
        tui.editing_header_key,
        ": ",
        "  (no headers)",
    );
    let title = counted_title_exec("Headers", app.current_request.headers.len());
    let cursor = if tui.editing_header {
        Some(
            pair_cursor_exec(
                tui.header_index,
                &tui.header_key_input,
                tui.header_key_cursor,
                tui.header_value_cursor,
                tui.editing_header_key,
                2,
            ),
        )
    } else {
        None
    };
    TabView { title, lines, cursor }
}

// ── Body tab ─────────────────────────────────────────────────────────────

/// The line and column where text `s` ends when drawn wrapped at `w`
/// columns: a newline starts a new line, and so does filling a line.
pub open spec fn visual_pos(s: Seq<char>, w: nat) -> (nat, nat)
    decreases s.len(),
{
    if s.len() == 0 {
        (0, 0)
    } else {
        let (r, c) = visual_pos(s.drop_last(), w);
        if s.last() == '\n' {
            (r + 1, 0)
        } else if c + 1 >= w {
            (r + 1, 0)
        } else {
            (r, (c + 1) as nat)
        }
    }
}

proof fn lemma_visual_pos_bound(s: Seq<char>, w: nat)
    ensures
        visual_pos(s, w).0 + visual_pos(s, w).1 <= s.len(),
    decreases s.len(),
{
    if s.len() > 0 {
        lemma_visual_pos_bound(s.drop_last(), w);
    }
}

/// The text the body tab shows and its colour: the text being typed; else
/// the request body; a grey `{}` when there is none.
pub open spec fn body_shown(a: App, t: TuiState) -> (Seq<char>, Tone) {
    if t.is_editing_body {
        (t.body_input@, Tone::White)
    } else {
        let b = crate::tui::drawer_keys::body_text(a.current_request@.body);
        if b.len() == 0 {
            ("{}"@, Tone::DarkGray)
        } else {
            (b, Tone::White)
        }
    }
}

/// Where the cursor of the body editor stands in a frame `width` columns
/// wide: after the text before the cursor, wrapped at the inner width.
pub open spec fn body_cursor_at(t: TuiState, width: nat) -> (int, int) {
    let w = if sat_sub(width, 2) > 0 { sat_sub(width, 2) } else { 1 };
    let s = t.body_input@;
    let n = if t.body_cursor < s.len() { t.body_cursor as int } else { s.len() as int };
    let (r, c) = visual_pos(s.take(n), w);
    (1 + c as int, 1 + r as int)
}

/// The body tab: the text, its colour, and the cursor while the body is
/// typed.
pub struct BodyView {
    pub text: String,
    pub tone: Tone,
    pub cursor: Option<(usize, usize)>,
}

/// The body tab for a frame `width` columns wide.
pub fn body_tab(app: &App, tui: &TuiState, width: usize) -> (r: BodyView)
    requires
        tui.is_editing_body ==> tui.body_input@.len() < usize::MAX,
    ensures
        (r.text@, r.tone) == body_shown(*app, *tui),
        match r.cursor {
            Some((x, y)) => tui.is_editing_body && (x as int, y as int) == body_cursor_at(*tui, width as nat),
            None => !tui.is_editing_body,
        },
{
    if tui.is_editing_body {
        let w0 = sat_exec(width, 2);
        let w = if w0 > 0 {
            w0
        } else {
            1
        };
        let v = to_chars(tui.body_input.as_str());
        let n = if tui.body_cursor < v.len() {
            tui.body_cursor
        } else {
            v.len()
        };
        let mut row: usize = 0;
        let mut col: usize = 0;
        let mut i: usize = 0;
        while i < n
            invariant
                n <= v@.len(),
                v@.len() < usize::MAX,
                i <= n,
                (row as nat, col as nat) == visual_pos(v@.take(i as int), w as nat),
                row + col <= i,
            decreases n - i,
        {
            proof {
                assert(v@.take(i + 1).drop_last() =~= v@.take(i as int));
            }
            if v[i] == '\n' {
                row = row + 1;
                col = 0;
            } else if col + 1 >= w {
                row = row + 1;
                col = 0;
            } else {
                col = col + 1;
            }
            i += 1;
        }
        return BodyView { text: tui.body_input.clone(), tone: Tone::White, cursor: Some((1 + col, 1 + row)) };
    }
    match &app.current_request.body {
        Some(b) => if b.as_str().is_empty() {
            BodyView { text: "{}".to_string(), tone: Tone::DarkGray, cursor: None }
        } else {
            BodyView { text: b.clone(), tone: Tone::White, cursor: None }
        },
        None => BodyView { text: "{}".to_string(), tone: Tone::DarkGray, cursor: None },
    }
}

// ── Authentication tab ───────────────────────────────────────────────────

/// The line of the editor that shows the chosen scheme's fields.
pub open spec fn auth_fields_line(a: App, t: TuiState) -> Seq<(Seq<char>, Look)> {
    let gray = fg(Tone::DarkGray);
    if t.auth_type_index == 0 {
        match a.current_request@.auth {
            Some(x) => seq![(" Current:"@ + auth_summary(x), gray)],
            None => seq![(" (no auth)"@, gray)],
        }
    } else if t.auth_type_index == 1 {
        seq![(" Token: "@, gray), (or_placeholder(t.auth_token_input@, "token..."@), underlined(Tone::White))]
    } else if t.auth_type_index == 2 {
        seq![
            (" User: "@, gray),
            (or_placeholder(t.auth_username_input@, "user"@), field_look(t.auth_editing_username, fg(Tone::White))),
            ("  Pass: "@, gray),
            (or_placeholder(t.auth_password_input@, "pass"@), field_look(!t.auth_editing_username, fg(Tone::White))),
        ]
    } else {
        seq![
            (or_placeholder(t.auth_key_name_input@, "Header"@), field_look(t.auth_editing_key_name, fg(Tone::White))),
            (": "@, gray),
            (or_placeholder(t.auth_key_value_input@, "value"@), field_look(!t.auth_editing_key_name, fg(Tone::White))),
        ]
    }
}

/// The authentication tab's lines: the request's authentication in short,
/// or a grey note when there is none; while it is edited, the chosen scheme
/// between arrows, its fields, and the editor's keys.
pub open spec fn auth_tab_lines(a: App, t: TuiState) -> Seq<Seq<(Seq<char>, Look)>> {
    let gray = fg(Tone::DarkGray);
    if !t.editing_auth {
        match a.current_request@.auth {
            None => seq![seq![(" (none)  "@, gray), ("Enter"@, gray), (" to configure"@, gray)]],
            Some(x) => seq![seq![(" "@ + auth_summary(x), fg(Tone::Cyan))]],
        }
    } else {
        seq![
            seq![
                ("\u{25c0} "@, fg(Tone::Cyan)),
                (pad_left(auth_type_label(t.auth_type_index as int), 7), bold(Tone::Yellow)),
                (" \u{25b6}"@, fg(Tone::Cyan)),
            ],
            auth_fields_line(a, t),
            seq![(" Enter=save  Esc=cancel  \u{2190}\u{2192}=type  Tab=field"@, gray)],
        ]
    }
}

/// Where the cursor of the authentication editor stands inside the tab's
/// frame, for the schemes that have fields.
pub open spec fn auth_cursor_at(t: TuiState) -> Option<(int, int)> {
    if t.auth_type_index == 1 {
        Some((13 + t.auth_token_cursor, 1))
    } else if t.auth_type_index == 2 {
        if t.auth_editing_username {
            Some((7 + t.auth_username_cursor, 1))
        } else {
            let ul = if t.auth_username_input@.len() == 0 { 4 } else { t.auth_username_input@.len() as int };
            Some((7 + ul + 8 + t.auth_password_cursor, 1))
        }
    } else if t.auth_type_index == 3 {
        if t.auth_editing_key_name {
            Some((t.auth_key_name_cursor as int, 1))
        } else {
            let kl = if t.auth_key_name_input@.len() == 0 { 6 } else { t.auth_key_name_input@.len() as int };
            Some((kl + 2 + t.auth_key_value_cursor, 1))
        }
    } else {
        None
    }
}

/// What the authentication tab needs to be drawn: a known scheme while it
/// is edited, and cursors that fit in a machine word.
pub open spec fn auth_tab_ready(a: App, t: TuiState) -> bool {
    &&& t.editing_auth ==> {
        &&& t.auth_type_index < AUTH_TYPE_COUNT
        &&& t.auth_token_cursor + 13 <= usize::MAX
        &&& t.auth_username_cursor + 7 <= usize::MAX
        &&& t.auth_username_input@.len() + t.auth_password_cursor + 20 <= usize::MAX
        &&& t.auth_key_name_input@.len() + t.auth_key_value_cursor + 8 <= usize::MAX
    }
}

fn auth_summary_piece(auth: &Auth, prefix: &str, look: Look) -> (p: Piece)
    ensures
        pv(p) == (prefix@ + auth_summary(auth@), look),
{
    let s = auth.display_summary();
    piece_of(concat2(prefix, s.as_str()), look)
}

fn shown_or(text: &String, placeholder: &str) -> (r: String)
    ensures
        r@ == or_placeholder(text@, placeholder@),
{
    if text.as_str().is_empty() {
        placeholder.to_string()
    } else {
        text.clone()
    }
}

fn field_look_exec(active: bool, other: Look) -> (l: Look)
    ensures
        l == field_look(active, other),
{
    if active {
        underlined_look(Tone::Yellow)
    } else {
        other
    }
}

fn auth_fields(app: &App, tui: &TuiState) -> (r: Vec<Piece>)
    ensures
        pieces(r@) == auth_fields_line(*app, *tui),
{
    let gray = fg_look(Tone::DarkGray);
    let white = fg_look(Tone::White);
    let mut r: Vec<Piece> = Vec::new();
    if tui.auth_type_index == 0 {
        match &app.current_request.auth {
            Some(x) => r.push(auth_summary_piece(x, " Current:", gray)),
            None => r.push(piece(" (no auth)", gray)),
        }
    } else if tui.auth_type_index == 1 {
        r.push(piece(" Token: ", gray));
        r.push(piece_of(shown_or(&tui.auth_token_input, "token..."), underlined_look(Tone::White)));
    } else if tui.auth_type_index == 2 {
        r.push(piece(" User: ", gray));
        r.push(piece_of(shown_or(&tui.auth_username_input, "user"), field_look_exec(tui.auth_editing_username, white)));
        r.push(piece("  Pass: ", gray));
        r.push(piece_of(shown_or(&tui.auth_password_input, "pass"), field_look_exec(!tui.auth_editing_username, white)));
    } else {
        r.push(piece_of(shown_or(&tui.auth_key_name_input, "Header"), field_look_exec(tui.auth_editing_key_name, white)));
        r.push(piece(": ", gray));
        r.push(piece_of(shown_or(&tui.auth_key_value_input, "value"), field_look_exec(!tui.auth_editing_key_name, white)));
    }
    assert(pieces(r@) =~= auth_fields_line(*app, *tui));
    r
}

fn auth_cursor_exec(tui: &TuiState) -> (r: Option<(usize, usize)>)
    requires
        tui.auth_token_cursor + 13 <= usize::MAX,
        tui.auth_username_cursor + 7 <= usize::MAX,
        tui.auth_username_input@.len() + tui.auth_password_cursor + 20 <= usize::MAX,
        tui.auth_key_name_input@.len() + tui.auth_key_value_cursor + 8 <= usize::MAX,
    ensures
        match r {
            Some((x, y)) => auth_cursor_at(*tui) == Some((x as int, y as int)),
            None => auth_cursor_at(*tui) is None,
        },
{
    if tui.auth_type_index == 1 {
        Some((13 + tui.auth_token_cursor, 1))
    } else if tui.auth_type_index == 2 {
        if tui.auth_editing_username {
            Some((7 + tui.auth_username_cursor, 1))
        } else {
            let ul = if tui.auth_username_input.as_str().is_empty() {
                4
            } else {
                char_len(tui.auth_username_input.as_str())
            };
            Some((7 + ul + 8 + tui.auth_password_cursor, 1))
        }
    } else if tui.auth_type_index == 3 {
        if tui.auth_editing_key_name {
            Some((tui.auth_key_name_cursor, 1))
        } else {
            let kl = if tui.auth_key_name_input.as_str().is_empty() {
                6
            } else {
                char_len(tui.auth_key_name_input.as_str())
            };
            Some((kl + 2 + tui.auth_key_value_cursor, 1))
        }
    } else {
        None
    }
}

/// The authentication tab; its title is ` Auth `.
pub fn auth_tab(app: &App, tui: &TuiState) -> (r: TabView)
    requires
        auth_tab_ready(*app, *tui),
    ensures
        r.title@ == " Auth "@,
        crate::tui::view::lines(r.lines@) == auth_tab_lines(*app, *tui),
        match r.cursor {
            Some((x, y)) => tui.editing_auth && auth_cursor_at(*tui) == Some((x as int, y as int)),
            None => !tui.editing_auth || auth_cursor_at(*tui) is None,
        },
{
    let gray = fg_look(Tone::DarkGray);
    let mut lines: Vec<Vec<Piece>> = Vec::new();
    if !tui.editing_auth {
        let mut l: Vec<Piece> = Vec::new();
        match &app.current_request.auth {
            None => {
                l.push(piece(" (none)  ", gray));
                l.push(piece("Enter", gray));
                l.push(piece(" to configure", gray));
            },
            Some(x) => l.push(auth_summary_piece(x, " ", fg_look(Tone::Cyan))),
        }
        assert(pieces(l@) =~= auth_tab_lines(*app, *tui)[0]);
        lines.push(l);
        assert(crate::tui::view::lines(lines@) =~= auth_tab_lines(*app, *tui));
        return TabView { title: " Auth ".to_string(), lines, cursor: None };
    }
    let mut first: Vec<Piece> = Vec::new();
    first.push(piece("\u{25c0} ", fg_look(Tone::Cyan)));
    first.push(piece_of(pad_left_exec(auth_type_name(tui.auth_type_index), 7), bold_look(Tone::Yellow)));
    first.push(piece(" \u{25b6}", fg_look(Tone::Cyan)));
    assert(pieces(first@) =~= auth_tab_lines(*app, *tui)[0]);
    let second = auth_fields(app, tui);
    let mut third: Vec<Piece> = Vec::new();
    third.push(piece(" Enter=save  Esc=cancel  \u{2190}\u{2192}=type  Tab=field", gray));
    assert(pieces(third@) =~= auth_tab_lines(*app, *tui)[2]);
    lines.push(first);
    lines.push(second);
    lines.push(third);
    assert(crate::tui::view::lines(lines@) =~= auth_tab_lines(*app, *tui));
    let cursor = auth_cursor_exec(tui);
    TabView { title: " Auth ".to_string(), lines, cursor }
}

// ── Layout ───────────────────────────────────────────────────────────────

/// The height of the bottom area of a screen `total` lines high: the
/// drawer's (35 percent, at least five lines) when one is open, else one
/// line for the status bar.
pub open spec fn bottom_height_of(t: TuiState, total: u16) -> u16 {
    if t.drawer is Some {
        let h = (total * 35 / 100) as u16;
        if h < 5 { 5 } else { h }
    } else {
        1
    }
}

pub fn bottom_height(tui: &TuiState, total: u16) -> (r: u16)
    requires
        tui.drawer is Some ==> total * 35 <= u16::MAX,
    ensures
        r == bottom_height_of(*tui, total),
{
    if tui.drawer.is_some() {
        let h = total * 35 / 100;
        if h < 5 {
            5
        } else {
            h
        }
    } else {
        1
    }
}

/// The border colour of a panel: cyan when it has the focus.
pub open spec fn panel_border_of(t: TuiState, p: FocusedPanel) -> Tone {
    if t.focused_panel == p {
        Tone::Cyan
    } else {
        Tone::DarkGray
    }
}

pub fn panel_border(tui: &TuiState, p: FocusedPanel) -> (r: Tone)
    ensures
        r == panel_border_of(*tui, p),
{
    if tui.focused_panel == p {
        Tone::Cyan
    } else {
        Tone::DarkGray
    }
}

} // verus!
