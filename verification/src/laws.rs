//! Properties of the library as a whole: what one operation undoes of
//! another, what cycles return to where they started, and what stays as it
//! is.
use vstd::prelude::*;
use crate::http::request_builder::url_with_params;
use crate::models::collection::saved_request;
use crate::models::environment::{lookup, substitute_seq, var_pattern};
use crate::models::history::HistoryEntry;
use crate::models::collection::CollectionEntry;
use crate::models::request::{method_name, next_method, parse_method, Method, RequestView};
use crate::text::{
    ascii_lower, ascii_upper, decimal, is_ascii_seq, lemma_replace_absent, lower, occurs_at, replace_all, seq_contains,
    trim_end_seq, upper,
};
use crate::http::request_builder::percent_encoded;
use crate::app::{is_content_type, outgoing};
use crate::tui::drawer_keys::drawer_closed;
use crate::tui::events::{drawer_opened, drawer_toggled, history_drawer_opened, other_panel};
use crate::tui::keys::{line_key, Key, KeyPress};
use crate::tui::edit_keys::body_key_result;
use crate::tui::editing::{
    cursor_down, cursor_up, lemma_line_end_bounds, lemma_line_end_no_break, lemma_line_start_at, lemma_line_start_bounds,
    lemma_line_start_no_break, leading_spaces, line_end, line_start, newline_edit, spaces,
};
use crate::models::auth::{auth_summary, head_within, tail_within, AuthView};
use vstd::utf8::encode_utf8;
use crate::tui::state::{
    cursors_in_text, filtered, history_selected, keeps_cursors, next_request_tab_of, next_response_tab_of, prev_request_tab_of, prev_response_tab_of, DrawerPanel,
    FocusedPanel, RequestTab, ResponseTab, TuiState,
};

verus! {

/// The name of a method parses back to the method: `Method::from_str` of
/// `to_string` gives the method again.
pub proof fn law_method_name_parses_back(m: Method)
    ensures
        parse_method(method_name(m)) == Some(m),
{
    reveal_strlit("GET");
    reveal_strlit("POST");
    reveal_strlit("PUT");
    reveal_strlit("DELETE");
    reveal_strlit("PATCH");
    let n = method_name(m);
    assert(is_ascii_seq(n));
    assert(ascii_upper(n) =~= n);
    assert(upper(n) == n);
    assert("POST"@[0] != "GET"@[0]);
    assert("PUT"@[0] != "GET"@[0]);
    assert("PUT"@[1] != "POST"@[1]);
    assert("DELETE"@.len() != "GET"@.len() && "DELETE"@.len() != "POST"@.len());
    assert("DELETE"@.len() != "PUT"@.len());
    assert("PATCH"@[0] != "GET"@[0] && "PATCH"@.len() != "POST"@.len());
    assert("PATCH"@[1] != "PUT"@[1] && "PATCH"@.len() != "DELETE"@.len());
}

/// Cycling the method (`m`) visits all five methods and comes back after
/// five steps.
pub proof fn law_method_cycle(m: Method)
    ensures
        next_method(m) != m,
        next_method(next_method(next_method(next_method(next_method(m))))) == m,
{
}

/// Stepping to the next request tab and back (`]` then `[`) returns to the
/// tab, either way round, and four steps go round all tabs.
pub proof fn law_request_tab_cycle(t: RequestTab)
    ensures
        prev_request_tab_of(next_request_tab_of(t)) == t,
        next_request_tab_of(prev_request_tab_of(t)) == t,
        next_request_tab_of(next_request_tab_of(next_request_tab_of(next_request_tab_of(t)))) == t,
{
}

/// Stepping to the next response tab and back returns to the tab, either
/// way round, and three steps go round all tabs.
pub proof fn law_response_tab_cycle(t: ResponseTab)
    ensures
        prev_response_tab_of(next_response_tab_of(t)) == t,
        next_response_tab_of(prev_response_tab_of(t)) == t,
        next_response_tab_of(next_response_tab_of(next_response_tab_of(t))) == t,
{
}

/// Tab moves the focus to the other panel, and a second Tab moves it back.
pub proof fn law_focus_toggle(p: FocusedPanel)
    ensures
        other_panel(p) != p,
        other_panel(other_panel(p)) == p,
{
}

/// A text that holds no `{{name}}` of any variable comes out of
/// substitution unchanged; in particular every text does with no variables.
pub proof fn law_substitution_keeps_text_without_variables(text: Seq<char>, vars: Seq<(Seq<char>, Seq<char>)>)
    requires
        forall|i: int| 0 <= i < vars.len() ==> !seq_contains(text, #[trigger] var_pattern(vars[i].0)),
    ensures
        substitute_seq(text, vars) == text,
    decreases vars.len(),
{
    if vars.len() > 0 {
        lemma_replace_absent(text, var_pattern(vars[0].0), vars[0].1);
        assert forall|i: int| 0 <= i < vars.drop_first().len() implies !seq_contains(
            text,
            #[trigger] var_pattern(vars.drop_first()[i].0),
        ) by {
            assert(vars.drop_first()[i] == vars[i + 1]);
        }
        law_substitution_keeps_text_without_variables(text, vars.drop_first());
    }
}

/// Saving a request (in a collection or the history) and loading it back
/// gives the request again, without its query parameters.
pub proof fn law_saved_request_round_trip(r: RequestView)
    ensures
        saved_request(method_name(r.method), r.url, r.headers, r.body, r.auth) == Some(
            RequestView { params: Seq::empty(), ..r },
        ),
{
    law_method_name_parses_back(r.method);
}

/// With no search text the history drawer lists every entry, in order.
pub proof fn law_empty_search_lists_all(entries: Seq<HistoryEntry>)
    ensures
        filtered(Seq::empty(), entries) == Seq::new(entries.len(), |i: int| i as usize),
    decreases entries.len(),
{
    if entries.len() > 0 {
        law_empty_search_lists_all(entries.drop_last());
        assert(filtered(Seq::empty(), entries) =~= Seq::new(entries.len(), |i: int| i as usize));
    }
}

/// A URL without query parameters goes out as it is.
pub proof fn law_url_without_params(base: Seq<char>)
    ensures
        url_with_params(base, Seq::empty()) == base,
{
}

/// In a one-line input, typing a character and then Backspace gives back
/// the text and the cursor.
pub proof fn law_backspace_undoes_typing(s: Seq<char>, c: usize, ch: char)
    requires
        c <= s.len(),
        c < usize::MAX,
    ensures
        ({
            let (s1, c1) = line_key(s, c, Key::Char(ch));
            line_key(s1, c1, Key::Backspace)
        }) == (s, c),
{
    let s1 = s.take(c as int).push(ch) + s.skip(c as int);
    assert(s1.remove(c as int) =~= s);
}

/// In a one-line input, Left and then Right give back a cursor that is
/// inside the text and not at its start.
pub proof fn law_right_undoes_left(s: Seq<char>, c: usize)
    requires
        0 < c <= s.len(),
    ensures
        ({
            let (s1, c1) = line_key(s, c, Key::Left);
            line_key(s1, c1, Key::Right)
        }) == (s, c),
{
}

/// Toggling a drawer twice from a screen without a drawer closes it again.
pub proof fn law_drawer_toggle_twice(t0: TuiState, t1: TuiState, t2: TuiState, p: DrawerPanel)
    requires
        t0.drawer is None,
        drawer_toggled(t0, t1, p),
        drawer_toggled(t1, t2, p),
    ensures
        t1.drawer == Some(p),
        t2.drawer is None,
{
    reveal(drawer_closed);
    reveal(drawer_opened);
    reveal(history_drawer_opened);
}

/// Removing the header (or query parameter) just added, the last one,
/// gives back the list as it was before.
pub proof fn law_remove_undoes_add_pair(pairs: Seq<(Seq<char>, Seq<char>)>, added: (Seq<char>, Seq<char>))
    ensures
        pairs.push(added).remove(pairs.len() as int) == pairs,
{
    assert(pairs.push(added).remove(pairs.len() as int) =~= pairs);
}

/// Removing the newest history entry, the first one, right after it was
/// recorded gives back the history as it was.
pub proof fn law_history_remove_undoes_add(entries: Seq<HistoryEntry>, entry: HistoryEntry)
    ensures
        (seq![entry] + entries).remove(0) == entries,
{
    assert((seq![entry] + entries).remove(0) =~= entries);
}

/// Removing the request just saved to a collection, the last one, gives
/// back the collection's requests as they were.
pub proof fn law_collection_remove_undoes_add(entries: Seq<CollectionEntry>, entry: CollectionEntry)
    ensures
        entries.push(entry).remove(entries.len() as int) == entries,
{
    assert(entries.push(entry).remove(entries.len() as int) =~= entries);
}

/// After a variable is set (`Environment::set_variable`), reading it
/// (`get_variable`) gives the value set, and every other variable reads as
/// before; removing it again (`remove_variable`) leaves it unset and the
/// others still as before the set.
pub proof fn law_variable_read_after_write(
    before: Seq<(Seq<char>, Seq<char>)>,
    after_set: Seq<(Seq<char>, Seq<char>)>,
    after_remove: Seq<(Seq<char>, Seq<char>)>,
    key: Seq<char>,
    value: Seq<char>,
)
    requires
        forall|k: Seq<char>| #[trigger]
            lookup(after_set, k) == if k == key {
                Some(value)
            } else {
                lookup(before, k)
            },
        forall|k: Seq<char>| #[trigger]
            lookup(after_remove, k) == if k == key {
                None
            } else {
                lookup(after_set, k)
            },
    ensures
        lookup(after_set, key) == Some(value),
        lookup(after_remove, key) is None,
        forall|k: Seq<char>| k != key ==> #[trigger] lookup(after_remove, k) == lookup(before, k),
{
    assert(lookup(after_set, key) == Some(value));
    assert(lookup(after_remove, key) is None);
    assert forall|k: Seq<char>| k != key implies #[trigger] lookup(after_remove, k) == lookup(before, k) by {
        assert(lookup(after_set, k) == lookup(before, k));
    }
}

/// Every cursor of the interface stays within its text: it does in the
/// state the interface starts in, and a run of key presses that each keep
/// it so (as `handle_key` does, by its contract) never moves one outside.
pub proof fn law_cursors_stay_in_text(states: Seq<TuiState>)
    requires
        states.len() > 0,
        states[0].is_initial(),
        forall|i: int| 0 < i < states.len() ==> keeps_cursors(states[i - 1], #[trigger] states[i]),
    ensures
        forall|i: int| 0 <= i < states.len() ==> cursors_in_text(#[trigger] states[i]),
    decreases states.len(),
{
    if states.len() == 1 {
        reveal(cursors_in_text);
    } else {
        let shorter = states.drop_last();
        assert forall|i: int| 0 < i < shorter.len() implies keeps_cursors(shorter[i - 1], #[trigger] shorter[i]) by {
            assert(keeps_cursors(states[i - 1], states[i]));
        }
        law_cursors_stay_in_text(shorter);
        assert forall|i: int| 0 <= i < states.len() implies cursors_in_text(#[trigger] states[i]) by {
            if i < states.len() - 1 {
                assert(cursors_in_text(shorter[i]));
            } else {
                assert(cursors_in_text(shorter[i - 1]));
                assert(keeps_cursors(states[i - 1], states[i]));
            }
        }
    }
}

/// In the body editor, moving the cursor down a line and back up returns it
/// where it was, when it is not on the last line and its column fits in the
/// line below; on the first line, moving up goes to the start of the text.
pub proof fn law_body_down_then_up(s: Seq<char>, c: int)
    requires
        0 <= c <= s.len(),
    ensures
        line_start(s, c) == 0 ==> cursor_up(s, c) == 0,
        line_end(s, c) < s.len() && c - line_start(s, c) <= line_end(s, line_end(s, c) + 1) - (line_end(s, c) + 1)
            ==> cursor_up(s, cursor_down(s, c)) == c,
{
    let ls = line_start(s, c);
    let nl = line_end(s, c);
    lemma_line_start_bounds(s, c);
    lemma_line_end_bounds(s, c);
    if nl < s.len() && c - ls <= line_end(s, nl + 1) - (nl + 1) {
        let ns = nl + 1;
        let ne = line_end(s, ns);
        lemma_line_end_bounds(s, ns);
        lemma_line_end_no_break(s, c);
        lemma_line_end_no_break(s, ns);
        lemma_line_start_no_break(s, c);
        let c1 = cursor_down(s, c);
        assert(c1 == ns + (c - ls));
        lemma_line_start_at(s, ns, c1);
        assert forall|k: int| ls <= k < nl implies s[k] != '\n' by {
            if k >= c {
                assert(c <= k < line_end(s, c));
            }
        }
        lemma_line_start_at(s, ls, nl);
    }
}

/// Every ASCII character takes one byte in UTF-8.
proof fn lemma_ascii_one_byte_each(s: Seq<char>)
    requires
        is_ascii_seq(s),
    ensures
        encode_utf8(s).len() == s.len(),
    decreases s.len(),
{
    if s.len() > 0 {
        assert(is_ascii_seq(s.drop_first()));
        lemma_ascii_one_byte_each(s.drop_first());
    }
}

/// Within `n` bytes, an ASCII text keeps its first `n` characters.
proof fn lemma_ascii_head(s: Seq<char>, n: int)
    requires
        is_ascii_seq(s),
        0 <= n <= s.len(),
    ensures
        head_within(s, n) == s.take(n),
    decreases s.len(),
{
    if n > 0 {
        assert(is_ascii_seq(s.drop_first()));
        lemma_ascii_head(s.drop_first(), n - 1);
        assert(seq![s[0]] + s.drop_first().take(n - 1) =~= s.take(n));
    } else if s.len() > 0 {
        assert(s.take(0) =~= Seq::<char>::empty());
    }
}

/// Within `n` bytes, an ASCII text keeps its last `n` characters.
proof fn lemma_ascii_tail(s: Seq<char>, n: int)
    requires
        is_ascii_seq(s),
        0 <= n <= s.len(),
    ensures
        tail_within(s, n) == s.skip(s.len() - n),
    decreases s.len(),
{
    if n > 0 {
        assert(is_ascii_seq(s.drop_last()));
        lemma_ascii_tail(s.drop_last(), n - 1);
        assert(s.drop_last().skip(s.drop_last().len() - (n - 1)).push(s.last()) =~= s.skip(s.len() - n));
    } else {
        assert(s.skip(s.len() - n) =~= Seq::<char>::empty());
    }
}

/// The summary of an authentication shows no secret: it does not depend on
/// the password or the API key's value, and of a long bearer token only the
/// characters within its first and last three bytes count (for an ASCII
/// token longer than eight characters, its first and last three
/// characters).
pub proof fn law_summary_hides_secrets(
    username: Seq<char>,
    password1: Seq<char>,
    password2: Seq<char>,
    header: Seq<char>,
    value1: Seq<char>,
    value2: Seq<char>,
    token1: Seq<char>,
    token2: Seq<char>,
)
    ensures
        auth_summary(AuthView::BasicAuth { username, password: password1 }) == auth_summary(
            AuthView::BasicAuth { username, password: password2 },
        ),
        auth_summary(AuthView::ApiKey { header, value: value1 }) == auth_summary(
            AuthView::ApiKey { header, value: value2 },
        ),
        encode_utf8(token1).len() > 8 && encode_utf8(token2).len() > 8 && head_within(token1, 3) == head_within(
            token2,
            3,
        ) && tail_within(token1, 3) == tail_within(token2, 3) ==> auth_summary(
            AuthView::BearerToken { token: token1 },
        ) == auth_summary(AuthView::BearerToken { token: token2 }),
        is_ascii_seq(token1) && is_ascii_seq(token2) && token1.len() > 8 && token2.len() > 8 && token1.take(3)
            == token2.take(3) && token1.skip(token1.len() - 3) == token2.skip(token2.len() - 3) ==> auth_summary(
            AuthView::BearerToken { token: token1 },
        ) == auth_summary(AuthView::BearerToken { token: token2 }),
{
    if is_ascii_seq(token1) && is_ascii_seq(token2) && token1.len() > 8 && token2.len() > 8 {
        lemma_ascii_one_byte_each(token1);
        lemma_ascii_one_byte_each(token2);
        lemma_ascii_head(token1, 3);
        lemma_ascii_head(token2, 3);
        lemma_ascii_tail(token1, 3);
        lemma_ascii_tail(token2, 3);
    }
}

/// An index is listed for a search exactly when it is an entry's index and
/// the entry is selected by the search.
proof fn lemma_filtered_contains(q: Seq<char>, entries: Seq<HistoryEntry>, k: usize)
    requires
        entries.len() <= usize::MAX,
    ensures
        filtered(q, entries).contains(k) <==> (k < entries.len() && history_selected(q, entries[k as int])),
    decreases entries.len(),
{
    if entries.len() > 0 {
        let n = entries.len();
        let rest = entries.drop_last();
        lemma_filtered_contains(q, rest, k);
        let f = filtered(q, rest);
        assert(entries.last() == entries[n - 1]);
        if (k as int) < n - 1 {
            assert(rest[k as int] == entries[k as int]);
        }
        if history_selected(q, entries.last()) {
            let g = f.push((n - 1) as usize);
            assert(filtered(q, entries) == g);
            if g.contains(k) {
                let j = choose|j: int| 0 <= j < g.len() && g[j] == k;
                if j < f.len() {
                    assert(f[j] == k);
                    assert(f.contains(k));
                    assert(rest[k as int] == entries[k as int]);
                } else {
                    assert(j == f.len());
                    assert(g[j] == (n - 1) as usize);
                    assert(k as int == n - 1);
                }
                assert(k < entries.len() && history_selected(q, entries[k as int]));
            }
            if f.contains(k) {
                let j = choose|j: int| 0 <= j < f.len() && f[j] == k;
                assert(g[j] == k);
            }
            if k as int == n - 1 {
                assert(g[f.len() as int] == k);
            }
        } else {
            assert(filtered(q, entries) == f);
        }
    } else {
        assert(filtered(q, entries) =~= Seq::<usize>::empty());
        assert(!filtered(q, entries).contains(k));
    }
}

/// Typing more of the history search never lists more entries: every entry
/// listed for an ASCII search text is also listed for each start of it.
pub proof fn law_longer_search_lists_fewer(shorter: Seq<char>, longer: Seq<char>, entries: Seq<HistoryEntry>)
    requires
        entries.len() <= usize::MAX,
        is_ascii_seq(longer),
        shorter.len() <= longer.len(),
        shorter == longer.take(shorter.len() as int),
    ensures
        forall|k: usize| filtered(longer, entries).contains(k) ==> filtered(shorter, entries).contains(k),
{
    assert(is_ascii_seq(shorter));
    let p1 = lower(shorter);
    let p2 = lower(longer);
    assert(p1 == ascii_lower(shorter) && p2 == ascii_lower(longer));
    assert(p2.take(p1.len() as int) =~= p1);
    assert forall|x: Seq<char>| crate::text::seq_contains(x, p2) implies crate::text::seq_contains(x, p1) by {
        let i = choose|i: int| occurs_at(x, p2, i);
        assert(x.subrange(i, i + p1.len()) =~= p2.take(p1.len() as int));
        assert(occurs_at(x, p1, i));
    }
    assert forall|k: usize| filtered(longer, entries).contains(k) implies filtered(shorter, entries).contains(k) by {
        lemma_filtered_contains(longer, entries, k);
        lemma_filtered_contains(shorter, entries, k);
        if shorter.len() > 0 {
            let e = entries[k as int];
            match e.status {
                Some(st) => {
                    let d = crate::text::decimal(st as nat);
                    if crate::text::seq_contains(d, p2) {
                        assert(crate::text::seq_contains(d, p1));
                    }
                },
                None => {},
            }
            if crate::text::seq_contains(lower(e.url@), p2) {
                assert(crate::text::seq_contains(lower(e.url@), p1));
            }
            if crate::text::seq_contains(lower(e.method@), p2) {
                assert(crate::text::seq_contains(lower(e.method@), p1));
            }
        }
    }
}

/// In the body editor, Down and then Up give back the text and the cursor
/// when the cursor is not on the last line and its column fits in the line
/// below; Up on the first line moves the cursor to the start of the text.
pub proof fn law_body_keys_down_then_up(s: Seq<char>, c: usize)
    requires
        c <= s.len(),
        s.len() <= usize::MAX,
    ensures
        line_start(s, c as int) == 0 ==> body_key_result(s, c, KeyPress { key: Key::Up, ctrl: false }) == (s, 0usize),
        line_end(s, c as int) < s.len() && c - line_start(s, c as int) <= line_end(s, line_end(s, c as int) + 1) - (
        line_end(s, c as int) + 1) ==> ({
            let (s1, c1) = body_key_result(s, c, KeyPress { key: Key::Down, ctrl: false });
            body_key_result(s1, c1, KeyPress { key: Key::Up, ctrl: false })
        }) == (s, c),
{
    law_body_down_then_up(s, c as int);
    let nl = line_end(s, c as int);
    if nl < s.len() {
        lemma_line_end_bounds(s, c as int);
        lemma_line_start_bounds(s, c as int);
        lemma_line_end_bounds(s, nl + 1);
        assert(cursor_down(s, c as int) <= s.len());
        assert(0 <= cursor_down(s, c as int));
    }
}

/// Substitution replaces every occurrence of the pattern, not only the
/// first: in a text made of `s`, the pattern and `t`, where the pattern
/// first occurs right after `s`, that occurrence becomes the replacement and
/// the rest `t` has its own occurrences replaced in turn.
pub proof fn law_replace_every_occurrence(s: Seq<char>, p: Seq<char>, r: Seq<char>, t: Seq<char>)
    requires
        p.len() > 0,
        forall|i: int| 0 <= i < s.len() ==> !occurs_at(s + p + t, p, i),
    ensures
        replace_all(s + p + t, p, r) == s + r + replace_all(t, p, r),
    decreases s.len(),
{
    let x = s + p + t;
    if s.len() == 0 {
        assert(x.subrange(0, p.len() as int) =~= p);
        assert(x.skip(p.len() as int) =~= t);
        assert(s + r + replace_all(t, p, r) =~= r + replace_all(t, p, r));
    } else {
        assert(!occurs_at(x, p, 0));
        assert(x.subrange(0, p.len() as int) != p);
        let s1 = s.skip(1);
        assert(x.skip(1) =~= s1 + p + t);
        assert forall|i: int| 0 <= i < s1.len() implies !occurs_at(s1 + p + t, p, i) by {
            assert(!occurs_at(x, p, i + 1));
            if occurs_at(s1 + p + t, p, i) {
                assert(x.subrange(i + 1, i + 1 + p.len()) =~= (s1 + p + t).subrange(i, i + p.len()));
            }
        }
        law_replace_every_occurrence(s1, p, r, t);
        assert(seq![x[0]] + (s1 + r + replace_all(t, p, r)) =~= s + r + replace_all(t, p, r));
    }
}

/// Substituting one variable replaces every `{{name}}` of it: after the
/// first one, the rest of the text is substituted as well.
pub proof fn law_substitution_replaces_every_occurrence(s: Seq<char>, key: Seq<char>, value: Seq<char>, t: Seq<char>)
    requires
        forall|i: int| 0 <= i < s.len() ==> !occurs_at(s + var_pattern(key) + t, var_pattern(key), i),
    ensures
        substitute_seq(s + var_pattern(key) + t, seq![(key, value)]) == s + value + substitute_seq(
            t,
            seq![(key, value)],
        ),
{
    let vars = seq![(key, value)];
    let pat = var_pattern(key);
    reveal_strlit("{{");
    reveal_strlit("}}");
    assert(pat.len() >= 4);
    assert(vars.drop_first() =~= Seq::<(Seq<char>, Seq<char>)>::empty());
    law_replace_every_occurrence(s, pat, value, t);
    let x = s + pat + t;
    assert(substitute_seq(x, vars) == substitute_seq(replace_all(x, pat, value), vars.drop_first()));
    assert(substitute_seq(replace_all(x, pat, value), vars.drop_first()) == replace_all(x, pat, value));
    assert(substitute_seq(t, vars) == substitute_seq(replace_all(t, pat, value), vars.drop_first()));
    assert(substitute_seq(replace_all(t, pat, value), vars.drop_first()) == replace_all(t, pat, value));
}

/// The characters that may stand in an encoded query: letters, digits,
/// `-`, `_`, `.`, `~` and the `%` of an escape.
pub open spec fn query_safe(c: char) -> bool {
    ('A' <= c && c <= 'Z') || ('a' <= c && c <= 'z') || ('0' <= c && c <= '9') || c == '-' || c == '_' || c
        == '.' || c == '~' || c == '%'
}

/// The bytes that RFC 3986 leaves unreserved: the ASCII letters (65-90,
/// 97-122) and digits (48-57), `-` (45), `_` (95), `.` (46) and `~` (126).
pub open spec fn rfc3986_unreserved(b: u8) -> bool {
    (65 <= b && b <= 90) || (97 <= b && b <= 122) || (48 <= b && b <= 57) || b == 45 || b == 95 || b == 46 || b
        == 126
}

proof fn lemma_percent_encoded_safe(bytes: Seq<u8>)
    ensures
        forall|i: int| 0 <= i < percent_encoded(bytes).len() ==> query_safe(#[trigger] percent_encoded(bytes)[i]),
    decreases bytes.len(),
{
    if bytes.len() > 0 {
        lemma_percent_encoded_safe(bytes.drop_first());
        let head = crate::http::request_builder::pct_byte(bytes[0]);
        let rest = percent_encoded(bytes.drop_first());
        assert(percent_encoded(bytes) == head + rest);
        let b = bytes[0];
        assert(b / 16 < 16 && b % 16 < 16);
        assert forall|i: int| 0 <= i < head.len() implies query_safe(#[trigger] head[i]) by {}
        assert forall|i: int| 0 <= i < percent_encoded(bytes).len() implies query_safe(
            #[trigger] percent_encoded(bytes)[i],
        ) by {
            if i < head.len() {
                assert(percent_encoded(bytes)[i] == head[i]);
            } else {
                assert(percent_encoded(bytes)[i] == rest[i - head.len()]);
            }
        }
    }
}

/// Percent-encoding keeps exactly the RFC 3986 unreserved bytes as they are
/// and writes every other byte as `%` and two more characters, so an
/// encoded query value holds none of the delimiters `#`, `&`, `=`, `?`,
/// `+`, `/` or a space.
pub proof fn law_percent_encoding_is_query_safe(bytes: Seq<u8>, b: u8)
    ensures
        forall|i: int| 0 <= i < percent_encoded(bytes).len() ==> query_safe(#[trigger] percent_encoded(bytes)[i]),
        forall|i: int|
            0 <= i < percent_encoded(bytes).len() ==> {
                let c = #[trigger] percent_encoded(bytes)[i];
                c != '#' && c != '&' && c != '=' && c != '?' && c != '+' && c != '/' && c != ' '
            },
        rfc3986_unreserved(b) ==> percent_encoded(seq![b]) == seq![(b as u32) as char],
        !rfc3986_unreserved(b) ==> percent_encoded(seq![b]).len() == 3 && percent_encoded(seq![b])[0] == '%',
{
    lemma_percent_encoded_safe(bytes);
    assert(seq![b].drop_first() =~= Seq::<u8>::empty());
    assert(percent_encoded(Seq::<u8>::empty()) == Seq::<char>::empty());
    assert(percent_encoded(seq![b]) =~= crate::http::request_builder::pct_byte(b));
    assert(b / 16 < 16 && b % 16 < 16);
}

/// The JSON content type is added only when no header names the content
/// type in any letter case: the test ignores ASCII case, and a request whose
/// headers already name it (`Content-Type`, `content-type`, ...) goes out
/// with its headers as they are.
pub proof fn law_content_type_ignores_case(name: Seq<char>, r: RequestView)
    ensures
        is_content_type(name) == is_content_type(ascii_lower(name)),
        is_content_type("Content-Type"@),
        is_content_type("content-type"@),
        is_content_type("CONTENT-TYPE"@),
        (exists|i: int| 0 <= i < r.headers.len() && ascii_lower(#[trigger] r.headers[i].0) == "content-type"@)
            ==> outgoing(r) == r,
        r.body is Some && (forall|i: int| 0 <= i < r.headers.len() ==> ascii_lower(#[trigger] r.headers[i].0) != "content-type"@)
            ==> outgoing(r).headers == r.headers.push(("Content-Type"@, "application/json"@)),
{
    reveal_strlit("Content-Type");
    reveal_strlit("content-type");
    reveal_strlit("CONTENT-TYPE");
    assert(ascii_lower(ascii_lower(name)) =~= ascii_lower(name));
    assert(ascii_lower("Content-Type"@) =~= "content-type"@);
    assert(ascii_lower("content-type"@) =~= "content-type"@);
    assert(ascii_lower("CONTENT-TYPE"@) =~= "content-type"@);
}

/// The history search also looks at the status code: an entry whose status,
/// written in decimal, contains the search text is listed, as is one whose
/// URL or method contains it in any case.
pub proof fn law_search_finds_status_url_and_method(q: Seq<char>, entries: Seq<HistoryEntry>, k: usize, s: u16)
    requires
        entries.len() <= usize::MAX,
        k < entries.len(),
    ensures
        entries[k as int].status == Some(s) && seq_contains(decimal(s as nat), lower(q)) ==> filtered(
            q,
            entries,
        ).contains(k),
        seq_contains(lower(entries[k as int].url@), lower(q)) ==> filtered(q, entries).contains(k),
        seq_contains(lower(entries[k as int].method@), lower(q)) ==> filtered(q, entries).contains(k),
        q.len() == 0 ==> filtered(q, entries).contains(k),
{
    lemma_filtered_contains(q, entries, k);
}

/// Enter in the body editor opens a new line indented as the current one;
/// after an opening `{` or `[` (spaces after it aside), two spaces deeper,
/// and the cursor goes to the end of that indentation.
pub proof fn law_newline_indents_after_bracket(s: Seq<char>, c: int)
    requires
        0 <= c <= s.len(),
    ensures
        ({
            let line = s.subrange(line_start(s, c), c);
            let n = leading_spaces(line);
            let t = trim_end_seq(line);
            let (ins, cursor) = newline_edit(s, c);
            if t.len() > 0 && (t.last() == '{' || t.last() == '[') {
                &&& ins.take(n + 3int) == seq!['\n'] + spaces(n + 2)
                &&& cursor == c + 3 + n
            } else {
                &&& ins == seq!['\n'] + spaces(n)
                &&& cursor == c + 1 + n
            }
        }),
{
    let line = s.subrange(line_start(s, c), c);
    let n = leading_spaces(line);
    assert(spaces(n) + spaces(2) =~= spaces(n + 2));
    let (ins, cursor) = newline_edit(s, c);
    assert((seq!['\n'] + spaces(n + 2)).len() == n + 3);
    assert((seq!['\n'] + spaces(n + 2) + seq!['\n'] + spaces(n)).take(n + 3int) =~= seq!['\n'] + spaces(n + 2));
    assert((seq!['\n'] + spaces(n + 2)).take(n + 3int) =~= seq!['\n'] + spaces(n + 2));
}

} // verus!
