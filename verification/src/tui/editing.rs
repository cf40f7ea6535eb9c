//! Editing a line or a text area at a cursor, and moving the cursor between
//! lines. Positions count characters.
use vstd::prelude::*;
use crate::text::{char_len_bound, from_chars, to_chars, trim_end_seq};

verus! {

broadcast use vstd::string::group_string_axioms;

/// Inserts `c` at position `cursor`.
pub fn insert_at(s: &mut String, cursor: usize, c: char)
    requires
        cursor <= old(s)@.len(),
    ensures
        final(s)@ == old(s)@.take(cursor as int).push(c) + old(s)@.skip(cursor as int),
        final(s)@.len() == old(s)@.len() + 1,
        final(s)@.len() <= usize::MAX,
{
    let v = to_chars(s.as_str());
    let mut out: Vec<char> = Vec::new();
    let mut i: usize = 0;
    while i < cursor
        invariant
            cursor <= v@.len(),
            i <= cursor,
            out@ == v@.take(i as int),
        decreases cursor - i,
    {
        out.push(v[i]);
        assert(v@.take(i as int).push(v@[i as int]) =~= v@.take(i + 1));
        i += 1;
    }
    out.push(c);
    while i < v.len()
        invariant
            cursor <= i <= v@.len(),
            out@ == v@.take(cursor as int).push(c) + v@.subrange(cursor as int, i as int),
        decreases v.len() - i,
    {
        out.push(v[i]);
        assert(v@.take(cursor as int).push(c) + v@.subrange(cursor as int, i + 1) =~= (v@.take(
            cursor as int,
        ).push(c) + v@.subrange(cursor as int, i as int)).push(v@[i as int]));
        i += 1;
    }
    assert(v@.subrange(cursor as int, v@.len() as int) =~= v@.skip(cursor as int));
    *s = from_chars(&out);
    char_len_bound(s.as_str());
}

/// Inserts the text `t` at position `cursor`.
pub fn insert_str_at(s: &mut String, cursor: usize, t: &str)
    requires
        cursor <= old(s)@.len(),
    ensures
        final(s)@ == old(s)@.take(cursor as int) + t@ + old(s)@.skip(cursor as int),
        final(s)@.len() <= usize::MAX,
{
    let v = to_chars(s.as_str());
    let tv = to_chars(t);
    let mut out: Vec<char> = Vec::new();
    let mut i: usize = 0;
    while i < cursor
        invariant
            cursor <= v@.len(),
            i <= cursor,
            out@ == v@.take(i as int),
        decreases cursor - i,
    {
        out.push(v[i]);
        assert(v@.take(i as int).push(v@[i as int]) =~= v@.take(i + 1));
        i += 1;
    }
    let mut j: usize = 0;
    while j < tv.len()
        invariant
            j <= tv@.len(),
            out@ == v@.take(cursor as int) + tv@.take(j as int),
        decreases tv.len() - j,
    {
        out.push(tv[j]);
        assert(v@.take(cursor as int) + tv@.take(j + 1) =~= (v@.take(cursor as int) + tv@.take(
            j as int,
        )).push(tv@[j as int]));
        j += 1;
    }
    assert(tv@.take(tv@.len() as int) =~= tv@);
    while i < v.len()
        invariant
            cursor <= i <= v@.len(),
            out@ == v@.take(cursor as int) + tv@ + v@.subrange(cursor as int, i as int),
        decreases v.len() - i,
    {
        out.push(v[i]);
        assert(v@.take(cursor as int) + tv@ + v@.subrange(cursor as int, i + 1) =~= (v@.take(
            cursor as int,
        ) + tv@ + v@.subrange(cursor as int, i as int)).push(v@[i as int]));
        i += 1;
    }
    assert(v@.subrange(cursor as int, v@.len() as int) =~= v@.skip(cursor as int));
    *s = from_chars(&out);
    char_len_bound(s.as_str());
}

/// Removes the character at position `index`.
pub fn remove_at(s: &mut String, index: usize)
    requires
        index < old(s)@.len(),
    ensures
        final(s)@ == old(s)@.remove(index as int),
{
    let v = to_chars(s.as_str());
    let mut out: Vec<char> = Vec::new();
    let mut i: usize = 0;
    while i < v.len()
        invariant
            index < v@.len(),
            i <= v@.len(),
            i <= index ==> out@ == v@.take(i as int),
            i > index ==> out@ == v@.remove(index as int).take(i - 1),
        decreases v.len() - i,
    {
        if i != index {
            out.push(v[i]);
        }
        proof {
            if i < index {
                assert(v@.take(i as int).push(v@[i as int]) =~= v@.take(i + 1));
            } else if i == index {
                assert(v@.take(i as int) =~= v@.remove(index as int).take(i as int));
            } else {
                assert(v@.remove(index as int).take(i - 1).push(v@[i as int]) =~= v@.remove(
                    index as int,
                ).take(i as int));
            }
        }
        i += 1;
    }
    assert(v@.remove(index as int).take(v@.len() - 1) =~= v@.remove(index as int));
    *s = from_chars(&out);
}

/// The position just after the last line break before `c`, i.e. the start
/// of the line holding position `c`.
pub open spec fn line_start(s: Seq<char>, c: int) -> int
    decreases c,
{
    if c <= 0 {
        0
    } else if s[c - 1] == '\n' {
        c
    } else {
        line_start(s, c - 1)
    }
}

/// The position of the first line break at or after `i`, or the end of the
/// text.
pub open spec fn line_end(s: Seq<char>, i: int) -> int
    decreases s.len() - i,
{
    if i >= s.len() {
        s.len() as int
    } else if s[i] == '\n' {
        i
    } else {
        line_end(s, i + 1)
    }
}

/// The number of spaces at the start of `s`.
pub open spec fn leading_spaces(s: Seq<char>) -> nat
    decreases s.len(),
{
    if s.len() > 0 && s[0] == ' ' {
        1 + leading_spaces(s.drop_first())
    } else {
        0
    }
}

/// `n` spaces.
pub open spec fn spaces(n: nat) -> Seq<char> {
    Seq::new(n, |i: int| ' ')
}

pub proof fn lemma_line_start_bounds(s: Seq<char>, c: int)
    requires
        0 <= c <= s.len(),
    ensures
        0 <= line_start(s, c) <= c,
        line_start(s, c) > 0 ==> s[line_start(s, c) - 1] == '\n',
    decreases c,
{
    if c > 0 && s[c - 1] != '\n' {
        lemma_line_start_bounds(s, c - 1);
    }
}

pub proof fn lemma_line_end_bounds(s: Seq<char>, i: int)
    requires
        0 <= i <= s.len(),
    ensures
        i <= line_end(s, i) <= s.len(),
    decreases s.len() - i,
{
    if i < s.len() && s[i] != '\n' {
        lemma_line_end_bounds(s, i + 1);
    }
}

/// No line break lies between `i` and the end of its line, and a line that
/// ends before the end of the text ends at a line break.
pub proof fn lemma_line_end_no_break(s: Seq<char>, i: int)
    requires
        0 <= i <= s.len(),
    ensures
        forall|k: int| i <= k < line_end(s, i) ==> s[k] != '\n',
        line_end(s, i) < s.len() ==> s[line_end(s, i)] == '\n',
    decreases s.len() - i,
{
    if i < s.len() && s[i] != '\n' {
        lemma_line_end_no_break(s, i + 1);
    }
}

/// No line break lies between the start of a line and a position on it.
pub proof fn lemma_line_start_no_break(s: Seq<char>, c: int)
    requires
        0 <= c <= s.len(),
    ensures
        forall|k: int| line_start(s, c) <= k < c ==> s[k] != '\n',
    decreases c,
{
    if c > 0 && s[c - 1] != '\n' {
        lemma_line_start_no_break(s, c - 1);
    }
}

/// A position reached from a line's start `a` without crossing a line break
/// lies on the line that starts at `a`.
pub proof fn lemma_line_start_at(s: Seq<char>, a: int, x: int)
    requires
        0 <= a <= x <= s.len(),
        a == 0 || s[a - 1] == '\n',
        forall|k: int| a <= k < x ==> s[k] != '\n',
    ensures
        line_start(s, x) == a,
    decreases x,
{
    if x > a {
        lemma_line_start_at(s, a, x - 1);
    }
}

/// Finds the start of the line holding position `c`.
pub fn find_line_start(v: &[char], c: usize) -> (r: usize)
    requires
        c <= v@.len(),
    ensures
        r == line_start(v@, c as int),
        r <= c,
{
    let mut i: usize = c;
    while i > 0 && v[i - 1] != '\n'
        invariant
            i <= c <= v@.len(),
            line_start(v@, c as int) == line_start(v@, i as int),
        decreases i,
    {
        i -= 1;
    }
    i
}

/// Finds the end of the line that starts at or before `i`.
pub fn find_line_end(v: &[char], i: usize) -> (r: usize)
    requires
        i <= v@.len(),
    ensures
        r == line_end(v@, i as int),
        i <= r <= v@.len(),
{
    let mut j: usize = i;
    while j < v.len() && v[j] != '\n'
        invariant
            i <= j <= v@.len(),
            line_end(v@, i as int) == line_end(v@, j as int),
        decreases v.len() - j,
    {
        j += 1;
    }
    j
}

/// Counts the spaces at the start of `v[from..to]`.
pub fn count_leading_spaces(v: &[char], from: usize, to: usize) -> (n: usize)
    requires
        from <= to <= v@.len(),
    ensures
        n == leading_spaces(v@.subrange(from as int, to as int)),
        n <= to - from,
{
    let mut i: usize = from;
    assert(v@.subrange(from as int, to as int) =~= v@.subrange(from as int, to as int));
    while i < to && v[i] == ' '
        invariant
            from <= i <= to <= v@.len(),
            leading_spaces(v@.subrange(from as int, to as int)) == (i - from) + leading_spaces(
                v@.subrange(i as int, to as int),
            ),
        decreases to - i,
    {
        assert(v@.subrange(i as int, to as int).drop_first() =~= v@.subrange(i + 1, to as int));
        i += 1;
    }
    i - from
}

/// What Enter inserts in the body editor at `c`, and where the cursor goes:
/// a line break and the current line's indentation, two spaces more after an
/// opening `{` or `[`; directly before a closing `}` or `]` the closing
/// bracket moves to a line of its own.
pub open spec fn newline_edit(s: Seq<char>, c: int) -> (Seq<char>, int) {
    let ls = line_start(s, c);
    let before = s.subrange(ls, c);
    let indent = spaces(leading_spaces(before));
    let trimmed = trim_end_seq(before);
    let opens = trimmed.len() > 0 && (trimmed.last() == '{' || trimmed.last() == '[');
    let new_indent = if opens { indent + spaces(2) } else { indent };
    let closes = opens && c < s.len() && (s[c] == '}' || s[c] == ']');
    if closes {
        (seq!['\n'] + new_indent + seq!['\n'] + indent, c + 1 + new_indent.len())
    } else {
        (seq!['\n'] + new_indent, c + 1 + new_indent.len())
    }
}

/// The cursor after moving up one line from `c`, keeping the column where
/// the line above is long enough.
pub open spec fn cursor_up(s: Seq<char>, c: int) -> int {
    let ls = line_start(s, c);
    if ls == 0 {
        0
    } else {
        let prev_end = ls - 1;
        let prev_start = line_start(s, prev_end);
        let col = c - ls;
        let prev_len = prev_end - prev_start;
        prev_start + if col < prev_len { col } else { prev_len }
    }
}

/// The cursor after moving down one line from `c`; unchanged on the last
/// line.
pub open spec fn cursor_down(s: Seq<char>, c: int) -> int {
    let ls = line_start(s, c);
    let nl = line_end(s, c);
    if nl >= s.len() {
        c
    } else {
        let next_start = nl + 1;
        let next_end = line_end(s, next_start);
        let col = c - ls;
        let next_len = next_end - next_start;
        next_start + if col < next_len { col } else { next_len }
    }
}

/// The text and cursor after Enter in the body editor.
pub fn newline_at(s: &String, c: usize) -> (r: (String, usize))
    requires
        c <= s@.len(),
    ensures
        r.0@ == s@.take(c as int) + newline_edit(s@, c as int).0 + s@.skip(c as int),
        r.1 == newline_edit(s@, c as int).1,
        r.1 <= r.0@.len(),
{
    let v = to_chars(s.as_str());
    let ls = find_line_start(&v, c);
    let n_indent = count_leading_spaces(&v, ls, c);
    let before = crate::text::slice_chars(&v, ls, c);
    let trimmed = crate::text::trim_end(before.as_str());
    let tv = to_chars(trimmed.as_str());
    let opens = tv.len() > 0 && (tv[tv.len() - 1] == '{' || tv[tv.len() - 1] == '[');
    let mut indent: Vec<char> = Vec::new();
    let mut k: usize = 0;
    while k < n_indent
        invariant
            k <= n_indent,
            indent@ == spaces(k as nat),
        decreases n_indent - k,
    {
        indent.push(' ');
        assert(spaces(k as nat).push(' ') =~= spaces((k + 1) as nat));
        k += 1;
    }
    let mut new_indent: Vec<char> = indent.clone();
    if opens {
        new_indent.push(' ');
        new_indent.push(' ');
        assert(new_indent@ =~= indent@ + spaces(2));
    }
    let closes = opens && c < v.len() && (v[c] == '}' || v[c] == ']');
    let mut insert: Vec<char> = Vec::new();
    insert.push('\n');
    let mut k: usize = 0;
    while k < new_indent.len()
        invariant
            k <= new_indent@.len(),
            insert@ == seq!['\n'] + new_indent@.take(k as int),
        decreases new_indent.len() - k,
    {
        insert.push(new_indent[k]);
        assert(seq!['\n'] + new_indent@.take(k + 1) =~= (seq!['\n'] + new_indent@.take(
            k as int,
        )).push(new_indent@[k as int]));
        k += 1;
    }
    assert(new_indent@.take(new_indent@.len() as int) =~= new_indent@);
    if closes {
        insert.push('\n');
        let mut k: usize = 0;
        let ghost base = insert@;
        while k < indent.len()
            invariant
                k <= indent@.len(),
                insert@ == base + indent@.take(k as int),
            decreases indent.len() - k,
        {
            insert.push(indent[k]);
            assert(base + indent@.take(k + 1) =~= (base + indent@.take(k as int)).push(
                indent@[k as int],
            ));
            k += 1;
        }
        assert(indent@.take(indent@.len() as int) =~= indent@);
        assert(insert@ =~= seq!['\n'] + new_indent@ + seq!['\n'] + indent@);
    }
    let text = from_chars(&insert);
    let mut out = s.clone();
    insert_str_at(&mut out, c, text.as_str());
    proof {
        assert(new_indent@.len() <= c + 2);
    }
    (out, c + 1 + new_indent.len())
}

/// The cursor after moving up a line.
pub fn move_up(s: &String, c: usize) -> (r: usize)
    requires
        c <= s@.len(),
    ensures
        r == cursor_up(s@, c as int),
        r <= s@.len(),
{
    let v = to_chars(s.as_str());
    let ls = find_line_start(&v, c);
    proof {
        lemma_line_start_bounds(v@, c as int);
    }
    if ls == 0 {
        return 0;
    }
    let prev_end = ls - 1;
    let prev_start = find_line_start(&v, prev_end);
    let col = c - ls;
    let prev_len = prev_end - prev_start;
    prev_start + if col < prev_len {
        col
    } else {
        prev_len
    }
}

/// The cursor after moving down a line.
pub fn move_down(s: &String, c: usize) -> (r: usize)
    requires
        c <= s@.len(),
    ensures
        r == cursor_down(s@, c as int),
        r <= s@.len(),
{
    let v = to_chars(s.as_str());
    let ls = find_line_start(&v, c);
    let nl = find_line_end(&v, c);
    if nl >= v.len() {
        return c;
    }
    let next_start = nl + 1;
    let next_end = find_line_end(&v, next_start);
    let col = c - ls;
    let next_len = next_end - next_start;
    next_start + if col < next_len {
        col
    } else {
        next_len
    }
}

} // verus!
