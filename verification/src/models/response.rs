//! Responses as the client keeps them: status, headers and the body as JSON
//! text.
use vstd::prelude::*;
use crate::models::{opt_view, pairs_view};

verus! {

broadcast use vstd::string::group_string_axioms;

/// What `serde_json` gives for `text`: when it parses as a JSON value
/// (`serde_json::from_str::<serde_json::Value>`), that value written back
/// compactly (`serde_json::to_string`); otherwise nothing.
pub uninterp spec fn json_compact(text: Seq<char>) -> Option<Seq<char>>;

/// The JSON string literal for `text` (`serde_json::to_string` of
/// `serde_json::Value::String`).
pub uninterp spec fn json_quoted(text: Seq<char>) -> Seq<char>;

/// Parses `text` as a JSON value and writes it back compactly, or gives
/// `None` when it does not parse. Parsing and writing are `serde_json`'s;
/// the contract names the result and states nothing else of it.
#[verifier::external_body]
fn json_reencode(text: &str) -> (r: Option<String>)
    ensures
        opt_view(r) == json_compact(text@),
{
    match serde_json::from_str::<serde_json::Value>(text) {
        Ok(v) => serde_json::to_string(&v).ok(),
        Err(_) => None,
    }
}

/// The JSON string literal of `text`, as `serde_json` writes it.
#[verifier::external_body]
fn json_quote(text: &str) -> (r: String)
    ensures
        r@ == json_quoted(text@),
{
    serde_json::to_string(&serde_json::Value::String(text.to_string())).unwrap_or_default()
}

/// The JSON text kept for a response whose raw body is `raw`: the body
/// itself when it is JSON, otherwise the body as a JSON string.
pub open spec fn body_json(raw: Seq<char>) -> Seq<char> {
    match json_compact(raw) {
        Some(t) => t,
        None => json_quoted(raw),
    }
}

/// The JSON text kept for a stored body: the stored text when it is JSON,
/// `null` when it is missing or not JSON.
pub open spec fn stored_body_json(stored: Option<Seq<char>>) -> Seq<char> {
    match stored {
        Some(s) => match json_compact(s) {
            Some(t) => t,
            None => "null"@,
        },
        None => "null"@,
    }
}

/// The JSON text to keep for a raw response body.
pub fn body_from_raw(raw: &str) -> (r: String)
    ensures
        r@ == body_json(raw@),
{
    match json_reencode(raw) {
        Some(t) => t,
        None => json_quote(raw),
    }
}

/// The JSON text to keep for a stored body.
pub fn body_from_stored(stored: &Option<String>) -> (r: String)
    ensures
        r@ == stored_body_json(opt_view(*stored)),
{
    match stored {
        Some(s) => match json_reencode(s.as_str()) {
            Some(t) => t,
            None => "null".to_string(),
        },
        None => "null".to_string(),
    }
}

/// An HTTP response: status code, headers (each name, and its value as the
/// bytes received), and the body as compact JSON text.
#[derive(Debug)]
pub struct Response {
    pub status: u16,
    pub headers: Vec<(String, Vec<u8>)>,
    pub body: String,
}

/// Header pairs as (name, value bytes).
pub open spec fn raw_headers(hs: Seq<(String, Vec<u8>)>) -> Seq<(Seq<char>, Seq<u8>)> {
    hs.map_values(|p: (String, Vec<u8>)| (p.0@, p.1@))
}

/// A byte that a header value shows as it is: visible ASCII or a tab
/// (`is_visible_ascii` of the `http` crate).
pub open spec fn visible_byte(b: u8) -> bool {
    (32 <= b && b < 127) || b == 9
}

/// A header value as text (`HeaderValue::to_str`): its bytes as characters
/// when every byte is visible, none otherwise.
pub open spec fn header_value_text(v: Seq<u8>) -> Option<Seq<char>> {
    if forall|i: int| 0 <= i < v.len() ==> visible_byte(#[trigger] v[i]) {
        Some(Seq::new(v.len(), |i: int| (v[i] as u32) as char))
    } else {
        None
    }
}

/// The headers as texts, with `missing` for a value that is not text.
pub open spec fn header_texts(hs: Seq<(Seq<char>, Seq<u8>)>, missing: Seq<char>) -> Seq<(Seq<char>, Seq<char>)> {
    Seq::new(
        hs.len(),
        |i: int|
            (hs[i].0, match header_value_text(hs[i].1) {
                Some(t) => t,
                None => missing,
            }),
    )
}

/// A header value as text, or `missing` when it is not text.
pub fn header_value_str(v: &Vec<u8>, missing: &str) -> (r: String)
    ensures
        r@ == match header_value_text(v@) {
            Some(t) => t,
            None => missing@,
        },
{
    let mut out = String::new();
    let mut i: usize = 0;
    while i < v.len()
        invariant
            i <= v@.len(),
            forall|k: int| 0 <= k < i ==> visible_byte(#[trigger] v@[k]),
            out@ == Seq::new(i as nat, |k: int| (v@[k] as u32) as char),
        decreases v.len() - i,
    {
        let b = v[i];
        if !((32 <= b && b < 127) || b == 9) {
            return missing.to_string();
        }
        crate::text::push_char(&mut out, crate::text::char_from_ascii(b as u32));
        assert(out@ =~= Seq::new((i + 1) as nat, |k: int| (v@[k] as u32) as char));
        i += 1;
    }
    out
}

/// A lower-case hexadecimal digit.
pub open spec fn hex_lower(d: nat) -> char {
    if d < 10 {
        ((48 + d) as u32) as char
    } else {
        ((87 + d) as u32) as char
    }
}

/// A byte in lower-case hexadecimal without leading zeros (`{:x}`).
pub open spec fn byte_hex(b: u8) -> Seq<char> {
    if b < 16 {
        seq![hex_lower(b as nat)]
    } else {
        seq![hex_lower((b / 16) as nat), hex_lower((b % 16) as nat)]
    }
}

/// One byte of a header value as `{:?}` writes it: `"` escaped, other
/// visible bytes as they are, the rest as `\x` and their hexadecimal.
pub open spec fn value_byte_debug(b: u8) -> Seq<char> {
    if b == 34 {
        seq!['\\', '"']
    } else if visible_byte(b) {
        seq![(b as u32) as char]
    } else {
        seq!['\\', 'x'] + byte_hex(b)
    }
}

/// The bytes of a header value as `{:?}` writes them.
pub open spec fn value_bytes_debug(v: Seq<u8>) -> Seq<char>
    decreases v.len(),
{
    if v.len() == 0 {
        Seq::empty()
    } else {
        value_bytes_debug(v.drop_last()) + value_byte_debug(v.last())
    }
}

/// A header value as `{:?}` writes it (`<HeaderValue as Debug>::fmt`): its
/// bytes between quotes.
pub open spec fn header_value_debug(v: Seq<u8>) -> Seq<char> {
    "\""@ + value_bytes_debug(v) + "\""@
}

fn hex_lower_exec(d: u8) -> (c: char)
    requires
        d < 16,
    ensures
        c == hex_lower(d as nat),
{
    if d < 10 {
        crate::text::char_from_ascii(48 + d as u32)
    } else {
        crate::text::char_from_ascii(87 + d as u32)
    }
}

/// Writes a header value as `{:?}` does.
fn value_debug(v: &Vec<u8>) -> (r: String)
    ensures
        r@ == header_value_debug(v@),
{
    let mut out = String::new();
    crate::text::push_char(&mut out, '"');
    let mut i: usize = 0;
    while i < v.len()
        invariant
            i <= v@.len(),
            out@ == seq!['"'] + value_bytes_debug(v@.take(i as int)),
        decreases v.len() - i,
    {
        let b = v[i];
        let ghost before = out@;
        if b == 34 {
            crate::text::push_char(&mut out, '\\');
            crate::text::push_char(&mut out, '"');
        } else if (32 <= b && b < 127) || b == 9 {
            crate::text::push_char(&mut out, crate::text::char_from_ascii(b as u32));
        } else {
            crate::text::push_char(&mut out, '\\');
            crate::text::push_char(&mut out, 'x');
            if b >= 16 {
                crate::text::push_char(&mut out, hex_lower_exec(b / 16));
            }
            crate::text::push_char(&mut out, hex_lower_exec(b % 16));
        }
        assert(v@.take(i + 1).drop_last() =~= v@.take(i as int));
        assert(out@ =~= before + value_byte_debug(b));
        i += 1;
    }
    assert(v@.take(v@.len() as int) =~= v@);
    crate::text::push_char(&mut out, '"');
    proof {
        reveal_strlit("\"");
    }
    assert(out@ =~= header_value_debug(v@));
    out
}

/// How `{:?}` writes a string: quoted, with quotes, backslashes and
/// special characters escaped (`<str as Debug>::fmt`).
pub uninterp spec fn debug_quoted(s: Seq<char>) -> Seq<char>;

/// Writes `s` as `{:?}` does; the result is std's, named and not stated.
#[verifier::external_body]
fn debug_str(s: &str) -> (r: String)
    ensures
        r@ == debug_quoted(s@),
{
    format!("{:?}", s)
}

/// What `{:#?}` writes for the JSON value `text` parses to
/// (`<serde_json::Value as Debug>::fmt`, alternate form), if it parses.
pub uninterp spec fn json_debug_of(text: Seq<char>) -> Option<Seq<char>>;

/// Parses `text` as a JSON value and writes it with `{:#?}`; `None` when it
/// does not parse. Both are `serde_json`'s; the result is named and not
/// stated.
#[verifier::external_body]
fn json_debug(text: &str) -> (r: Option<String>)
    ensures
        opt_view(r) == json_debug_of(text@),
{
    match serde_json::from_str::<serde_json::Value>(text) {
        Ok(v) => Some(format!("{:#?}", v)),
        Err(_) => None,
    }
}

/// The header pairs as `{:?}` writes a header map: `{"name": "value", ...}`,
/// each name written as a string is and each value as a header value is.
pub open spec fn headers_debug(hs: Seq<(Seq<char>, Seq<u8>)>) -> Seq<char> {
    "{"@ + header_entries(hs) + "}"@
}

pub open spec fn header_entries(hs: Seq<(Seq<char>, Seq<u8>)>) -> Seq<char>
    decreases hs.len(),
{
    if hs.len() == 0 {
        Seq::empty()
    } else if hs.len() == 1 {
        debug_quoted(hs[0].0) + ": "@ + header_value_debug(hs[0].1)
    } else {
        header_entries(hs.drop_last()) + ", "@ + debug_quoted(hs.last().0) + ": "@ + header_value_debug(hs.last().1)
    }
}

/// The body as the JSON value's debug form (the stored text when it does
/// not parse).
pub open spec fn body_debug(body: Seq<char>) -> Seq<char> {
    match json_debug_of(body) {
        Some(d) => d,
        None => body,
    }
}

/// A response written out for reading: the status, the headers as a map,
/// and the body as the JSON value's debug form.
pub open spec fn response_text(r: Response) -> Seq<char> {
    "status: "@ + crate::text::decimal(r.status as nat) + "\nheaders: "@ + headers_debug(raw_headers(r.headers@))
        + "\nbody: "@ + body_debug(r.body@)
}

/// What the command-line GET prints for a response: as `response_text`,
/// with a space before `body:`.
pub open spec fn get_report_text(r: Response) -> Seq<char> {
    "status: "@ + crate::text::decimal(r.status as nat) + "\nheaders: "@ + headers_debug(raw_headers(r.headers@))
        + "\n body: "@ + body_debug(r.body@)
}

impl Response {
    /// The status, the headers and the body, each written out for reading.
    fn written_parts(&self) -> (r: (String, String, String))
        ensures
            r.0@ == crate::text::decimal(self.status as nat),
            r.1@ == headers_debug(raw_headers(self.headers@)),
            r.2@ == body_debug(self.body@),
    {
        let ghost hs = raw_headers(self.headers@);
        let mut entries = String::new();
        let mut i: usize = 0;
        while i < self.headers.len()
            invariant
                i <= self.headers@.len(),
                hs == raw_headers(self.headers@),
                entries@ == header_entries(hs.take(i as int)),
            decreases self.headers.len() - i,
        {
            let k = debug_str(self.headers[i].0.as_str());
            let v = value_debug(&self.headers[i].1);
            let kv = crate::text::concat3(k.as_str(), ": ", v.as_str());
            assert(hs.take(i + 1).drop_last() =~= hs.take(i as int));
            if i == 0 {
                entries = kv;
            } else {
                entries = crate::text::concat3(entries.as_str(), ", ", kv.as_str());
            }
            proof {
                if i == 0 {
                    assert(hs.take(1) =~= seq![hs[0]]);
                }
            }
            i += 1;
        }
        assert(hs.take(self.headers@.len() as int) =~= hs);
        let status = crate::text::u16_to_decimal(self.status);
        let headers = crate::text::concat3("{", entries.as_str(), "}");
        let body = match json_debug(self.body.as_str()) {
            Some(d) => d,
            None => self.body.clone(),
        };
        (status, headers, body)
    }

    /// The response written out for reading.
    pub fn format(&self) -> (s: String)
        ensures
            s@ == response_text(*self),
    {
        let (status, headers, body) = self.written_parts();
        let a = crate::text::concat3("status: ", status.as_str(), "\nheaders: ");
        let b = crate::text::concat3(a.as_str(), headers.as_str(), "\nbody: ");
        let r = crate::text::concat2(b.as_str(), body.as_str());
        assert(r@ =~= response_text(*self));
        r
    }

    /// What the command-line GET prints for this response.
    pub fn get_report(&self) -> (s: String)
        ensures
            s@ == get_report_text(*self),
    {
        let (status, headers, body) = self.written_parts();
        let a = crate::text::concat3("status: ", status.as_str(), "\nheaders: ");
        let b = crate::text::concat3(a.as_str(), headers.as_str(), "\n body: ");
        let r = crate::text::concat2(b.as_str(), body.as_str());
        assert(r@ =~= get_report_text(*self));
        r
    }

    pub fn new(status: u16, headers: Vec<(String, Vec<u8>)>, body: String) -> (r: Response)
        ensures
            r.status == status,
            r.headers == headers,
            r.body == body,
    {
        Response { status, headers, body }
    }
}

/// What `serde_json` gives for `text` when pretty-printing: when it parses
/// as a JSON value, that value written with two-space indentation
/// (`serde_json::to_string_pretty`); otherwise nothing.
pub uninterp spec fn json_pretty_of(text: Seq<char>) -> Option<Seq<char>>;

/// Parses `text` as a JSON value and writes it back indented, or gives
/// `None` when it does not parse. Parsing and writing are `serde_json`'s;
/// the contract names the result and states nothing else of it.
#[verifier::external_body]
pub(crate) fn json_pretty(text: &str) -> (r: Option<String>)
    ensures
        opt_view(r) == json_pretty_of(text@),
{
    match serde_json::from_str::<serde_json::Value>(text) {
        Ok(v) => serde_json::to_string_pretty(&v).ok(),
        Err(_) => None,
    }
}

} // verus!
