//! The URL, headers and body that a request is sent with.
use vstd::prelude::*;
use crate::models::auth::auth_header;
use crate::models::request::{Method, Request};
use crate::models::{clone_opt, opt_view, pairs_view};
use crate::text::{char_from_ascii, push_char, seq_contains};
use vstd::utf8::encode_utf8;

verus! {

broadcast use vstd::string::group_string_axioms;

/// Bytes that stand for themselves in a query string.
pub open spec fn is_unreserved(b: u8) -> bool {
    (65 <= b && b <= 90) || (97 <= b && b <= 122) || (48 <= b && b <= 57) || b == 45 || b == 95
        || b == 46 || b == 126
}

/// The upper-case hexadecimal digit of `d < 16`.
pub open spec fn hex_digit(d: nat) -> char {
    if d < 10 {
        ((48 + d) as u32) as char
    } else {
        ((55 + d) as u32) as char
    }
}

/// The encoding of one byte: itself when unreserved, otherwise `%XX`.
pub open spec fn pct_byte(b: u8) -> Seq<char> {
    if is_unreserved(b) {
        seq![(b as u32) as char]
    } else {
        seq!['%', hex_digit((b / 16) as nat), hex_digit((b % 16) as nat)]
    }
}

/// Percent-encoding of a byte string.
pub open spec fn percent_encoded(bytes: Seq<u8>) -> Seq<char>
    decreases bytes.len(),
{
    if bytes.len() == 0 {
        Seq::empty()
    } else {
        pct_byte(bytes[0]) + percent_encoded(bytes.drop_first())
    }
}

/// Percent-encoding of the UTF-8 form of a text.
pub open spec fn percent_encoded_text(s: Seq<char>) -> Seq<char> {
    percent_encoded(encode_utf8(s))
}

/// One query parameter as `key=value`, both percent-encoded.
pub open spec fn param_text(p: (Seq<char>, Seq<char>)) -> Seq<char> {
    percent_encoded_text(p.0) + "="@ + percent_encoded_text(p.1)
}

/// The query string: the encoded parameters joined by `&`.
pub open spec fn query_string(ps: Seq<(Seq<char>, Seq<char>)>) -> Seq<char>
    decreases ps.len(),
{
    if ps.len() == 0 {
        Seq::empty()
    } else if ps.len() == 1 {
        param_text(ps[0])
    } else {
        query_string(ps.drop_last()) + "&"@ + param_text(ps.last())
    }
}

/// The URL with the query parameters appended, after `?` or, when the URL
/// already has a query, after `&`.
pub open spec fn url_with_params(base: Seq<char>, ps: Seq<(Seq<char>, Seq<char>)>) -> Seq<char> {
    if ps.len() == 0 {
        base
    } else {
        let sep = if seq_contains(base, "?"@) { '&' } else { '?' };
        base.push(sep) + query_string(ps)
    }
}

fn hex_digit_exec(d: u8) -> (c: char)
    requires
        d < 16,
    ensures
        c == hex_digit(d as nat),
{
    if d < 10 {
        char_from_ascii(48 + d as u32)
    } else {
        char_from_ascii(55 + d as u32)
    }
}

/// Percent-encodes the UTF-8 bytes of `s`.
pub fn percent_encode(s: &str) -> (r: String)
    ensures
        r@ == percent_encoded_text(s@),
{
    let bytes = s.as_bytes();
    let mut out = String::new();
    let mut i: usize = 0;
    assert(bytes@.skip(0) =~= bytes@);
    while i < bytes.len()
        invariant
            i <= bytes@.len(),
            bytes@ == encode_utf8(s@),
            percent_encoded(bytes@) == out@ + percent_encoded(bytes@.skip(i as int)),
        decreases bytes.len() - i,
    {
        let b = bytes[i];
        let ghost before = out@;
        assert(bytes@.skip(i as int).drop_first() =~= bytes@.skip(i + 1));
        assert(bytes@.skip(i as int)[0] == b);
        if (65 <= b && b <= 90) || (97 <= b && b <= 122) || (48 <= b && b <= 57) || b == 45 || b
            == 95 || b == 46 || b == 126 {
            push_char(&mut out, char_from_ascii(b as u32));
            assert(before + (seq![(b as u32) as char] + percent_encoded(bytes@.skip(i + 1)))
                =~= out@ + percent_encoded(bytes@.skip(i + 1)));
        } else {
            push_char(&mut out, '%');
            push_char(&mut out, hex_digit_exec(b / 16));
            push_char(&mut out, hex_digit_exec(b % 16));
            assert(before + (seq!['%', hex_digit((b / 16) as nat), hex_digit((b % 16) as nat)]
                + percent_encoded(bytes@.skip(i + 1))) =~= out@ + percent_encoded(
                bytes@.skip(i + 1),
            ));
        }
        i += 1;
    }
    assert(bytes@.skip(bytes@.len() as int) =~= Seq::<u8>::empty());
    assert(out@ + Seq::<char>::empty() =~= out@);
    out
}

/// Appends the query parameters to `base`.
pub fn build_url(base: &str, params: &[(String, String)]) -> (r: String)
    ensures
        r@ == url_with_params(base@, pairs_view(params@)),
{
    if params.len() == 0 {
        return base.to_string();
    }
    let ghost ps = pairs_view(params@);
    let has_query = crate::text::contains(base, "?");
    let sep = if has_query { '&' } else { '?' };
    let mut qs = String::new();
    let mut i: usize = 0;
    while i < params.len()
        invariant
            i <= params@.len(),
            ps == pairs_view(params@),
            i > 0 ==> qs@ == query_string(ps.take(i as int)),
            i == 0 ==> qs@ == Seq::<char>::empty(),
        decreases params.len() - i,
    {
        let k = percent_encode(params[i].0.as_str());
        let v = percent_encode(params[i].1.as_str());
        let ghost before = qs@;
        if i > 0 {
            push_char(&mut qs, '&');
        }
        qs.append(k.as_str());
        push_char(&mut qs, '=');
        qs.append(v.as_str());
        proof {
            reveal_strlit("&");
            reveal_strlit("=");
            let t = ps.take(i + 1);
            assert(t.last() == ps[i as int]);
            assert(ps[i as int] == (params@[i as int].0@, params@[i as int].1@));
            if i > 0 {
                assert(t.drop_last() =~= ps.take(i as int));
                assert(qs@ =~= before + "&"@ + param_text(ps[i as int]));
            } else {
                assert(qs@ =~= param_text(ps[i as int]));
            }
        }
        i += 1;
    }
    assert(ps.take(params@.len() as int) =~= ps);
    let mut out = base.to_string();
    push_char(&mut out, sep);
    out.append(qs.as_str());
    out
}

/// A request as it goes out: method, full URL, headers (the authentication
/// header last) and body.
pub struct PreparedRequest {
    pub method: Method,
    pub url: String,
    pub headers: Vec<(String, String)>,
    pub body: Option<String>,
}

/// The headers sent for a request: its own, then the authentication header.
pub open spec fn sent_headers(r: crate::models::request::RequestView) -> Seq<(Seq<char>, Seq<char>)> {
    match r.auth {
        Some(a) => r.headers.push(auth_header(a)),
        None => r.headers,
    }
}

/// The method, URL, headers and body a request is sent with.
pub fn prepare_request(request: &Request) -> (p: PreparedRequest)
    ensures
        p.method == request.method,
        p.url@ == url_with_params(request.url@, pairs_view(request.params@)),
        pairs_view(p.headers@) == sent_headers(request@),
        opt_view(p.body) == opt_view(request.body),
{
    let url = build_url(request.url.as_str(), request.params.as_slice());
    let mut headers = crate::models::clone_pairs(&request.headers);
    match &request.auth {
        Some(auth) => {
            let ghost before = pairs_view(headers@);
            let h = auth.to_header();
            headers.push(h);
            assert(pairs_view(headers@) =~= before.push(auth_header(auth@)));
        },
        None => {},
    }
    PreparedRequest { method: request.method, url, headers, body: clone_opt(&request.body) }
}

} // verus!
