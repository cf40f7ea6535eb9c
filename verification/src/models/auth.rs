//! Authentication schemes and how they become an HTTP header.
use vstd::prelude::*;
use base64::Engine;
use crate::models::environment::{substitute_seq, substitute_variables, Environment};
use crate::text::{concat2, concat3, slice_chars, to_chars};
use vstd::utf8::{encode_scalar, encode_utf8};

verus! {

broadcast use vstd::string::group_string_axioms;

/// What the standard base64 engine (with padding) returns for `bytes`.
pub uninterp spec fn base64_standard(bytes: Seq<u8>) -> Seq<char>;

/// Encodes bytes with the standard base64 alphabet and padding
/// (`base64::engine::general_purpose::STANDARD.encode`). The contract only
/// names the result; the encoding itself is the crate's.
#[verifier::external_body]
fn base64_encode(bytes: &[u8]) -> (s: String)
    ensures
        s@ == base64_standard(bytes@),
{
    base64::engine::general_purpose::STANDARD.encode(bytes)
}

/// An authentication scheme as plain values.
pub enum AuthView {
    BearerToken { token: Seq<char> },
    BasicAuth { username: Seq<char>, password: Seq<char> },
    ApiKey { header: Seq<char>, value: Seq<char> },
}

/// An authentication scheme.
#[derive(Debug, PartialEq, Eq)]
#[allow(clippy::enum_variant_names)]
pub enum Auth {
    BearerToken { token: String },
    BasicAuth { username: String, password: String },
    ApiKey { header: String, value: String },
}

impl View for Auth {
    type V = AuthView;

    open spec fn view(&self) -> AuthView {
        match self {
            Auth::BearerToken { token } => AuthView::BearerToken { token: token@ },
            Auth::BasicAuth { username, password } => AuthView::BasicAuth {
                username: username@,
                password: password@,
            },
            Auth::ApiKey { header, value } => AuthView::ApiKey { header: header@, value: value@ },
        }
    }
}

pub open spec fn auth_opt_view(o: Option<Auth>) -> Option<AuthView> {
    match o {
        Some(a) => Some(a@),
        None => None,
    }
}

/// The header (name, value) that carries the authentication.
pub open spec fn auth_header(a: AuthView) -> (Seq<char>, Seq<char>) {
    match a {
        AuthView::BearerToken { token } => ("Authorization"@, "Bearer "@ + token),
        AuthView::BasicAuth { username, password } => (
            "Authorization"@,
            "Basic "@ + base64_standard(encode_utf8(username + ":"@ + password)),
        ),
        AuthView::ApiKey { header, value } => (header, value),
    }
}

/// The scheme with the environment's variables substituted in every field.
pub open spec fn auth_substituted(a: AuthView, vars: Seq<(Seq<char>, Seq<char>)>) -> AuthView {
    match a {
        AuthView::BearerToken { token } => AuthView::BearerToken {
            token: substitute_seq(token, vars),
        },
        AuthView::BasicAuth { username, password } => AuthView::BasicAuth {
            username: substitute_seq(username, vars),
            password: substitute_seq(password, vars),
        },
        AuthView::ApiKey { header, value } => AuthView::ApiKey {
            header: substitute_seq(header, vars),
            value: substitute_seq(value, vars),
        },
    }
}

/// The number of bytes a character takes in UTF-8.
pub open spec fn utf8_width(c: char) -> int {
    encode_scalar(c as u32).len() as int
}

/// The longest start of `t` whose UTF-8 encoding takes at most `budget`
/// bytes.
pub open spec fn head_within(t: Seq<char>, budget: int) -> Seq<char>
    decreases t.len(),
{
    if t.len() > 0 && utf8_width(t[0]) <= budget {
        seq![t[0]] + head_within(t.drop_first(), budget - utf8_width(t[0]))
    } else {
        Seq::empty()
    }
}

/// The longest end of `t` whose UTF-8 encoding takes at most `budget` bytes.
pub open spec fn tail_within(t: Seq<char>, budget: int) -> Seq<char>
    decreases t.len(),
{
    if t.len() > 0 && utf8_width(t.last()) <= budget {
        tail_within(t.drop_last(), budget - utf8_width(t.last())).push(t.last())
    } else {
        Seq::empty()
    }
}

fn char_width(c: char) -> (w: usize)
    ensures
        w == utf8_width(c),
        1 <= w <= 4,
{
    let u = c as u32;
    if u < 0x80 {
        1
    } else if u < 0x800 {
        2
    } else if u < 0x10000 {
        3
    } else {
        4
    }
}

/// The longest start of `v` that fits in `budget` bytes of UTF-8.
fn head_exec(v: &Vec<char>, budget: usize) -> (r: String)
    ensures
        r@ == head_within(v@, budget as int),
{
    let mut out = String::new();
    let mut rem = budget;
    let mut i: usize = 0;
    assert(v@.skip(0) =~= v@);
    while i < v.len() && char_width(v[i]) <= rem
        invariant
            i <= v@.len(),
            head_within(v@, budget as int) == out@ + head_within(v@.skip(i as int), rem as int),
        decreases v.len() - i,
    {
        let w = char_width(v[i]);
        assert(v@.skip(i as int)[0] == v@[i as int]);
        assert(v@.skip(i as int).drop_first() =~= v@.skip(i + 1));
        crate::text::push_char(&mut out, v[i]);
        rem = rem - w;
        i += 1;
    }
    if i < v.len() {
        assert(v@.skip(i as int)[0] == v@[i as int]);
    }
    assert(out@ + head_within(v@.skip(i as int), rem as int) =~= out@);
    out
}

/// The longest end of `v` that fits in `budget` bytes of UTF-8.
fn tail_exec(v: &Vec<char>, budget: usize) -> (r: String)
    ensures
        r@ == tail_within(v@, budget as int),
{
    let mut rem = budget;
    let mut j: usize = v.len();
    assert(v@.take(j as int) =~= v@);
    assert(v@.skip(j as int) =~= Seq::<char>::empty());
    while j > 0 && char_width(v[j - 1]) <= rem
        invariant
            j <= v@.len(),
            tail_within(v@, budget as int) == tail_within(v@.take(j as int), rem as int) + v@.skip(j as int),
        decreases j,
    {
        let w = char_width(v[j - 1]);
        assert(v@.take(j as int).last() == v@[j - 1]);
        assert(v@.take(j as int).drop_last() =~= v@.take(j - 1));
        assert(v@.skip(j - 1) =~= seq![v@[j - 1]] + v@.skip(j as int));
        rem = rem - w;
        j -= 1;
    }
    if j > 0 {
        assert(v@.take(j as int).last() == v@[j - 1]);
    }
    assert(tail_within(v@.take(j as int), rem as int) =~= Seq::<char>::empty());
    assert(v@.subrange(j as int, v@.len() as int) =~= v@.skip(j as int));
    slice_chars(v, j, v.len())
}

/// The short description of a scheme; secrets are masked. A bearer token
/// whose UTF-8 encoding is longer than eight bytes is shortened to the
/// characters within its first three bytes and within its last three bytes
/// (exactly those bytes when they end and start between characters).
pub open spec fn auth_summary(a: AuthView) -> Seq<char> {
    match a {
        AuthView::BearerToken { token } => {
            if encode_utf8(token).len() > 8 {
                "Bearer: "@ + head_within(token, 3) + "..."@ + tail_within(token, 3)
            } else {
                "Bearer: "@ + token
            }
        },
        AuthView::BasicAuth { username, .. } => "Basic: "@ + username + ":***"@,
        AuthView::ApiKey { header, .. } => "API Key: "@ + header + ":***"@,
    }
}

/// The number of choices in the authentication selector (none and the three
/// schemes).
pub const AUTH_TYPE_COUNT: usize = 4;

/// The label of choice `i` of the authentication selector.
pub open spec fn auth_type_label(i: int) -> Seq<char> {
    if i == 0 {
        "None"@
    } else if i == 1 {
        "Bearer"@
    } else if i == 2 {
        "Basic"@
    } else {
        "API Key"@
    }
}

/// The label of choice `i` of the authentication selector.
pub fn auth_type_name(i: usize) -> (s: &'static str)
    requires
        i < AUTH_TYPE_COUNT,
    ensures
        s@ == auth_type_label(i as int),
{
    if i == 0 {
        "None"
    } else if i == 1 {
        "Bearer"
    } else if i == 2 {
        "Basic"
    } else {
        "API Key"
    }
}

impl Clone for Auth {
    fn clone(&self) -> (r: Self)
        ensures
            r@ == self@,
    {
        match self {
            Auth::BearerToken { token } => Auth::BearerToken { token: token.clone() },
            Auth::BasicAuth { username, password } => Auth::BasicAuth {
                username: username.clone(),
                password: password.clone(),
            },
            Auth::ApiKey { header, value } => Auth::ApiKey {
                header: header.clone(),
                value: value.clone(),
            },
        }
    }
}

impl Auth {
    /// The HTTP header (name, value) that carries this authentication.
    pub fn to_header(&self) -> (h: (String, String))
        ensures
            (h.0@, h.1@) == auth_header(self@),
    {
        match self {
            Auth::BearerToken { token } => (
                "Authorization".to_string(),
                concat2("Bearer ", token.as_str()),
            ),
            Auth::BasicAuth { username, password } => {
                let credentials = concat3(username.as_str(), ":", password.as_str());
                let encoded = base64_encode(credentials.as_str().as_bytes());
                ("Authorization".to_string(), concat2("Basic ", encoded.as_str()))
            },
            Auth::ApiKey { header, value } => (header.clone(), value.clone()),
        }
    }

    /// The same scheme with the environment's variables substituted.
    pub fn substitute_env(&self, env: &Environment) -> (r: Auth)
        ensures
            r@ == auth_substituted(self@, env.vars()),
    {
        match self {
            Auth::BearerToken { token } => Auth::BearerToken {
                token: substitute_variables(token.as_str(), env),
            },
            Auth::BasicAuth { username, password } => Auth::BasicAuth {
                username: substitute_variables(username.as_str(), env),
                password: substitute_variables(password.as_str(), env),
            },
            Auth::ApiKey { header, value } => Auth::ApiKey {
                header: substitute_variables(header.as_str(), env),
                value: substitute_variables(value.as_str(), env),
            },
        }
    }

    /// A one-line description for display, with secrets masked.
    pub fn display_summary(&self) -> (s: String)
        ensures
            s@ == auth_summary(self@),
    {
        match self {
            Auth::BearerToken { token } => {
                let t = token.as_str();
                if t.as_bytes().len() > 8 {
                    let v = to_chars(t);
                    let head = head_exec(&v, 3);
                    let tail = tail_exec(&v, 3);
                    concat2(concat3("Bearer: ", head.as_str(), "...").as_str(), tail.as_str())
                } else {
                    concat2("Bearer: ", t)
                }
            },
            Auth::BasicAuth { username, .. } => concat3("Basic: ", username.as_str(), ":***"),
            Auth::ApiKey { header, .. } => concat3("API Key: ", header.as_str(), ":***"),
        }
    }
}

} // verus!
