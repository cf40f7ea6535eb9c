//! HTTP methods and the request being edited and sent.
use vstd::prelude::*;
use crate::errors::ApixError;
use crate::models::auth::{auth_opt_view, Auth, AuthView};
use crate::models::{clone_opt, clone_pairs, opt_view, pairs_view};
use crate::text::{str_eq, to_upper, upper};

verus! {

broadcast use vstd::string::group_string_axioms;

/// The HTTP methods the client sends.
#[derive(Debug, Clone, Copy, PartialEq, Eq, Structural)]
#[allow(clippy::upper_case_acronyms)]
pub enum Method {
    GET,
    POST,
    PUT,
    DELETE,
    PATCH,
}

/// The name of a method, as it is written in a request line.
pub open spec fn method_name(m: Method) -> Seq<char> {
    match m {
        Method::GET => "GET"@,
        Method::POST => "POST"@,
        Method::PUT => "PUT"@,
        Method::DELETE => "DELETE"@,
        Method::PATCH => "PATCH"@,
    }
}

/// The method whose name is the upper-cased text, if any.
pub open spec fn parse_method(s: Seq<char>) -> Option<Method> {
    let u = upper(s);
    if u == "GET"@ {
        Some(Method::GET)
    } else if u == "POST"@ {
        Some(Method::POST)
    } else if u == "PUT"@ {
        Some(Method::PUT)
    } else if u == "DELETE"@ {
        Some(Method::DELETE)
    } else if u == "PATCH"@ {
        Some(Method::PATCH)
    } else {
        None
    }
}

/// The method that follows `m` when cycling through them.
pub open spec fn next_method(m: Method) -> Method {
    match m {
        Method::GET => Method::POST,
        Method::POST => Method::PUT,
        Method::PUT => Method::DELETE,
        Method::DELETE => Method::PATCH,
        Method::PATCH => Method::GET,
    }
}

impl Method {
    /// Parses a method name, ignoring case.
    pub fn from_str(s: &str) -> (r: Result<Method, ApixError>)
        ensures
            match r {
                Ok(m) => parse_method(s@) == Some(m),
                Err(e) => parse_method(s@) is None && (e matches ApixError::InvalidMethod(t) && t@
                    == s@),
            },
    {
        let u = to_upper(s);
        let us = u.as_str();
        if str_eq(us, "GET") {
            Ok(Method::GET)
        } else if str_eq(us, "POST") {
            Ok(Method::POST)
        } else if str_eq(us, "PUT") {
            Ok(Method::PUT)
        } else if str_eq(us, "DELETE") {
            Ok(Method::DELETE)
        } else if str_eq(us, "PATCH") {
            Ok(Method::PATCH)
        } else {
            Err(ApixError::InvalidMethod(s.to_string()))
        }
    }

    /// The method's name.
    pub fn to_string(&self) -> (s: String)
        ensures
            s@ == method_name(*self),
    {
        match self {
            Method::GET => "GET".to_string(),
            Method::POST => "POST".to_string(),
            Method::PUT => "PUT".to_string(),
            Method::DELETE => "DELETE".to_string(),
            Method::PATCH => "PATCH".to_string(),
        }
    }

    /// The next method in the cycle GET, POST, PUT, DELETE, PATCH.
    pub fn next(&self) -> (m: Method)
        ensures
            m == next_method(*self),
    {
        match self {
            Method::GET => Method::POST,
            Method::POST => Method::PUT,
            Method::PUT => Method::DELETE,
            Method::DELETE => Method::PATCH,
            Method::PATCH => Method::GET,
        }
    }
}

/// A request as plain values.
pub struct RequestView {
    pub method: Method,
    pub url: Seq<char>,
    pub headers: Seq<(Seq<char>, Seq<char>)>,
    pub body: Option<Seq<char>>,
    pub auth: Option<AuthView>,
    pub params: Seq<(Seq<char>, Seq<char>)>,
}

/// An HTTP request: method, URL, headers, optional body, optional
/// authentication and query parameters.
#[derive(Debug)]
pub struct Request {
    pub method: Method,
    pub url: String,
    pub headers: Vec<(String, String)>,
    pub body: Option<String>,
    pub auth: Option<Auth>,
    pub params: Vec<(String, String)>,
}

impl View for Request {
    type V = RequestView;

    open spec fn view(&self) -> RequestView {
        RequestView {
            method: self.method,
            url: self.url@,
            headers: pairs_view(self.headers@),
            body: opt_view(self.body),
            auth: auth_opt_view(self.auth),
            params: pairs_view(self.params@),
        }
    }
}

impl Clone for Request {
    fn clone(&self) -> (r: Self)
        ensures
            r@ == self@,
    {
        let auth = match &self.auth {
            Some(a) => Some(a.clone()),
            None => None,
        };
        Request {
            method: self.method,
            url: self.url.clone(),
            headers: clone_pairs(&self.headers),
            body: clone_opt(&self.body),
            auth,
            params: clone_pairs(&self.params),
        }
    }
}

impl Request {
    /// A request with the given method and URL and nothing else.
    pub fn new(method: Method, url: String) -> (r: Request)
        ensures
            r@ == (RequestView {
                method,
                url: url@,
                headers: Seq::empty(),
                body: None,
                auth: None,
                params: Seq::empty(),
            }),
    {
        let r = Request {
            method,
            url,
            headers: Vec::new(),
            body: None,
            auth: None,
            params: Vec::new(),
        };
        assert(pairs_view(r.headers@) =~= Seq::empty());
        assert(pairs_view(r.params@) =~= Seq::empty());
        r
    }
}

} // verus!
