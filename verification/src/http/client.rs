//! Checks made on a request before it is sent.
use vstd::prelude::*;
use crate::errors::ApixError;
use crate::http::request_builder::{
    prepare_request, sent_headers, url_with_params, PreparedRequest,
};
use crate::models::request::Request;
use crate::models::{opt_view, pairs_view};
use crate::text::{concat3, starts_with, str_eq, to_chars, slice_chars};

verus! {

broadcast use vstd::string::group_string_axioms;

pub open spec fn has_prefix(s: Seq<char>, p: Seq<char>) -> bool {
    p.len() <= s.len() && s.subrange(0, p.len() as int) == p
}

/// Why a URL is refused, if it is: the message of the `InvalidUrl` error.
pub open spec fn url_problem(u: Seq<char>) -> Option<Seq<char>> {
    if u.len() == 0 {
        Some("URL is empty"@)
    } else if !has_prefix(u, "http://"@) && !has_prefix(u, "https://"@) {
        Some("'"@ + u + "' \u{2014} URL must start with http:// or https://"@)
    } else {
        let rest = if has_prefix(u, "https://"@) {
            u.skip(8)
        } else {
            u.skip(7)
        };
        if rest.len() == 0 || rest == "/"@ {
            Some("'"@ + u + "' \u{2014} missing hostname"@)
        } else {
            None
        }
    }
}

/// Accepts URLs that start with `http://` or `https://` and name a host.
pub fn validate_url(url: &str) -> (r: Result<(), ApixError>)
    ensures
        match url_problem(url@) {
            None => r is Ok,
            Some(m) => r matches Err(ApixError::InvalidUrl(t)) && t@ == m,
        },
{
    proof {
        reveal_strlit("http://");
        reveal_strlit("https://");
        reveal_strlit("/");
    }
    let v = to_chars(url);
    if v.len() == 0 {
        return Err(ApixError::InvalidUrl("URL is empty".to_string()));
    }
    let https = starts_with(url, "https://");
    let http = starts_with(url, "http://");
    if !http && !https {
        return Err(
            ApixError::InvalidUrl(
                concat3("'", url, "' \u{2014} URL must start with http:// or https://"),
            ),
        );
    }
    let start: usize = if https {
        8
    } else {
        7
    };
    let rest = slice_chars(&v, start, v.len());
    assert(rest@ =~= url@.skip(start as int));
    if start == v.len() || str_eq(rest.as_str(), "/") {
        return Err(ApixError::InvalidUrl(concat3("'", url, "' \u{2014} missing hostname")));
    }
    Ok(())
}

/// The request as it is sent, once its URL is accepted.
pub fn prepare_for_send(request: &Request) -> (r: Result<PreparedRequest, ApixError>)
    ensures
        match url_problem(request.url@) {
            None => r matches Ok(p) && p.method == request.method && p.url@ == url_with_params(
                request.url@,
                pairs_view(request.params@),
            ) && pairs_view(p.headers@) == sent_headers(request@) && opt_view(p.body) == opt_view(
                request.body,
            ),
            Some(m) => r matches Err(ApixError::InvalidUrl(t)) && t@ == m,
        },
{
    validate_url(request.url.as_str())?;
    Ok(prepare_request(request))
}

} // verus!
