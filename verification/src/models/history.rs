//! The history of sent requests and their responses, most recent first.
use vstd::prelude::*;
use crate::errors::ApixError;
use crate::models::auth::{auth_opt_view, Auth};
use crate::models::collection::{request_from_saved, saved_request};
use crate::models::request::{method_name, Request};
use crate::models::response::{body_from_stored, stored_body_json, Response};
use crate::models::{clone_opt, clone_pairs, opt_view, pairs_view};

verus! {

broadcast use vstd::string::group_string_axioms;

/// One sent request with the status and body of its response.
#[derive(Debug)]
pub struct HistoryEntry {
    pub timestamp: String,
    pub method: String,
    pub url: String,
    pub request_headers: Vec<(String, String)>,
    pub request_body: Option<String>,
    pub auth: Option<Auth>,
    pub status: Option<u16>,
    pub response_body: Option<String>,
}

impl HistoryEntry {
    /// Records `request` and its `response` at time `timestamp`.
    pub fn from_request_response(request: &Request, response: &Response, timestamp: String) -> (e:
        HistoryEntry)
        ensures
            e.timestamp == timestamp,
            e.method@ == method_name(request.method),
            e.url@ == request.url@,
            pairs_view(e.request_headers@) == pairs_view(request.headers@),
            opt_view(e.request_body) == opt_view(request.body),
            auth_opt_view(e.auth) == auth_opt_view(request.auth),
            e.status == Some(response.status),
            opt_view(e.response_body) == Some(response.body@),
    {
        HistoryEntry {
            timestamp,
            method: request.method.to_string(),
            url: request.url.clone(),
            request_headers: clone_pairs(&request.headers),
            request_body: clone_opt(&request.body),
            auth: match &request.auth {
                Some(a) => Some(a.clone()),
                None => None,
            },
            status: Some(response.status),
            response_body: Some(response.body.clone()),
        }
    }

    /// The recorded request; fails when the recorded method names no method.
    pub fn to_request(&self) -> (r: Result<Request, ApixError>)
        ensures
            match r {
                Ok(req) => saved_request(self.method@, self.url@, pairs_view(self.request_headers@), opt_view(self.request_body), auth_opt_view(self.auth))
                    == Some(req@),
                Err(e) => saved_request(self.method@, self.url@, pairs_view(self.request_headers@), opt_view(self.request_body), auth_opt_view(self.auth))
                    is None && (e matches ApixError::InvalidMethod(t) && t@ == self.method@),
            },
    {
        request_from_saved(&self.method, &self.url, &self.request_headers, &self.request_body, &self.auth)
    }

    /// The recorded response, without headers; none when no status was
    /// recorded.
    pub fn to_response(&self) -> (r: Option<Response>)
        ensures
            match self.status {
                None => r is None,
                Some(st) => r matches Some(resp) && resp.status == st && resp.headers@.len() == 0
                    && resp.body@ == stored_body_json(opt_view(self.response_body)),
            },
    {
        match self.status {
            None => None,
            Some(status) => {
                let body = body_from_stored(&self.response_body);
                Some(Response::new(status, Vec::new(), body))
            },
        }
    }
}

/// The history, most recent entry first.
#[derive(Debug)]
pub struct History {
    pub entries: Vec<HistoryEntry>,
}

impl Default for History {
    fn default() -> (r: Self)
        ensures
            r.entries@.len() == 0,
    {
        History { entries: Vec::new() }
    }
}

impl History {
    /// Records an entry as the most recent one.
    pub fn add(&mut self, entry: HistoryEntry)
        ensures
            final(self).entries@ == seq![entry] + old(self).entries@,
    {
        self.entries.insert(0, entry);
        assert(self.entries@ =~= seq![entry] + old(self).entries@);
    }

    /// Removes the entry at `index`; does nothing when out of range.
    pub fn remove(&mut self, index: usize)
        ensures
            final(self).entries@ == if index < old(self).entries@.len() {
                old(self).entries@.remove(index as int)
            } else {
                old(self).entries@
            },
    {
        if index < self.entries.len() {
            self.entries.remove(index);
        }
    }
}

} // verus!
