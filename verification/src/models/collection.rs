//! Collections: named lists of saved requests.
use vstd::prelude::*;
use crate::errors::ApixError;
use crate::models::auth::{auth_opt_view, AuthView};
use crate::models::request::{method_name, parse_method, Method, Request, RequestView};
use crate::models::{clone_opt, clone_pairs, opt_view, pairs_view};

verus! {

broadcast use vstd::string::group_string_axioms;

/// A saved request under a name. The method is kept as text.
#[derive(Debug)]
pub struct CollectionEntry {
    pub name: String,
    pub method: String,
    pub url: String,
    pub headers: Vec<(String, String)>,
    pub body: Option<String>,
    pub auth: Option<Auth>,
}

use crate::models::auth::Auth;

/// The request a saved entry stands for, when its method parses: the saved
/// method, URL, headers, body and authentication, and no query parameters.
pub open spec fn saved_request(
    method: Seq<char>,
    url: Seq<char>,
    headers: Seq<(Seq<char>, Seq<char>)>,
    body: Option<Seq<char>>,
    auth: Option<AuthView>,
) -> Option<RequestView> {
    match parse_method(method) {
        Some(m) => Some(RequestView { method: m, url, headers, body, auth, params: Seq::empty() }),
        None => None,
    }
}

/// Rebuilds a request from saved fields; fails exactly when the method text
/// names no method.
pub fn request_from_saved(
    method: &String,
    url: &String,
    headers: &Vec<(String, String)>,
    body: &Option<String>,
    auth: &Option<Auth>,
) -> (r: Result<Request, ApixError>)
    ensures
        match r {
            Ok(req) => saved_request(method@, url@, pairs_view(headers@), opt_view(*body), auth_opt_view(*auth))
                == Some(req@),
            Err(e) => saved_request(method@, url@, pairs_view(headers@), opt_view(*body), auth_opt_view(*auth))
                is None && (e matches ApixError::InvalidMethod(t) && t@ == method@),
        },
{
    let m = Method::from_str(method.as_str())?;
    let mut request = Request::new(m, url.clone());
    request.headers = clone_pairs(headers);
    request.body = clone_opt(body);
    request.auth = match auth {
        Some(a) => Some(a.clone()),
        None => None,
    };
    assert(pairs_view(request.params@) =~= Seq::empty());
    Ok(request)
}

impl CollectionEntry {
    /// Saves `request` under `name`; query parameters are not kept.
    pub fn from_request(name: &str, request: &Request) -> (e: CollectionEntry)
        ensures
            e.name@ == name@,
            e.method@ == method_name(request.method),
            e.url@ == request.url@,
            pairs_view(e.headers@) == pairs_view(request.headers@),
            opt_view(e.body) == opt_view(request.body),
            auth_opt_view(e.auth) == auth_opt_view(request.auth),
    {
        CollectionEntry {
            name: name.to_string(),
            method: request.method.to_string(),
            url: request.url.clone(),
            headers: clone_pairs(&request.headers),
            body: clone_opt(&request.body),
            auth: match &request.auth {
                Some(a) => Some(a.clone()),
                None => None,
            },
        }
    }

    /// The saved request; fails when the saved method names no method.
    pub fn to_request(&self) -> (r: Result<Request, ApixError>)
        ensures
            match r {
                Ok(req) => saved_request(self.method@, self.url@, pairs_view(self.headers@), opt_view(self.body), auth_opt_view(self.auth))
                    == Some(req@),
                Err(e) => saved_request(self.method@, self.url@, pairs_view(self.headers@), opt_view(self.body), auth_opt_view(self.auth))
                    is None && (e matches ApixError::InvalidMethod(t) && t@ == self.method@),
            },
    {
        request_from_saved(&self.method, &self.url, &self.headers, &self.body, &self.auth)
    }
}

/// A named list of saved requests.
#[derive(Debug)]
pub struct Collection {
    pub name: String,
    pub entries: Vec<CollectionEntry>,
}

impl Collection {
    /// An empty collection.
    pub fn new(name: String) -> (c: Collection)
        ensures
            c.name == name,
            c.entries@.len() == 0,
    {
        Collection { name, entries: Vec::new() }
    }

    /// Appends an entry.
    pub fn add_entry(&mut self, entry: CollectionEntry)
        ensures
            final(self).name == old(self).name,
            final(self).entries@ == old(self).entries@.push(entry),
    {
        self.entries.push(entry);
    }

    /// Removes the entry at `index`; does nothing when out of range.
    pub fn remove_entry(&mut self, index: usize)
        ensures
            final(self).name == old(self).name,
            final(self).entries@ == if index < old(self).entries@.len() {
                old(self).entries@.remove(index as int)
            } else {
                old(self).entries@
            },
    {
        if index < self.entries.len() {
            self.entries.remove(index);
        }
    }
}

/// The list of collections.
#[derive(Debug)]
pub struct Collections {
    pub items: Vec<Collection>,
}

impl Default for Collections {
    fn default() -> (r: Self)
        ensures
            r.items@.len() == 0,
    {
        Collections { items: Vec::new() }
    }
}

impl Collections {
    /// Appends a new, empty collection.
    pub fn add_collection(&mut self, name: String)
        ensures
            final(self).items@.len() == old(self).items@.len() + 1,
            final(self).items@.subrange(0, old(self).items@.len() as int) == old(self).items@,
            final(self).items@.last().name == name,
            final(self).items@.last().entries@.len() == 0,
    {
        self.items.push(Collection::new(name));
        assert(self.items@.subrange(0, old(self).items@.len() as int) =~= old(self).items@);
    }

    /// Removes the collection at `index`; does nothing when out of range.
    pub fn remove_collection(&mut self, index: usize)
        ensures
            final(self).items@ == if index < old(self).items@.len() {
                old(self).items@.remove(index as int)
            } else {
                old(self).items@
            },
    {
        if index < self.items.len() {
            self.items.remove(index);
        }
    }
}

} // verus!
