//! The client's state apart from the screen: the request being edited, the
//! last response, loading and error status, history, collections,
//! environments and the active environment.
use vstd::prelude::*;
use crate::config::Settings;
use crate::errors::{error_message, ApixError};
use crate::models::auth::{auth_substituted, Auth};
use crate::models::collection::{saved_request, CollectionEntry, Collections};
use crate::models::environment::{substitute_seq, substitute_variables, Environment, Environments};
use crate::models::history::{History, HistoryEntry};
use crate::models::request::{Method, Request, RequestView};
use crate::models::response::Response;
use crate::models::{opt_view, pairs_view};
use crate::text::{ascii_lower, concat2, to_chars};

verus! {

broadcast use vstd::string::group_string_axioms;

/// Both texts of every pair with the variables substituted.
pub open spec fn pairs_substituted(
    ps: Seq<(Seq<char>, Seq<char>)>,
    vars: Seq<(Seq<char>, Seq<char>)>,
) -> Seq<(Seq<char>, Seq<char>)> {
    ps.map_values(|p: (Seq<char>, Seq<char>)| (substitute_seq(p.0, vars), substitute_seq(p.1, vars)))
}

/// A request with the variables substituted in its URL, headers, body,
/// authentication and query parameters.
pub open spec fn request_substituted(r: RequestView, vars: Seq<(Seq<char>, Seq<char>)>) -> RequestView {
    RequestView {
        method: r.method,
        url: substitute_seq(r.url, vars),
        headers: pairs_substituted(r.headers, vars),
        body: match r.body {
            Some(b) => Some(substitute_seq(b, vars)),
            None => None,
        },
        auth: match r.auth {
            Some(a) => Some(auth_substituted(a, vars)),
            None => None,
        },
        params: pairs_substituted(r.params, vars),
    }
}

/// Substitutes the variables in both texts of every pair.
pub fn substitute_pairs(ps: &Vec<(String, String)>, env: &Environment) -> (r: Vec<(String, String)>)
    ensures
        pairs_view(r@) == pairs_substituted(pairs_view(ps@), env.vars()),
{
    let mut r: Vec<(String, String)> = Vec::new();
    let mut i: usize = 0;
    while i < ps.len()
        invariant
            i <= ps@.len(),
            r@.len() == i,
            forall|k: int|
                0 <= k < i ==> (#[trigger] r@[k]).0@ == substitute_seq(ps@[k].0@, env.vars())
                    && r@[k].1@ == substitute_seq(ps@[k].1@, env.vars()),
        decreases ps.len() - i,
    {
        let k = substitute_variables(ps[i].0.as_str(), env);
        let v = substitute_variables(ps[i].1.as_str(), env);
        r.push((k, v));
        i += 1;
    }
    assert(pairs_view(r@) =~= pairs_substituted(pairs_view(ps@), env.vars()));
    r
}

/// Does the header name equal `content-type`, ignoring ASCII case?
pub open spec fn is_content_type(name: Seq<char>) -> bool {
    ascii_lower(name) == "content-type"@
}

/// The request that goes out for the request being edited: a JSON
/// `Content-Type` header is added when there is a body and no header names
/// the content type.
pub open spec fn outgoing(r: RequestView) -> RequestView {
    if r.body is Some && !(exists|i: int| 0 <= i < r.headers.len() && is_content_type(#[trigger] r.headers[i].0)) {
        RequestView { headers: r.headers.push(("Content-Type"@, "application/json"@)), ..r }
    } else {
        r
    }
}

/// The text of the notice shown after copying the response body.
pub open spec fn copy_notice(outcome: Result<(), Seq<char>>) -> Seq<char> {
    match outcome {
        Ok(()) => "Copied to clipboard!"@,
        Err(e) => "Clipboard error: "@ + e,
    }
}

/// The text of the notice shown after writing the response body to a file.
pub open spec fn save_notice(outcome: Result<(), Seq<char>>, file: Seq<char>) -> Seq<char> {
    match outcome {
        Ok(()) => "Saved: "@ + file,
        Err(e) => "Error: "@ + e,
    }
}

/// How long a notice stays visible, in milliseconds.
pub const NOTICE_MILLIS: u64 = 3000;

/// The file the response body is saved to.
pub open spec fn response_file() -> Seq<char> {
    "response.json"@
}

/// The file the response body is saved to.
pub fn response_file_name() -> (s: &'static str)
    ensures
        s@ == response_file(),
{
    "response.json"
}

/// `a1` is `a0` after loading history entry `index` into the editor with
/// its response; `a0` unchanged when there is no such entry or its method
/// does not parse.
pub open spec fn history_loaded(a0: App, a1: App, index: usize) -> bool {
    if index < a0.history.entries@.len() && saved_request(
        a0.history.entries@[index as int].method@,
        a0.history.entries@[index as int].url@,
        pairs_view(a0.history.entries@[index as int].request_headers@),
        opt_view(a0.history.entries@[index as int].request_body),
        crate::models::auth::auth_opt_view(a0.history.entries@[index as int].auth),
    ) is Some {
        let e = a0.history.entries@[index as int];
        &&& Some(a1.current_request@) == saved_request(
            e.method@,
            e.url@,
            pairs_view(e.request_headers@),
            opt_view(e.request_body),
            crate::models::auth::auth_opt_view(e.auth),
        )
        &&& (e.status is None ==> a1.current_response is None)
        &&& (e.status matches Some(st) ==> (a1.current_response matches Some(r) && r.status == st
            && r.headers@.len() == 0 && r.body@ == crate::models::response::stored_body_json(opt_view(e.response_body))))
        &&& a1.error_message is None
        &&& a1.settings == a0.settings
        &&& a1.is_loading == a0.is_loading
        &&& a1.history == a0.history
        &&& a1.collections == a0.collections
        &&& a1.environments == a0.environments
        &&& a1.active_environment == a0.active_environment
        &&& a1.status_notice == a0.status_notice
    } else {
        a1 == a0
    }
}

/// `a1` is `a0` after loading entry `entry_index` of collection
/// `col_index` into the editor, with no response; `a0` unchanged when there
/// is no such entry or its method does not parse.
pub open spec fn collection_loaded(a0: App, a1: App, col_index: usize, entry_index: usize) -> bool {
    if col_index < a0.collections.items@.len() && entry_index < a0.collections.items@[col_index as int].entries@.len()
        && ({
            let e = a0.collections.items@[col_index as int].entries@[entry_index as int];
            saved_request(e.method@, e.url@, pairs_view(e.headers@), opt_view(e.body), crate::models::auth::auth_opt_view(e.auth)) is Some
        }) {
        let e = a0.collections.items@[col_index as int].entries@[entry_index as int];
        &&& Some(a1.current_request@) == saved_request(e.method@, e.url@, pairs_view(e.headers@), opt_view(e.body), crate::models::auth::auth_opt_view(e.auth))
        &&& a1 == (App {
            current_request: a1.current_request,
            current_response: None,
            error_message: None,
            ..a0
        })
    } else {
        a1 == a0
    }
}

/// `a1` is `a0` with the request being edited saved under `name` at the
/// end of collection `col_index`; `a0` unchanged when there is no such
/// collection.
pub open spec fn request_filed(a0: App, a1: App, col_index: usize, name: Seq<char>) -> bool {
    &&& a1 == (App { collections: a1.collections, ..a0 })
    &&& a1.collections.items@.len() == a0.collections.items@.len()
    &&& forall|i: int| 0 <= i < a0.collections.items@.len() && i != col_index ==>
        a1.collections.items@[i] == a0.collections.items@[i]
    &&& col_index < a0.collections.items@.len() ==> {
        let c = a1.collections.items@[col_index as int];
        let o = a0.collections.items@[col_index as int];
        &&& c.name == o.name
        &&& c.entries@.len() == o.entries@.len() + 1
        &&& c.entries@.drop_last() == o.entries@
        &&& c.entries@.last().name@ == name
        &&& c.entries@.last().method@ == crate::models::request::method_name(a0.current_request.method)
        &&& c.entries@.last().url@ == a0.current_request.url@
        &&& pairs_view(c.entries@.last().headers@) == a0.current_request@.headers
        &&& opt_view(c.entries@.last().body) == a0.current_request@.body
        &&& crate::models::auth::auth_opt_view(c.entries@.last().auth) == a0.current_request@.auth
    }
}

pub struct App {
    pub settings: Settings,
    pub current_request: Request,
    pub current_response: Option<Response>,
    pub is_loading: bool,
    pub error_message: Option<String>,
    pub history: History,
    pub collections: Collections,
    pub environments: Environments,
    pub active_environment: Option<usize>,
    /// A short message and the time (in milliseconds) it was set at.
    pub status_notice: Option<(String, u64)>,
}

impl App {
    /// Everything but the request being edited is as in `other`.
    pub open spec fn same_but_request(&self, other: &App) -> bool {
        &&& self.settings == other.settings
        &&& self.current_response == other.current_response
        &&& self.is_loading == other.is_loading
        &&& self.error_message == other.error_message
        &&& self.history == other.history
        &&& self.collections == other.collections
        &&& self.environments == other.environments
        &&& self.active_environment == other.active_environment
        &&& self.status_notice == other.status_notice
    }

    /// A fresh client state with the given paths.
    pub fn new(settings: Settings) -> (app: App)
        ensures
            app.settings == settings,
            app.current_request@ == (RequestView {
                method: Method::GET,
                url: Seq::empty(),
                headers: Seq::empty(),
                body: None,
                auth: None,
                params: Seq::empty(),
            }),
            app.current_response is None,
            !app.is_loading,
            app.error_message is None,
            app.history.entries@.len() == 0,
            app.collections.items@.len() == 0,
            app.environments.items@.len() == 0,
            app.active_environment is None,
            app.status_notice is None,
    {
        App {
            settings,
            current_request: Request::new(Method::GET, String::new()),
            current_response: None,
            is_loading: false,
            error_message: None,
            history: History::default(),
            collections: Collections::default(),
            environments: Environments::default(),
            active_environment: None,
            status_notice: None,
        }
    }

    pub fn set_method(&mut self, method: Method)
        ensures
            final(self).same_but_request(old(self)),
            final(self).current_request@ == (RequestView { method, ..old(self).current_request@ }),
    {
        self.current_request.method = method;
    }

    pub fn set_url(&mut self, url: String)
        ensures
            final(self).same_but_request(old(self)),
            final(self).current_request@ == (RequestView { url: url@, ..old(self).current_request@ }),
    {
        self.current_request.url = url;
    }

    pub fn set_body(&mut self, body: Option<String>)
        ensures
            final(self).same_but_request(old(self)),
            final(self).current_request@ == (RequestView { body: opt_view(body), ..old(self).current_request@ }),
    {
        self.current_request.body = body;
    }

    /// Appends a header.
    pub fn add_header(&mut self, key: String, value: String)
        ensures
            final(self).same_but_request(old(self)),
            final(self).current_request@ == (RequestView {
                headers: old(self).current_request@.headers.push((key@, value@)),
                ..old(self).current_request@
            }),
    {
        self.current_request.headers.push((key, value));
        assert(pairs_view(self.current_request.headers@) =~= pairs_view(
            old(self).current_request.headers@,
        ).push((key@, value@)));
    }

    /// Replaces the header at `index`; does nothing when out of range.
    pub fn set_header(&mut self, index: usize, key: String, value: String)
        ensures
            final(self).same_but_request(old(self)),
            final(self).current_request@ == if index < old(self).current_request@.headers.len() {
                RequestView {
                    headers: old(self).current_request@.headers.update(index as int, (key@, value@)),
                    ..old(self).current_request@
                }
            } else {
                old(self).current_request@
            },
    {
        if index < self.current_request.headers.len() {
            self.current_request.headers.set(index, (key, value));
            assert(pairs_view(self.current_request.headers@) =~= pairs_view(
                old(self).current_request.headers@,
            ).update(index as int, (key@, value@)));
        }
    }

    /// Removes the header at `index`; does nothing when out of range.
    pub fn remove_header(&mut self, index: usize)
        ensures
            final(self).same_but_request(old(self)),
            final(self).current_request@ == if index < old(self).current_request@.headers.len() {
                RequestView {
                    headers: old(self).current_request@.headers.remove(index as int),
                    ..old(self).current_request@
                }
            } else {
                old(self).current_request@
            },
    {
        if index < self.current_request.headers.len() {
            self.current_request.headers.remove(index);
            assert(pairs_view(self.current_request.headers@) =~= pairs_view(
                old(self).current_request.headers@,
            ).remove(index as int));
        }
    }

    /// Appends a query parameter.
    pub fn add_param(&mut self, key: String, value: String)
        ensures
            final(self).same_but_request(old(self)),
            final(self).current_request@ == (RequestView {
                params: old(self).current_request@.params.push((key@, value@)),
                ..old(self).current_request@
            }),
    {
        self.current_request.params.push((key, value));
        assert(pairs_view(self.current_request.params@) =~= pairs_view(
            old(self).current_request.params@,
        ).push((key@, value@)));
    }

    /// Replaces the query parameter at `index`; does nothing when out of
    /// range.
    pub fn set_param(&mut self, index: usize, key: String, value: String)
        ensures
            final(self).same_but_request(old(self)),
            final(self).current_request@ == if index < old(self).current_request@.params.len() {
                RequestView {
                    params: old(self).current_request@.params.update(index as int, (key@, value@)),
                    ..old(self).current_request@
                }
            } else {
                old(self).current_request@
            },
    {
        if index < self.current_request.params.len() {
            self.current_request.params.set(index, (key, value));
            assert(pairs_view(self.current_request.params@) =~= pairs_view(
                old(self).current_request.params@,
            ).update(index as int, (key@, value@)));
        }
    }

    /// Removes the query parameter at `index`; does nothing when out of
    /// range.
    pub fn remove_param(&mut self, index: usize)
        ensures
            final(self).same_but_request(old(self)),
            final(self).current_request@ == if index < old(self).current_request@.params.len() {
                RequestView {
                    params: old(self).current_request@.params.remove(index as int),
                    ..old(self).current_request@
                }
            } else {
                old(self).current_request@
            },
    {
        if index < self.current_request.params.len() {
            self.current_request.params.remove(index);
            assert(pairs_view(self.current_request.params@) =~= pairs_view(
                old(self).current_request.params@,
            ).remove(index as int));
        }
    }

    pub fn set_auth(&mut self, auth: Option<Auth>)
        ensures
            final(self).same_but_request(old(self)),
            final(self).current_request@ == (RequestView {
                auth: crate::models::auth::auth_opt_view(auth),
                ..old(self).current_request@
            }),
    {
        self.current_request.auth = auth;
    }

    /// A request is on its way: loading, and no error shown.
    pub fn start_loading(&mut self)
        ensures
            *final(self) == (App { is_loading: true, error_message: None, ..*old(self) }),
    {
        self.is_loading = true;
        self.error_message = None;
    }

    /// The outcome of the request arrived at `timestamp`. A response is
    /// recorded first in the history and becomes the current response; an
    /// error's message is shown. Returns whether the history changed (and is
    /// to be written).
    pub fn finish_loading(&mut self, response: Result<Response, ApixError>, timestamp: String) -> (history_changed: bool)
        ensures
            !final(self).is_loading,
            final(self).settings == old(self).settings,
            final(self).current_request == old(self).current_request,
            final(self).collections == old(self).collections,
            final(self).environments == old(self).environments,
            final(self).active_environment == old(self).active_environment,
            final(self).status_notice == old(self).status_notice,
            history_changed == response is Ok,
            match response {
                Ok(resp) => {
                    &&& final(self).current_response == Some(resp)
                    &&& final(self).error_message is None
                    &&& final(self).history.entries@.len() == old(self).history.entries@.len() + 1
                    &&& final(self).history.entries@.skip(1) == old(self).history.entries@
                    &&& final(self).history.entries@[0].timestamp == timestamp
                    &&& final(self).history.entries@[0].method@ == crate::models::request::method_name(old(self).current_request.method)
                    &&& final(self).history.entries@[0].url@ == old(self).current_request.url@
                    &&& pairs_view(final(self).history.entries@[0].request_headers@) == old(self).current_request@.headers
                    &&& opt_view(final(self).history.entries@[0].request_body) == old(self).current_request@.body
                    &&& crate::models::auth::auth_opt_view(final(self).history.entries@[0].auth) == old(self).current_request@.auth
                    &&& final(self).history.entries@[0].status == Some(resp.status)
                    &&& opt_view(final(self).history.entries@[0].response_body) == Some(resp.body@)
                },
                Err(e) => {
                    &&& final(self).current_response == old(self).current_response
                    &&& final(self).history == old(self).history
                    &&& final(self).error_message matches Some(m) && m@ == error_message(e)
                },
            },
    {
        self.is_loading = false;
        match response {
            Ok(resp) => {
                let entry = HistoryEntry::from_request_response(&self.current_request, &resp, timestamp);
                self.history.add(entry);
                assert(self.history.entries@.skip(1) =~= old(self).history.entries@);
                self.current_response = Some(resp);
                self.error_message = None;
                true
            },
            Err(e) => {
                self.error_message = Some(e.message());
                false
            },
        }
    }

    /// Loads history entry `index` into the editor with its response; does
    /// nothing when there is no such entry or its method does not parse.
    pub fn load_history_entry(&mut self, index: usize)
        ensures
            history_loaded(*old(self), *final(self), index),
    {
        if index < self.history.entries.len() {
            match self.history.entries[index].to_request() {
                Ok(request) => {
                    let response = self.history.entries[index].to_response();
                    self.current_request = request;
                    self.current_response = response;
                    self.error_message = None;
                },
                Err(_) => {},
            }
        }
    }

    /// Removes history entry `index` (the caller then writes the history).
    pub fn remove_history_entry(&mut self, index: usize)
        ensures
            *final(self) == (App { history: final(self).history, ..*old(self) }),
            final(self).history.entries@ == if index < old(self).history.entries@.len() {
                old(self).history.entries@.remove(index as int)
            } else {
                old(self).history.entries@
            },
    {
        self.history.remove(index);
    }

    /// Saves the request being edited under `name` in collection
    /// `col_index`. Returns whether a collection changed (and the
    /// collections are to be written).
    pub fn add_request_to_collection(&mut self, col_index: usize, name: String) -> (changed: bool)
        ensures
            changed == (col_index < old(self).collections.items@.len()),
            request_filed(*old(self), *final(self), col_index, name@),
    {
        if col_index < self.collections.items.len() {
            let entry = CollectionEntry::from_request(name.as_str(), &self.current_request);
            let mut col = self.collections.items.remove(col_index);
            let ghost o = col;
            col.add_entry(entry);
            assert(col.entries@.drop_last() =~= o.entries@);
            self.collections.items.insert(col_index, col);
            proof {
                assert forall|i: int| 0 <= i < old(self).collections.items@.len() && i != col_index implies
                    self.collections.items@[i] == old(self).collections.items@[i] by {
                    if i < col_index {
                    } else {
                    }
                }
            }
            true
        } else {
            false
        }
    }

    /// Loads entry `entry_index` of collection `col_index` into the editor and
    /// clears the response; does nothing when there is no such entry or its
    /// method does not parse.
    pub fn load_collection_entry(&mut self, col_index: usize, entry_index: usize)
        ensures
            collection_loaded(*old(self), *final(self), col_index, entry_index),
    {
        if col_index < self.collections.items.len() {
            if entry_index < self.collections.items[col_index].entries.len() {
                match self.collections.items[col_index].entries[entry_index].to_request() {
                    Ok(request) => {
                        self.current_request = request;
                        self.current_response = None;
                        self.error_message = None;
                    },
                    Err(_) => {},
                }
            }
        }
    }

    /// The request with the active environment's variables substituted; the
    /// request unchanged when no environment is active or the active index
    /// is out of range.
    pub fn apply_environment(&self, request: &Request) -> (r: Request)
        ensures
            r@ == match self.active_environment {
                Some(idx) => if idx < self.environments.items@.len() {
                    request_substituted(request@, self.environments.items@[idx as int].vars())
                } else {
                    request@
                },
                None => request@,
            },
    {
        let env = match self.active_environment {
            Some(idx) => {
                if idx < self.environments.items.len() {
                    &self.environments.items[idx]
                } else {
                    return request.clone();
                }
            },
            None => {
                return request.clone();
            },
        };
        let url = substitute_variables(request.url.as_str(), env);
        let headers = substitute_pairs(&request.headers, env);
        let body = match &request.body {
            Some(b) => Some(substitute_variables(b.as_str(), env)),
            None => None,
        };
        let auth = match &request.auth {
            Some(a) => Some(a.substitute_env(env)),
            None => None,
        };
        let params = substitute_pairs(&request.params, env);
        Request { method: request.method, url, headers, body, auth, params }
    }

    /// Shows `msg` as a notice from time `now_ms` on.
    pub fn set_notice(&mut self, msg: String, now_ms: u64)
        ensures
            *final(self) == (App { status_notice: Some((msg, now_ms)), ..*old(self) }),
    {
        self.status_notice = Some((msg, now_ms));
    }

    /// The notice, while it is less than three seconds old at time `now_ms`.
    pub fn status_notice_text(&self, now_ms: u64) -> (r: Option<String>)
        ensures
            match self.status_notice {
                Some((m, t)) => if now_ms < t || now_ms - t < NOTICE_MILLIS {
                    r matches Some(s) && s@ == m@
                } else {
                    r is None
                },
                None => r is None,
            },
    {
        match &self.status_notice {
            Some((msg, t)) => {
                let elapsed = now_ms.saturating_sub(*t);
                if elapsed < NOTICE_MILLIS {
                    Some(msg.clone())
                } else {
                    None
                }
            },
            None => None,
        }
    }

    /// Records the outcome of copying the response body to the clipboard.
    pub fn notice_copy_result(&mut self, outcome: Result<(), String>, now_ms: u64)
        ensures
            *final(self) == (App { status_notice: final(self).status_notice, ..*old(self) }),
            final(self).status_notice matches Some((m, t)) && t == now_ms && m@ == copy_notice(
                match outcome {
                    Ok(()) => Ok(()),
                    Err(e) => Err(e@),
                },
            ),
    {
        let msg = match &outcome {
            Ok(()) => "Copied to clipboard!".to_string(),
            Err(e) => concat2("Clipboard error: ", e.as_str()),
        };
        self.set_notice(msg, now_ms);
    }

    /// Records the outcome of writing the response body to `response.json`.
    pub fn notice_save_result(&mut self, outcome: Result<(), String>, now_ms: u64)
        ensures
            *final(self) == (App { status_notice: final(self).status_notice, ..*old(self) }),
            final(self).status_notice matches Some((m, t)) && t == now_ms && m@ == save_notice(
                match outcome {
                    Ok(()) => Ok(()),
                    Err(e) => Err(e@),
                },
                response_file(),
            ),
    {
        let msg = match &outcome {
            Ok(()) => concat2("Saved: ", "response.json"),
            Err(e) => concat2("Error: ", e.as_str()),
        };
        self.set_notice(msg, now_ms);
    }

    /// The request to send when the user asks for it: none while the URL is
    /// empty; otherwise the request being edited, with a JSON content type
    /// added when it has a body and no content-type header.
    pub fn request_to_send(&self) -> (r: Option<Request>)
        ensures
            self.current_request@.url.len() == 0 ==> r is None,
            self.current_request@.url.len() > 0 ==> (r matches Some(q) && q@ == outgoing(
                self.current_request@,
            )),
    {
        if self.current_request.url.as_str().is_empty() {
            return None;
        }
        let mut request = self.current_request.clone();
        if request.body.is_some() {
            let mut has_ct = false;
            let mut i: usize = 0;
            while i < request.headers.len()
                invariant
                    i <= request.headers@.len(),
                    has_ct == (exists|j: int| 0 <= j < i && is_content_type(#[trigger] pairs_view(request.headers@)[j].0)),
                decreases request.headers.len() - i,
            {
                let name = to_chars(request.headers[i].0.as_str());
                let lowered = crate::text::ascii_lower_chars(&name);
                let lowered_s = crate::text::from_chars(&lowered);
                if crate::text::str_eq(lowered_s.as_str(), "content-type") {
                    has_ct = true;
                    assert(is_content_type(pairs_view(request.headers@)[i as int].0));
                }
                i += 1;
            }
            if !has_ct {
                let ghost before = pairs_view(request.headers@);
                request.headers.push(("Content-Type".to_string(), "application/json".to_string()));
                assert(pairs_view(request.headers@) =~= before.push(("Content-Type"@, "application/json"@)));
            }
        }
        Some(request)
    }
}

impl App {
    /// The response body as it is copied or saved: pretty-printed JSON, or
    /// empty text when it cannot be printed; none without a response.
    pub fn response_export_text(&self) -> (r: Option<String>)
        ensures
            match self.current_response {
                None => r is None,
                Some(resp) => r matches Some(t) && t@ == match crate::models::response::json_pretty_of(resp.body@) {
                    Some(p) => p,
                    None => Seq::empty(),
                },
            },
    {
        match &self.current_response {
            None => None,
            Some(resp) => match crate::models::response::json_pretty(resp.body.as_str()) {
                Some(p) => Some(p),
                None => Some(String::new()),
            },
        }
    }
}

} // verus!
