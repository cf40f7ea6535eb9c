//! The interface's own state: focus, tabs, drawers, cursors and the text
//! being edited. Cursors count characters.
use vstd::prelude::*;
use crate::models::history::HistoryEntry;
use crate::tui::keys::dec;
use crate::text::{contains, decimal, lower, seq_contains, to_lower, u16_to_decimal};

verus! {

broadcast use vstd::string::group_string_axioms;

#[derive(Debug, Clone, Copy, PartialEq, Eq, Structural)]
pub enum FocusedPanel {
    Request,
    Response,
}

#[derive(Debug, Clone, Copy, PartialEq, Eq, Structural)]
pub enum DrawerPanel {
    History,
    Collections,
    Environments,
}

#[derive(Debug, Clone, Copy, PartialEq, Eq, Structural)]
pub enum RequestTab {
    Params,
    Headers,
    Body,
    Auth,
}

#[derive(Debug, Clone, Copy, PartialEq, Eq, Structural)]
pub enum ResponseTab {
    Body,
    Headers,
    Cookies,
}

pub open spec fn next_request_tab_of(t: RequestTab) -> RequestTab {
    match t {
        RequestTab::Params => RequestTab::Headers,
        RequestTab::Headers => RequestTab::Body,
        RequestTab::Body => RequestTab::Auth,
        RequestTab::Auth => RequestTab::Params,
    }
}

pub open spec fn prev_request_tab_of(t: RequestTab) -> RequestTab {
    match t {
        RequestTab::Params => RequestTab::Auth,
        RequestTab::Headers => RequestTab::Params,
        RequestTab::Body => RequestTab::Headers,
        RequestTab::Auth => RequestTab::Body,
    }
}

pub open spec fn next_response_tab_of(t: ResponseTab) -> ResponseTab {
    match t {
        ResponseTab::Body => ResponseTab::Headers,
        ResponseTab::Headers => ResponseTab::Cookies,
        ResponseTab::Cookies => ResponseTab::Body,
    }
}

pub open spec fn prev_response_tab_of(t: ResponseTab) -> ResponseTab {
    match t {
        ResponseTab::Body => ResponseTab::Cookies,
        ResponseTab::Headers => ResponseTab::Body,
        ResponseTab::Cookies => ResponseTab::Headers,
    }
}

/// A history entry matches the search `query` (already lower-cased) when its
/// lower-cased URL or method, or its status code, contains it.
pub open spec fn history_matches(e: HistoryEntry, q: Seq<char>) -> bool {
    seq_contains(lower(e.url@), q) || seq_contains(lower(e.method@), q) || (e.status matches Some(
        s,
    ) && seq_contains(decimal(s as nat), q))
}

/// An entry is listed for the search text `query` when the text is empty or
/// the entry matches its lower-cased form.
pub open spec fn history_selected(query: Seq<char>, e: HistoryEntry) -> bool {
    query.len() == 0 || history_matches(e, lower(query))
}

/// The indices of the entries listed for the search text `query`, in order.
pub open spec fn filtered(query: Seq<char>, entries: Seq<HistoryEntry>) -> Seq<usize>
    decreases entries.len(),
{
    if entries.len() == 0 {
        Seq::empty()
    } else {
        let rest = filtered(query, entries.drop_last());
        if history_selected(query, entries.last()) {
            rest.push((entries.len() - 1) as usize)
        } else {
            rest
        }
    }
}

#[derive(Debug)]
pub struct TuiState {
    pub focused_panel: FocusedPanel,
    pub url_input: String,
    pub url_cursor: usize,
    pub editing_url: bool,
    pub request_tab: RequestTab,
    pub response_tab: ResponseTab,
    pub drawer: Option<DrawerPanel>,
    pub history_index: usize,
    pub collection_index: usize,
    pub collection_request_index: usize,
    pub in_collection_requests: bool,
    pub environment_index: usize,
    pub environment_variable_index: usize,
    pub in_environment_vars: bool,
    pub body_input: String,
    pub body_cursor: usize,
    pub is_editing_body: bool,
    pub response_scroll: usize,
    pub response_headers_scroll: usize,
    pub header_index: usize,
    pub header_key_input: String,
    pub header_value_input: String,
    pub header_key_cursor: usize,
    pub header_value_cursor: usize,
    pub editing_header_key: bool,
    pub editing_header: bool,
    pub param_index: usize,
    pub param_key_input: String,
    pub param_value_input: String,
    pub param_key_cursor: usize,
    pub param_value_cursor: usize,
    pub editing_param_key: bool,
    pub editing_param: bool,
    pub history_search_active: bool,
    pub history_search_input: String,
    pub editing_collection_name: bool,
    pub collection_name_input: String,
    pub collection_name_cursor: usize,
    pub editing_environment_name: bool,
    pub environment_name_input: String,
    pub environment_name_cursor: usize,
    pub editing_variable: bool,
    pub variable_key_input: String,
    pub variable_value_input: String,
    pub variable_key_cursor: usize,
    pub variable_value_cursor: usize,
    pub editing_variable_key: bool,
    pub editing_auth: bool,
    pub auth_type_index: usize,
    pub auth_token_input: String,
    pub auth_token_cursor: usize,
    pub auth_username_input: String,
    pub auth_password_input: String,
    pub auth_username_cursor: usize,
    pub auth_password_cursor: usize,
    pub auth_editing_username: bool,
    pub auth_key_name_input: String,
    pub auth_key_value_input: String,
    pub auth_key_name_cursor: usize,
    pub auth_key_value_cursor: usize,
    pub auth_editing_key_name: bool,
}

/// Every cursor lies within its text.
#[verifier::opaque]
pub open spec fn cursors_in_text(t: TuiState) -> bool {
    &&& t.url_cursor <= t.url_input@.len()
    &&& t.body_cursor <= t.body_input@.len()
    &&& t.header_key_cursor <= t.header_key_input@.len()
    &&& t.header_value_cursor <= t.header_value_input@.len()
    &&& t.param_key_cursor <= t.param_key_input@.len()
    &&& t.param_value_cursor <= t.param_value_input@.len()
    &&& t.variable_key_cursor <= t.variable_key_input@.len()
    &&& t.variable_value_cursor <= t.variable_value_input@.len()
    &&& t.collection_name_cursor <= t.collection_name_input@.len()
    &&& t.environment_name_cursor <= t.environment_name_input@.len()
    &&& t.auth_token_cursor <= t.auth_token_input@.len()
    &&& t.auth_username_cursor <= t.auth_username_input@.len()
    &&& t.auth_password_cursor <= t.auth_password_input@.len()
    &&& t.auth_key_name_cursor <= t.auth_key_name_input@.len()
    &&& t.auth_key_value_cursor <= t.auth_key_value_input@.len()
}

/// A step from `t0` to `t1` keeps every cursor within its text.
pub open spec fn keeps_cursors(t0: TuiState, t1: TuiState) -> bool {
    cursors_in_text(t0) ==> cursors_in_text(t1)
}

/// `t1` is `t0` with request tab `tab` shown.
#[verifier::opaque]
pub open spec fn with_request_tab(t0: TuiState, t1: TuiState, tab: RequestTab) -> bool {
    t1 == (TuiState { request_tab: tab, ..t0 })
}

/// `t1` is `t0` with response tab `tab` shown.
#[verifier::opaque]
pub open spec fn with_response_tab(t0: TuiState, t1: TuiState, tab: ResponseTab) -> bool {
    t1 == (TuiState { response_tab: tab, ..t0 })
}

/// `t1` is `t0` with the response body scrolled to line `n`.
#[verifier::opaque]
pub open spec fn with_response_scroll(t0: TuiState, t1: TuiState, n: usize) -> bool {
    t1 == (TuiState { response_scroll: n, ..t0 })
}

/// `t1` is `t0` with the response headers scrolled to line `n`.
#[verifier::opaque]
pub open spec fn with_headers_scroll(t0: TuiState, t1: TuiState, n: usize) -> bool {
    t1 == (TuiState { response_headers_scroll: n, ..t0 })
}

impl TuiState {
    /// The state the interface starts in: request panel focused on the
    /// parameters tab, no drawer, nothing being edited, all inputs empty and
    /// all positions at zero; key fields are edited before values.
    pub open spec fn is_initial(&self) -> bool {
        &&& self.focused_panel == FocusedPanel::Request
        &&& self.url_input@.len() == 0 && self.url_cursor == 0 && !self.editing_url
        &&& self.request_tab == RequestTab::Params && self.response_tab == ResponseTab::Body
        &&& self.drawer is None
        &&& self.history_index == 0 && self.collection_index == 0
        &&& self.collection_request_index == 0 && !self.in_collection_requests
        &&& self.environment_index == 0 && self.environment_variable_index == 0
        &&& !self.in_environment_vars
        &&& self.body_input@.len() == 0 && self.body_cursor == 0 && !self.is_editing_body
        &&& self.response_scroll == 0 && self.response_headers_scroll == 0
        &&& self.header_index == 0 && self.header_key_input@.len() == 0
        &&& self.header_value_input@.len() == 0 && self.header_key_cursor == 0
        &&& self.header_value_cursor == 0 && self.editing_header_key && !self.editing_header
        &&& self.param_index == 0 && self.param_key_input@.len() == 0
        &&& self.param_value_input@.len() == 0 && self.param_key_cursor == 0
        &&& self.param_value_cursor == 0 && self.editing_param_key && !self.editing_param
        &&& !self.history_search_active && self.history_search_input@.len() == 0
        &&& !self.editing_collection_name && self.collection_name_input@.len() == 0
        &&& self.collection_name_cursor == 0
        &&& !self.editing_environment_name && self.environment_name_input@.len() == 0
        &&& self.environment_name_cursor == 0
        &&& !self.editing_variable && self.variable_key_input@.len() == 0
        &&& self.variable_value_input@.len() == 0 && self.variable_key_cursor == 0
        &&& self.variable_value_cursor == 0 && self.editing_variable_key
        &&& !self.editing_auth && self.auth_type_index == 0
        &&& self.auth_token_input@.len() == 0 && self.auth_token_cursor == 0
        &&& self.auth_username_input@.len() == 0 && self.auth_password_input@.len() == 0
        &&& self.auth_username_cursor == 0 && self.auth_password_cursor == 0
        &&& self.auth_editing_username
        &&& self.auth_key_name_input@.len() == 0 && self.auth_key_value_input@.len() == 0
        &&& self.auth_key_name_cursor == 0 && self.auth_key_value_cursor == 0
        &&& self.auth_editing_key_name
    }

    /// Some input captures the keyboard.
    pub open spec fn editing(&self) -> bool {
        self.editing_url || self.is_editing_body || self.editing_header || self.editing_param
            || self.editing_auth || self.editing_variable || self.editing_collection_name
            || self.editing_environment_name || self.history_search_active
    }

    pub fn new() -> (s: TuiState)
        ensures
            s.is_initial(),
            cursors_in_text(s),
    {
        proof {
            reveal(cursors_in_text);
        }
        TuiState {
            focused_panel: FocusedPanel::Request,
            url_input: String::new(),
            url_cursor: 0,
            editing_url: false,
            request_tab: RequestTab::Params,
            response_tab: ResponseTab::Body,
            drawer: None,
            history_index: 0,
            collection_index: 0,
            collection_request_index: 0,
            in_collection_requests: false,
            environment_index: 0,
            environment_variable_index: 0,
            in_environment_vars: false,
            body_input: String::new(),
            body_cursor: 0,
            is_editing_body: false,
            response_scroll: 0,
            response_headers_scroll: 0,
            header_index: 0,
            header_key_input: String::new(),
            header_value_input: String::new(),
            header_key_cursor: 0,
            header_value_cursor: 0,
            editing_header_key: true,
            editing_header: false,
            param_index: 0,
            param_key_input: String::new(),
            param_value_input: String::new(),
            param_key_cursor: 0,
            param_value_cursor: 0,
            editing_param_key: true,
            editing_param: false,
            history_search_active: false,
            history_search_input: String::new(),
            editing_collection_name: false,
            collection_name_input: String::new(),
            collection_name_cursor: 0,
            editing_environment_name: false,
            environment_name_input: String::new(),
            environment_name_cursor: 0,
            editing_variable: false,
            variable_key_input: String::new(),
            variable_value_input: String::new(),
            variable_key_cursor: 0,
            variable_value_cursor: 0,
            editing_variable_key: true,
            editing_auth: false,
            auth_type_index: 0,
            auth_token_input: String::new(),
            auth_token_cursor: 0,
            auth_username_input: String::new(),
            auth_password_input: String::new(),
            auth_username_cursor: 0,
            auth_password_cursor: 0,
            auth_editing_username: true,
            auth_key_name_input: String::new(),
            auth_key_value_input: String::new(),
            auth_key_name_cursor: 0,
            auth_key_value_cursor: 0,
            auth_editing_key_name: true,
        }
    }

    /// Whether any editing mode is active (keyboard input captured).
    pub fn is_editing(&self) -> (b: bool)
        ensures
            b == self.editing(),
    {
        self.editing_url || self.is_editing_body || self.editing_header || self.editing_param
            || self.editing_auth || self.editing_variable || self.editing_collection_name
            || self.editing_environment_name || self.history_search_active
    }

    pub fn next_request_tab(&mut self)
        ensures
            keeps_cursors(*old(self), *final(self)),
            with_request_tab(*old(self), *final(self), next_request_tab_of(old(self).request_tab)),
    {
        proof {
            reveal(cursors_in_text);
        }
        self.request_tab = match self.request_tab {
            RequestTab::Params => RequestTab::Headers,
            RequestTab::Headers => RequestTab::Body,
            RequestTab::Body => RequestTab::Auth,
            RequestTab::Auth => RequestTab::Params,
        };
        proof {
            reveal(with_request_tab);
        }
    }

    pub fn prev_request_tab(&mut self)
        ensures
            keeps_cursors(*old(self), *final(self)),
            with_request_tab(*old(self), *final(self), prev_request_tab_of(old(self).request_tab)),
    {
        proof {
            reveal(cursors_in_text);
        }
        self.request_tab = match self.request_tab {
            RequestTab::Params => RequestTab::Auth,
            RequestTab::Headers => RequestTab::Params,
            RequestTab::Body => RequestTab::Headers,
            RequestTab::Auth => RequestTab::Body,
        };
        proof {
            reveal(with_request_tab);
        }
    }

    pub fn next_response_tab(&mut self)
        ensures
            keeps_cursors(*old(self), *final(self)),
            with_response_tab(*old(self), *final(self), next_response_tab_of(old(self).response_tab)),
    {
        proof {
            reveal(cursors_in_text);
        }
        self.response_tab = match self.response_tab {
            ResponseTab::Body => ResponseTab::Headers,
            ResponseTab::Headers => ResponseTab::Cookies,
            ResponseTab::Cookies => ResponseTab::Body,
        };
        proof {
            reveal(with_response_tab);
        }
    }

    pub fn prev_response_tab(&mut self)
        ensures
            keeps_cursors(*old(self), *final(self)),
            with_response_tab(*old(self), *final(self), prev_response_tab_of(old(self).response_tab)),
    {
        proof {
            reveal(cursors_in_text);
        }
        self.response_tab = match self.response_tab {
            ResponseTab::Body => ResponseTab::Cookies,
            ResponseTab::Headers => ResponseTab::Body,
            ResponseTab::Cookies => ResponseTab::Headers,
        };
        proof {
            reveal(with_response_tab);
        }
    }

    /// Scrolls the response body up one line, stopping at the top.
    pub fn scroll_response_up(&mut self)
        ensures
            keeps_cursors(*old(self), *final(self)),
            with_response_scroll(*old(self), *final(self), dec(old(self).response_scroll)),
    {
        proof {
            reveal(cursors_in_text);
        }
        self.response_scroll = if self.response_scroll > 0 {
            self.response_scroll - 1
        } else {
            0
        };
        proof {
            reveal(with_response_scroll);
        }
    }

    /// Scrolls the response body down one line.
    pub fn scroll_response_down(&mut self)
        requires
            old(self).response_scroll < usize::MAX,
        ensures
            keeps_cursors(*old(self), *final(self)),
            with_response_scroll(*old(self), *final(self), (old(self).response_scroll + 1) as usize),
    {
        proof {
            reveal(cursors_in_text);
        }
        self.response_scroll += 1;
        proof {
            reveal(with_response_scroll);
        }
    }

    /// The indices of the history entries that match the search text, in
    /// order; all of them when the search text is empty.
    pub fn history_filtered_indices(&self, entries: &[HistoryEntry]) -> (r: Vec<usize>)
        ensures
            r@ == filtered(self.history_search_input@, entries@),
            forall|k: int| 0 <= k < r@.len() ==> (#[trigger] r@[k] as int) < entries@.len(),
            forall|a: int, b: int| 0 <= a < b < r@.len() ==> (#[trigger] r@[a]) < (#[trigger] r@[b]),
            forall|i: int|
                0 <= i < entries@.len() ==> (r@.contains(i as usize) <==> history_selected(
                    self.history_search_input@,
                    #[trigger] entries@[i],
                )),
    {
        let n = entries.len();
        let empty = self.history_search_input.as_str().is_empty();
        let q = to_lower(self.history_search_input.as_str());
        let mut r: Vec<usize> = Vec::new();
        let mut i: usize = 0;
        while i < n
            invariant
                n == entries@.len(),
                empty == (self.history_search_input@.len() == 0),
                q@ == lower(self.history_search_input@),
                i <= n,
                r@ == filtered(self.history_search_input@, entries@.take(i as int)),
                forall|k: int| 0 <= k < r@.len() ==> (#[trigger] r@[k]) < i,
                forall|a: int, b: int| 0 <= a < b < r@.len() ==> (#[trigger] r@[a]) < (#[trigger] r@[b]),
                forall|j: int|
                    0 <= j < i ==> (r@.contains(j as usize) <==> history_selected(
                        self.history_search_input@,
                        #[trigger] entries@[j],
                    )),
            decreases n - i,
        {
            let e = &entries[i];
            let keep = if empty {
                true
            } else {
                let url = to_lower(e.url.as_str());
                let method = to_lower(e.method.as_str());
                if contains(url.as_str(), q.as_str()) || contains(method.as_str(), q.as_str()) {
                    true
                } else {
                    match e.status {
                        Some(s) => {
                            let d = u16_to_decimal(s);
                            contains(d.as_str(), q.as_str())
                        },
                        None => false,
                    }
                }
            };
            assert(keep == history_selected(self.history_search_input@, entries@[i as int]));
            let ghost before = r@;
            assert(entries@.take(i + 1).drop_last() =~= entries@.take(i as int));
            if keep {
                r.push(i);
            }
            proof {
                assert forall|j: int|
                    0 <= j < i + 1 implies (r@.contains(j as usize) <==> history_selected(
                        self.history_search_input@,
                        #[trigger] entries@[j],
                    )) by {
                    if j < i {
                        if before.contains(j as usize) {
                            let w = choose|w: int| 0 <= w < before.len() && before[w] == j as usize;
                            assert(r@[w] == j as usize);
                        }
                        if r@.contains(j as usize) {
                            let w = choose|w: int| 0 <= w < r@.len() && r@[w] == j as usize;
                            if w < before.len() {
                                assert(before[w] == j as usize);
                            }
                        }
                    } else {
                        if keep {
                            assert(r@[before.len() as int] == i);
                        } else {
                            assert forall|w: int| 0 <= w < r@.len() implies r@[w] != j as usize by {}
                        }
                    }
                }
            }
            i += 1;
        }
        proof {
            assert forall|k: int| 0 <= k < r@.len() implies (#[trigger] r@[k] as int) < entries@.len() by {}
            assert(entries@.take(n as int) =~= entries@);
        }
        r
    }
}

} // verus!
