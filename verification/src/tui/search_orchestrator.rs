//! Search in the ticket interfaces: a search runs when asked for (not
//! while typing), its results are kept until the query is cleared, and a
//! query starting with `~` also runs a semantic search whose results are
//! merged in.
use vstd::prelude::*;

use std::sync::Arc;

use crate::tui::search::{
    compute_title_highlights, highlighted_row, merge_search_results, merged_results,
    semantic_stripped, semantic_ticket, strip_semantic_modifier, FilteredTicket, SearchResult,
};
use crate::types::{same_ticket, TicketMetadata};

verus! {

broadcast use vstd::string::group_string_axioms;

/// Where a search stands.
#[derive(Debug, Default)]
pub struct SearchState {
    /// Results of the last search, with title highlights.
    pub filtered: Option<Vec<FilteredTicket>>,
    /// Whether a search is running.
    pub in_flight: bool,
    /// Whether a search was asked for and waits for the next render.
    pub pending: bool,
    /// Whether a semantic search is running.
    pub semantic_pending: bool,
    /// The error of the last semantic search, until shown.
    pub semantic_error: Option<String>,
}

/// The searches to run for a query.
#[derive(Debug)]
pub struct SearchRequest {
    /// The query of the fuzzy search.
    pub query: String,
    /// The query of the semantic search, when the query asks for one.
    pub semantic_query: Option<String>,
}

/// `a` holds the same tickets, scores, highlights and origins as `b`.
pub open spec fn same_results(a: Seq<FilteredTicket>, b: Seq<FilteredTicket>) -> bool {
    &&& a.len() == b.len()
    &&& forall|i: int|
        0 <= i < a.len() ==> {
            &&& *(#[trigger] a[i]).ticket == *b[i].ticket
            &&& a[i].score == b[i].score
            &&& a[i].title_indices@ == b[i].title_indices@
            &&& a[i].is_semantic == b[i].is_semantic
        }
}

/// A copy of `v`.
fn copy_results(v: &Vec<FilteredTicket>) -> (r: Vec<FilteredTicket>)
    ensures
        same_results(r@, v@),
{
    let mut out: Vec<FilteredTicket> = Vec::new();
    let mut i: usize = 0;
    while i < v.len()
        invariant
            i <= v@.len(),
            same_results(out@, v@.take(i as int)),
        decreases v@.len() - i,
    {
        let ft = &v[i];
        out.push(
            FilteredTicket {
                ticket: Arc::clone(&ft.ticket),
                score: ft.score,
                title_indices: ft.title_indices.clone(),
                is_semantic: ft.is_semantic,
            },
        );
        i = i + 1;
    }
    assert(v@.take(v@.len() as int) =~= v@);
    out
}

impl SearchState {
    /// No results, nothing running or waiting.
    pub fn new() -> (r: SearchState)
        ensures
            r.filtered is None,
            !r.in_flight,
            !r.pending,
            !r.semantic_pending,
            r.semantic_error is None,
    {
        SearchState {
            filtered: None,
            in_flight: false,
            pending: false,
            semantic_pending: false,
            semantic_error: None,
        }
    }

    /// Asks for a search at the next render.
    pub fn trigger_pending(&mut self)
        ensures
            *final(self) == (SearchState { pending: true, ..*old(self) }),
    {
        self.pending = true;
    }

    /// Starts the searches for `query`: always the fuzzy search, and the
    /// semantic search when the query starts with `~`.
    pub fn trigger(&mut self, query: String) -> (r: SearchRequest)
        ensures
            r.query == query,
            (query@.len() > 0 && query@[0] == '~') ==> (r.semantic_query matches Some(q) && q@
                == query@),
            !(query@.len() > 0 && query@[0] == '~') ==> r.semantic_query is None,
            *final(self) == (SearchState {
                pending: false,
                in_flight: true,
                semantic_pending: old(self).semantic_pending || (query@.len() > 0 && query@[0]
                    == '~'),
                ..*old(self)
            }),
    {
        self.pending = false;
        self.in_flight = true;
        let semantic = crate::tui::search::is_semantic_search(query.as_str());
        let semantic_query = if semantic {
            self.semantic_pending = true;
            Some(query.clone())
        } else {
            None
        };
        SearchRequest { query, semantic_query }
    }

    /// Starts the search asked for, if any, with `query`.
    pub fn check_pending(&mut self, query: String) -> (r: Option<SearchRequest>)
        ensures
            !old(self).pending ==> r is None && *final(self) == *old(self),
            old(self).pending ==> (r matches Some(req) && req.query == query && ((query@.len() > 0
                && query@[0] == '~') ==> (req.semantic_query matches Some(q) && q@ == query@)) && (
            !(query@.len() > 0 && query@[0] == '~') ==> req.semantic_query is None)),
            old(self).pending ==> *final(self) == (SearchState {
                pending: false,
                in_flight: true,
                semantic_pending: old(self).semantic_pending || (query@.len() > 0 && query@[0]
                    == '~'),
                ..*old(self)
            }),
    {
        if self.pending {
            Some(self.trigger(query))
        } else {
            None
        }
    }

    /// Drops the results once the query is empty.
    pub fn clear_if_empty(&mut self, query: &str)
        ensures
            query@.len() == 0 ==> *final(self) == (SearchState { filtered: None, ..*old(self) }),
            query@.len() > 0 ==> *final(self) == *old(self),
    {
        if query.unicode_len() == 0 && self.filtered.is_some() {
            self.filtered = None;
        }
    }

    /// A copy of the results, if any.
    pub fn get_results(&self) -> (r: Option<Vec<FilteredTicket>>)
        ensures
            match self.filtered {
                Some(v) => r matches Some(w) && same_results(w@, v@),
                None => r is None,
            },
    {
        match &self.filtered {
            Some(v) => Some(copy_results(v)),
            None => None,
        }
    }

    /// Whether a search is running.
    pub fn is_in_flight(&self) -> (r: bool)
        ensures
            r == self.in_flight,
    {
        self.in_flight
    }

    /// Whether a semantic search is running.
    pub fn is_semantic_in_flight(&self) -> (r: bool)
        ensures
            r == self.semantic_pending,
    {
        self.semantic_pending
    }

    /// The error of the last semantic search, which is then forgotten.
    pub fn take_semantic_error(&mut self) -> (r: Option<String>)
        ensures
            r == old(self).semantic_error,
            *final(self) == (SearchState { semantic_error: None, ..*old(self) }),
    {
        self.semantic_error.take()
    }

    /// Records the tickets the fuzzy search for `query` found: shown with
    /// the matched positions of their titles. An empty query drops the
    /// results. The search is no longer running.
    pub fn fuzzy_search_finished(&mut self, query: &str, found: Vec<TicketMetadata>)
        ensures
            !final(self).in_flight,
            final(self).pending == old(self).pending,
            final(self).semantic_pending == old(self).semantic_pending,
            final(self).semantic_error == old(self).semantic_error,
            query@.len() == 0 ==> final(self).filtered is None,
            query@.len() > 0 ==> (final(self).filtered matches Some(v) && v@.len() == found@.len()
                && forall|j: int|
                0 <= j < v@.len() ==> highlighted_row(
                    #[trigger] v@[j],
                    found@[j],
                    semantic_stripped(query@),
                )),
    {
        if query.unicode_len() == 0 {
            self.filtered = None;
            self.in_flight = false;
            return ;
        }
        let fuzzy_query = strip_semantic_modifier(query);
        self.filtered = Some(compute_title_highlights(found.as_slice(), fuzzy_query));
        self.in_flight = false;
    }

    /// Records how the semantic search ended: its results are merged after
    /// the fuzzy results (or shown alone when there are none), or its
    /// error is kept to be shown. It is no longer running.
    pub fn semantic_search_finished(&mut self, outcome: Result<Vec<SearchResult>, String>)
        ensures
            !final(self).semantic_pending,
            final(self).in_flight == old(self).in_flight,
            final(self).pending == old(self).pending,
            outcome is Err ==> final(self).filtered == old(self).filtered && final(self).semantic_error
                == Some(outcome->Err_0),
            outcome is Ok ==> final(self).semantic_error is None && final(self).filtered is Some,
            (outcome is Ok && old(self).filtered is None) ==> (final(self).filtered matches Some(v)
                && v@.len() == outcome->Ok_0@.len() && forall|j: int|
                0 <= j < v@.len() ==> *(#[trigger] v@[j]).ticket == outcome->Ok_0@[j].ticket
                    && v@[j].is_semantic),
            (outcome is Ok && old(self).filtered is Some) ==> (final(self).filtered matches Some(v)
                && merged_results(v@, old(self).filtered->0@, outcome->Ok_0@)),
    {
        match outcome {
            Ok(results) => {
                match self.filtered.take() {
                    Some(fuzzy) => {
                        self.filtered = Some(merge_search_results(fuzzy, results));
                    },
                    None => {
                        let mut tickets: Vec<FilteredTicket> = Vec::new();
                        let ghost all = results@;
                        for r in it: results
                            invariant
                                it.seq() == all,
                                tickets@.len() == it.index(),
                                forall|j: int|
                                    0 <= j < tickets@.len() ==> *(#[trigger] tickets@[j]).ticket == all[j].ticket
                                        && tickets@[j].is_semantic,
                        {
                            tickets.push(semantic_ticket(r));
                        }
                        self.filtered = Some(tickets);
                    },
                }
                self.semantic_error = None;
            },
            Err(e) => {
                self.semantic_error = Some(e);
            },
        }
        self.semantic_pending = false;
    }
}

/// The tickets shown for `query`: all tickets (unscored) while the query
/// is empty or no search has results, else the search results.
pub open spec fn shown_tickets(all: Seq<TicketMetadata>, results: Option<Vec<FilteredTicket>>, query: Seq<char>, r: Seq<FilteredTicket>) -> bool {
    if query.len() > 0 && results is Some {
        same_results(r, results->0@)
    } else {
        &&& r.len() == all.len()
        &&& forall|i: int|
            0 <= i < r.len() ==> same_ticket(*(#[trigger] r[i]).ticket, all[i]) && r[i].score == 0
                && r[i].title_indices@.len() == 0 && !r[i].is_semantic
    }
}

/// The tickets to show (see `shown_tickets`).
pub fn compute_filtered_tickets(all_tickets: &[TicketMetadata], search_state: &SearchState, query: &str) -> (r: Vec<
    FilteredTicket,
>)
    ensures
        shown_tickets(all_tickets@, search_state.filtered, query@, r@),
{
    if query.unicode_len() > 0 {
        if let Some(results) = search_state.get_results() {
            return results;
        }
    }
    let mut out: Vec<FilteredTicket> = Vec::new();
    let mut i: usize = 0;
    while i < all_tickets.len()
        invariant
            i <= all_tickets@.len(),
            out@.len() == i,
            forall|j: int|
                0 <= j < i ==> same_ticket(*(#[trigger] out@[j]).ticket, all_tickets@[j]) && out@[j].score == 0
                    && out@[j].title_indices@.len() == 0 && !out@[j].is_semantic,
        decreases all_tickets@.len() - i,
    {
        out.push(
            FilteredTicket {
                ticket: Arc::new(all_tickets[i].clone()),
                score: 0,
                title_indices: Vec::new(),
                is_semantic: false,
            },
        );
        i = i + 1;
    }
    out
}

} // verus!
