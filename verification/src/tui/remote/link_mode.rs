//! Link mode: a ticket chosen on one list waits for an issue to be chosen
//! on the other.
use vstd::prelude::*;

use crate::remote::RemoteIssue;

use super::state::ViewMode;

verus! {

/// The item that link mode started from.
#[derive(Debug)]
pub struct LinkModeState {
    pub source_view: ViewMode,
    pub source_id: String,
    pub source_title: String,
}

/// Two link-mode states hold the same data.
pub open spec fn same_link_mode(a: LinkModeState, b: LinkModeState) -> bool {
    &&& a.source_view == b.source_view
    &&& a.source_id@ == b.source_id@
    &&& a.source_title@ == b.source_title@
}

impl Clone for LinkModeState {
    fn clone(&self) -> (r: Self)
        ensures
            same_link_mode(r, *self),
    {
        LinkModeState {
            source_view: self.source_view,
            source_id: self.source_id.clone(),
            source_title: self.source_title.clone(),
        }
    }
}

impl LinkModeState {
    /// Link mode started from `source_id` on the list `source_view`.
    pub fn new(source_view: ViewMode, source_id: String, source_title: String) -> (r: LinkModeState)
        ensures
            r.source_view == source_view,
            r.source_id == source_id,
            r.source_title == source_title,
    {
        LinkModeState { source_view, source_id, source_title }
    }
}

/// A link to make: the local ticket and the remote issue.
#[derive(Debug, Clone)]
pub struct LinkSource {
    pub ticket_id: String,
    pub remote_issue: RemoteIssue,
}

} // verus!
