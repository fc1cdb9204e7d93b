//! Ticket operations the issue browser queues, and what is reported when
//! one is done.
use vstd::prelude::*;

use crate::text::concat;

verus! {

broadcast use vstd::string::group_string_axioms;

/// An operation on one ticket, carried out in the background.
#[derive(Debug, Clone)]
pub enum ViewAction {
    /// Move the ticket to its next status.
    CycleStatus { id: String },
    /// Load the ticket into the edit form.
    LoadForEdit { id: String },
    /// Mark the ticket as triaged, or not.
    MarkTriaged { id: String, triaged: bool },
    /// Cancel the ticket.
    CancelTicket { id: String },
    /// Add a note to the ticket.
    AddNote { id: String, note: String },
}

/// The report of an operation: `(true, message)` when it succeeded, else
/// `(false, message)` with the failure's text.
pub open spec fn outcome_report(a: ViewAction, failure: Option<Seq<char>>) -> (bool, Seq<char>) {
    match failure {
        None => (
            true,
            match a {
                ViewAction::CycleStatus { id } => "Status cycled for "@ + id@,
                ViewAction::LoadForEdit { id } => "Loaded "@ + id@ + " for editing"@,
                ViewAction::MarkTriaged { id, triaged } => if triaged {
                    "Marked "@ + id@ + " as triaged"@
                } else {
                    "Unmarked "@ + id@ + " as triaged"@
                },
                ViewAction::CancelTicket { id } => "Cancelled "@ + id@,
                ViewAction::AddNote { id, .. } => "Added note to "@ + id@,
            },
        ),
        Some(e) => (
            false,
            match a {
                ViewAction::CycleStatus { .. } => "Failed to cycle status: "@ + e,
                ViewAction::LoadForEdit { .. } => "Failed to load ticket: "@ + e,
                ViewAction::MarkTriaged { .. } => "Failed to mark as triaged: "@ + e,
                ViewAction::CancelTicket { .. } => "Failed to cancel ticket: "@ + e,
                ViewAction::AddNote { .. } => "Failed to add note: "@ + e,
            },
        ),
    }
}

impl ViewAction {
    /// The ticket the operation is on.
    pub fn ticket_id(&self) -> (r: &str)
        ensures
            r@ == match *self {
                ViewAction::CycleStatus { id } => id@,
                ViewAction::LoadForEdit { id } => id@,
                ViewAction::MarkTriaged { id, .. } => id@,
                ViewAction::CancelTicket { id } => id@,
                ViewAction::AddNote { id, .. } => id@,
            },
    {
        match self {
            ViewAction::CycleStatus { id } => id.as_str(),
            ViewAction::LoadForEdit { id } => id.as_str(),
            ViewAction::MarkTriaged { id, .. } => id.as_str(),
            ViewAction::CancelTicket { id } => id.as_str(),
            ViewAction::AddNote { id, .. } => id.as_str(),
        }
    }

    /// What is reported when the operation is done: success, or the
    /// failure's message (see `outcome_report`).
    pub fn report(&self, failure: Option<&str>) -> (r: (bool, String))
        ensures
            (r.0, r.1@) == outcome_report(
                *self,
                match failure {
                    Some(e) => Some(e@),
                    None => None,
                },
            ),
    {
        match failure {
            None => {
                let msg = match self {
                    ViewAction::CycleStatus { id } => concat("Status cycled for ", id.as_str()),
                    ViewAction::LoadForEdit { id } => {
                        let a = concat("Loaded ", id.as_str());
                        concat(a.as_str(), " for editing")
                    },
                    ViewAction::MarkTriaged { id, triaged } => {
                        if *triaged {
                            let a = concat("Marked ", id.as_str());
                            concat(a.as_str(), " as triaged")
                        } else {
                            let a = concat("Unmarked ", id.as_str());
                            concat(a.as_str(), " as triaged")
                        }
                    },
                    ViewAction::CancelTicket { id } => concat("Cancelled ", id.as_str()),
                    ViewAction::AddNote { id, .. } => concat("Added note to ", id.as_str()),
                };
                (true, msg)
            },
            Some(e) => {
                let msg = match self {
                    ViewAction::CycleStatus { .. } => concat("Failed to cycle status: ", e),
                    ViewAction::LoadForEdit { .. } => concat("Failed to load ticket: ", e),
                    ViewAction::MarkTriaged { .. } => concat("Failed to mark as triaged: ", e),
                    ViewAction::CancelTicket { .. } => concat("Failed to cancel ticket: ", e),
                    ViewAction::AddNote { .. } => concat("Failed to add note: ", e),
                };
                (false, msg)
            },
        }
    }
}

} // verus!
