//! Confirmation dialogs of the remote interface.
use vstd::prelude::*;

use crate::text::{concat, decimal, decimal_string};

verus! {

broadcast use vstd::string::group_string_axioms;

/// What to do when the user confirms.
#[derive(Debug, Clone)]
pub enum ConfirmAction {
    /// Unlink these tickets from their remote issues.
    Unlink(Vec<String>),
}

/// A pending confirmation.
#[derive(Debug, Clone)]
pub struct ConfirmDialogState {
    pub message: String,
    pub default_yes: bool,
    pub action: ConfirmAction,
}

/// The question asked before unlinking `ids`.
pub open spec fn unlink_question(ids: Seq<Seq<char>>) -> Seq<char> {
    if ids.len() == 1 {
        "Unlink ticket '"@ + ids[0] + "' from its remote issue?"@
    } else {
        "Unlink "@ + decimal(ids.len()) + " tickets from their remote issues?"@
    }
}

impl ConfirmDialogState {
    /// A confirmation asking `message` before `action`.
    pub fn new(message: String, default_yes: bool, action: ConfirmAction) -> (r: ConfirmDialogState)
        ensures
            r.message == message,
            r.default_yes == default_yes,
            r.action == action,
    {
        ConfirmDialogState { message, default_yes, action }
    }

    /// The confirmation asked before unlinking `ticket_ids` (default no).
    pub fn for_unlink(ticket_ids: Vec<String>) -> (r: ConfirmDialogState)
        ensures
            r.message@ == unlink_question(ticket_ids.deep_view()),
            !r.default_yes,
            r.action == ConfirmAction::Unlink(ticket_ids),
    {
        let message = if ticket_ids.len() == 1 {
            let a = concat("Unlink ticket '", ticket_ids[0].as_str());
            concat(a.as_str(), "' from its remote issue?")
        } else {
            let n = decimal_string(ticket_ids.len() as u64);
            let a = concat("Unlink ", n.as_str());
            concat(a.as_str(), " tickets from their remote issues?")
        };
        ConfirmDialogState::new(message, false, ConfirmAction::Unlink(ticket_ids))
    }
}

} // verus!
