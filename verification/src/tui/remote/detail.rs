//! What the detail pane of the remote interface shows besides the issue's
//! own fields: the local ticket linked to the issue.
use vstd::prelude::*;

use crate::text::str_eq;
use crate::types::TicketMetadata;

use super::operations::{extract_issue_id_from_remote_ref, issue_id_of_ref};

verus! {

/// Whether `t` is a ticket with an id whose remote reference names the
/// issue `issue_id`.
pub open spec fn links_to(t: TicketMetadata, issue_id: Seq<char>) -> bool {
    &&& t.id is Some
    &&& t.remote matches Some(r) && issue_id_of_ref(r@) == Some(issue_id)
}

/// The id of the first of `tickets` linked to the issue `issue_id` (see
/// `links_to`), if any.
pub fn linked_ticket_for_issue(issue_id: &str, tickets: &[TicketMetadata]) -> (r: Option<String>)
    ensures
        match r {
            Some(id) => exists|i: int|
                0 <= i < tickets@.len() && #[trigger] links_to(tickets@[i], issue_id@) && tickets@[i].id
                    == Some(id) && forall|j: int| 0 <= j < i ==> !links_to(#[trigger] tickets@[j], issue_id@),
            None => forall|i: int| 0 <= i < tickets@.len() ==> !links_to(#[trigger] tickets@[i], issue_id@),
        },
{
    let mut i: usize = 0;
    while i < tickets.len()
        invariant
            i <= tickets@.len(),
            forall|j: int| 0 <= j < i ==> !links_to(#[trigger] tickets@[j], issue_id@),
        decreases tickets@.len() - i,
    {
        let t = &tickets[i];
        if let Some(remote) = &t.remote {
            if let Some(found) = extract_issue_id_from_remote_ref(remote.as_str()) {
                if str_eq(found.as_str(), issue_id) {
                    if let Some(id) = &t.id {
                        assert(links_to(tickets@[i as int], issue_id@));
                        return Some(id.clone());
                    }
                }
            }
        }
        i = i + 1;
    }
    None
}

} // verus!
