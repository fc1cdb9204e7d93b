//! The ticket list the interfaces load, and how it is refreshed.
use vstd::prelude::*;

use crate::tui::analytics::{sort_tickets, tickets_sorted};
use crate::types::TicketMetadata;

verus! {

broadcast use vstd::string::group_string_axioms;

/// How loading the tickets went.
#[derive(Debug, Clone, Copy, PartialEq, Eq, Default, Structural)]
pub enum InitResult {
    /// Tickets were loaded.
    #[default]
    Loaded,
    /// There is no Janus directory.
    NoJanusDir,
    /// The Janus directory is empty.
    EmptyDir,
}

/// The loaded tickets, and why loading failed, if it did.
#[derive(Debug, Clone, Default)]
pub struct TicketRepository {
    pub tickets: Vec<TicketMetadata>,
    pub init_error: Option<String>,
}

/// Ticket `t` has the id `id`.
pub open spec fn ticket_has_id(t: TicketMetadata, id: Seq<char>) -> bool {
    t.id is Some && t.id->0@ == id
}

/// `k` is the position of the first ticket of `ts` whose id is `id`.
pub open spec fn is_first_with_id(ts: Seq<TicketMetadata>, id: Seq<char>, k: int) -> bool {
    &&& 0 <= k < ts.len()
    &&& ticket_has_id(ts[k], id)
    &&& forall|j: int| 0 <= j < k ==> !ticket_has_id(#[trigger] ts[j], id)
}

/// Position of the first ticket of `ts` whose id is `id`, if any.
pub open spec fn position_of_id(ts: Seq<TicketMetadata>, id: Seq<char>) -> Option<int> {
    if exists|k: int| #[trigger] is_first_with_id(ts, id, k) {
        Some(choose|k: int| #[trigger] is_first_with_id(ts, id, k))
    } else {
        None
    }
}

/// Whether ticket `t` has the id `id`.
fn has_id(t: &TicketMetadata, id: &str) -> (r: bool)
    ensures
        r == ticket_has_id(*t, id@),
{
    match &t.id {
        Some(s) => crate::text::str_eq(s.as_str(), id),
        None => false,
    }
}

impl TicketRepository {
    /// Puts a re-read ticket into the list: in place of the ticket with its
    /// id, or, when the list has none, at the end, the list then being
    /// sorted by id.
    pub fn refresh_single_ticket(tickets: Vec<TicketMetadata>, ticket_id: &str, updated: TicketMetadata) -> (r:
        Vec<TicketMetadata>)
        ensures
            position_of_id(tickets@, ticket_id@) is Some ==> r@ == tickets@.update(
                position_of_id(tickets@, ticket_id@)->0,
                updated,
            ),
            position_of_id(tickets@, ticket_id@) is None ==> tickets_sorted(r@, false)
                && r@.to_multiset() == tickets@.push(updated).to_multiset(),
    {
        let ghost orig = tickets@;
        let mut list = tickets;
        let mut i: usize = 0;
        while i < list.len()
            invariant
                list@ == orig,
                orig == tickets@,
                i <= list@.len(),
                forall|j: int| 0 <= j < i ==> !ticket_has_id(#[trigger] list@[j], ticket_id@),
            decreases list@.len() - i,
        {
            if has_id(&list[i], ticket_id) {
                proof {
                    let k = i as int;
                    assert(is_first_with_id(orig, ticket_id@, k));
                    let ck = choose|k: int| #[trigger] is_first_with_id(orig, ticket_id@, k);
                    assert(is_first_with_id(orig, ticket_id@, ck));
                    if ck < k {
                        assert(!ticket_has_id(orig[ck], ticket_id@));
                    }
                    if ck > k {
                        assert(!ticket_has_id(orig[k], ticket_id@));
                    }
                    assert(position_of_id(orig, ticket_id@) == Some(k));
                }
                list.set(i, updated);
                assert(list@ == orig.update(i as int, updated));
                return list;
            }
            i = i + 1;
        }
        proof {
            assert forall|k: int| !is_first_with_id(orig, ticket_id@, k) by {
                if 0 <= k < orig.len() {
                    assert(!ticket_has_id(orig[k], ticket_id@));
                }
            }
            assert(position_of_id(orig, ticket_id@) is None);
        }
        list.push(updated);
        assert(list@ == orig.push(updated));
        sort_tickets(list, false)
    }
}

} // verus!
