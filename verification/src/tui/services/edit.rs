//! The ticket edit service: whether the form creates or updates a ticket.
use vstd::prelude::*;

verus! {

/// Service behind the ticket edit form.
pub struct TicketEditService;

impl TicketEditService {
    /// Whether the form creates a new ticket, that is has no ticket id.
    pub fn is_new_ticket(ticket_id: Option<&str>) -> (r: bool)
        ensures
            r <==> ticket_id is None,
    {
        ticket_id.is_none()
    }
}

} // verus!
