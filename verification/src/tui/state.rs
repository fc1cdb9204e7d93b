//! Shared state of the ticket interfaces.
use vstd::prelude::*;

use crate::tui::analytics::{StatusCounts, TicketAnalytics, count_status, tickets_sorted, with_status};
use crate::tui::repository::TicketRepository;
use crate::types::{TicketMetadata, TicketStatus};

verus! {

/// The pane of the issue browser that has the focus.
#[derive(Debug, Clone, Copy, PartialEq, Eq, Default, Structural)]
pub enum Pane {
    #[default]
    Search,
    List,
    Detail,
}

/// The tickets an interface works on.
#[derive(Debug, Clone, Default)]
pub struct TuiState {
    pub repository: TicketRepository,
}

impl TuiState {
    /// All tickets.
    pub fn all_tickets(&self) -> (r: &[TicketMetadata])
        ensures
            r@ == self.repository.tickets@,
    {
        self.repository.tickets.as_slice()
    }

    /// The tickets with status `status`, in order.
    pub fn tickets_by_status(&self, status: TicketStatus) -> (r: Vec<&TicketMetadata>)
        ensures
            r@.map_values(|t: &TicketMetadata| *t) == with_status(
                self.repository.tickets@,
                status,
                self.repository.tickets@.len(),
            ),
    {
        TicketAnalytics::tickets_by_status(self.repository.tickets.as_slice(), status)
    }

    /// Number of tickets.
    pub fn ticket_count(&self) -> (r: usize)
        ensures
            r == self.repository.tickets@.len(),
    {
        TicketAnalytics::ticket_count(self.repository.tickets.as_slice())
    }

    /// Number of tickets with each status.
    pub fn status_counts(&self) -> (r: StatusCounts)
        ensures
            r.new == count_status(self.repository.tickets@, TicketStatus::New, self.repository.tickets@.len()),
            r.next == count_status(self.repository.tickets@, TicketStatus::Next, self.repository.tickets@.len()),
            r.in_progress == count_status(
                self.repository.tickets@,
                TicketStatus::InProgress,
                self.repository.tickets@.len(),
            ),
            r.complete == count_status(
                self.repository.tickets@,
                TicketStatus::Complete,
                self.repository.tickets@.len(),
            ),
            r.cancelled == count_status(
                self.repository.tickets@,
                TicketStatus::Cancelled,
                self.repository.tickets@.len(),
            ),
    {
        TicketAnalytics::status_counts(self.repository.tickets.as_slice())
    }

    /// Sorts the tickets by priority (most urgent first), then by id.
    pub fn sort_by_priority(&mut self)
        ensures
            tickets_sorted(final(self).repository.tickets@, true),
            final(self).repository.tickets@.to_multiset() == old(self).repository.tickets@.to_multiset(),
            final(self).repository.init_error == old(self).repository.init_error,
    {
        TicketAnalytics::sort_by_priority(&mut self.repository.tickets);
    }
}

} // verus!
