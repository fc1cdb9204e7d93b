//! What the key handlers of the issue browser read and change, and what
//! they ask the caller to do.
use vstd::prelude::*;

use crate::tui::search::FilteredTicket;
use crate::tui::state::Pane;
use crate::types::{TicketMetadata, opt_text};

use super::types::ViewAction;

verus! {

/// What the edit form shows.
#[derive(Debug)]
pub enum BrowserEdit {
    /// The form is closed.
    Closed,
    /// A new ticket is being written.
    Creating,
    /// This ticket is being edited, with this body.
    Editing { ticket: TicketMetadata, body: String },
}

/// The state of the issue browser as its key handlers see it.
#[derive(Debug)]
pub struct ViewHandlerContext {
    /// Text of the search box.
    pub search_query: String,
    /// Whether the browser should close.
    pub should_exit: bool,
    /// Whether the tickets should be loaded again.
    pub needs_reload: bool,
    /// The pane with the focus.
    pub active_pane: Pane,
    /// Whether triage mode is on.
    pub is_triage_mode: bool,
    /// The tickets listed, after searching.
    pub filtered_tickets: Vec<FilteredTicket>,
    /// Rows the list shows at once.
    pub list_height: usize,
    /// Selected row of the list.
    pub selected_index: usize,
    /// First row of the list shown.
    pub scroll_offset: usize,
    /// Scroll offset of the detail pane.
    pub detail_scroll_offset: usize,
    /// Largest scroll offset of the detail pane.
    pub max_detail_scroll: usize,
    /// The edit form.
    pub edit: BrowserEdit,
}

/// Something a key handler asks the caller to do.
#[derive(Debug)]
pub enum BrowserEffect {
    /// Run this operation on a ticket in the background.
    Queue(ViewAction),
    /// Read the body of this ticket's file and open it in the edit form.
    EditTicket(TicketMetadata),
    /// Copy this id to the clipboard.
    CopyId(String),
}

/// The id of the ticket at the selected row, if there is one and it has
/// an id.
pub open spec fn selected_id(c: ViewHandlerContext) -> Option<Seq<char>> {
    let i = c.selected_index as int;
    if 0 <= i < c.filtered_tickets@.len() {
        opt_text(c.filtered_tickets@[i].ticket.id)
    } else {
        None
    }
}

impl ViewHandlerContext {
    /// The id of the ticket at the selected row (see `selected_id`).
    pub fn selected_ticket_id(&self) -> (r: Option<String>)
        ensures
            match r {
                Some(id) => selected_id(*self) == Some(id@),
                None => selected_id(*self) is None,
            },
    {
        let i = self.selected_index;
        if i < self.filtered_tickets.len() {
            match &self.filtered_tickets[i].ticket.id {
                Some(id) => Some(id.clone()),
                None => None,
            }
        } else {
            None
        }
    }
}

} // verus!
