//! Triage mode: the keys that open the note and cancel dialogs.
use vstd::prelude::*;

use crate::tui::components::{NoteModalData, TicketModalData};
use crate::tui::keys::{KeyCode, KeyModifiers};
use crate::tui::search::{text_or_empty, FilteredTicket};
use crate::types::opt_text;

verus! {

/// The id of the ticket at row `i` of `tickets`, if there is one and it
/// has an id.
pub open spec fn id_at(tickets: Seq<FilteredTicket>, i: usize) -> Option<Seq<char>> {
    if i < tickets.len() {
        opt_text(tickets[i as int].ticket.id)
    } else {
        None
    }
}

/// Opens the note dialog (n) or the cancel confirmation (c) for the
/// ticket at `selected_index`, in triage mode and with no modifier held;
/// returns whether the key was taken. The key is taken even when no ticket
/// with an id is selected, and then no dialog opens.
pub fn handle_triage_modal_triggers(
    code: KeyCode,
    modifiers: KeyModifiers,
    is_triage_mode: bool,
    selected_index: usize,
    filtered_tickets: &[FilteredTicket],
    note_modal: &mut Option<NoteModalData>,
    cancel_confirm_modal: &mut Option<TicketModalData>,
) -> (r: bool)
    ensures
        r == (is_triage_mode && modifiers == KeyModifiers::NONE && (code == KeyCode::Char('n') || code
            == KeyCode::Char('c'))),
        r && code == KeyCode::Char('n') && id_at(filtered_tickets@, selected_index) is Some ==> (
        *final(note_modal) matches Some(d) && Some(d.ticket_id@) == id_at(filtered_tickets@, selected_index)
            && d.text@.len() == 0),
        !(r && code == KeyCode::Char('n') && id_at(filtered_tickets@, selected_index) is Some)
            ==> *final(note_modal) == *old(note_modal),
        r && code == KeyCode::Char('c') && id_at(filtered_tickets@, selected_index) is Some ==> (
        *final(cancel_confirm_modal) matches Some(d) && Some(d.ticket_id@) == id_at(
            filtered_tickets@,
            selected_index,
        ) && d.title@ == text_or_empty(filtered_tickets@[selected_index as int].ticket.title)),
        !(r && code == KeyCode::Char('c') && id_at(filtered_tickets@, selected_index) is Some)
            ==> *final(cancel_confirm_modal) == *old(cancel_confirm_modal),
{
    if !is_triage_mode {
        return false;
    }
    if modifiers != KeyModifiers::NONE {
        return false;
    }
    match code {
        KeyCode::Char('n') => {
            if selected_index < filtered_tickets.len() {
                if let Some(id) = &filtered_tickets[selected_index].ticket.id {
                    *note_modal = Some(NoteModalData::new(id.clone()));
                }
            }
            true
        },
        KeyCode::Char('c') => {
            if selected_index < filtered_tickets.len() {
                let ft = &filtered_tickets[selected_index];
                if let Some(id) = &ft.ticket.id {
                    let title = match &ft.ticket.title {
                        Some(t) => t.clone(),
                        None => String::new(),
                    };
                    *cancel_confirm_modal = Some(TicketModalData::new(id.clone(), title));
                }
            }
            true
        },
        _ => false,
    }
}

} // verus!
