//! Keys of the list and detail panes of the issue browser: switching
//! panes, quitting, and the operations on the selected ticket.
use vstd::prelude::*;

use crate::tui::keys::{has_control, KeyCode, KeyModifiers};
use crate::tui::state::Pane;
use crate::types::same_ticket;

use super::HandleResult;
use super::context::{selected_id, BrowserEdit, BrowserEffect, ViewHandlerContext};
use super::types::ViewAction;

verus! {

/// `r` asks to run an operation on the selected ticket (`kind` 0: cycle
/// its status, 1: mark it as triaged), or nothing when no ticket with an
/// id is selected.
pub open spec fn queues_for_selected(c: ViewHandlerContext, r: Option<BrowserEffect>, kind: u8) -> bool {
    match selected_id(c) {
        None => r is None,
        Some(id) => match r {
            Some(BrowserEffect::Queue(a)) => match a {
                ViewAction::CycleStatus { id: x } => kind == 0 && x@ == id,
                ViewAction::MarkTriaged { id: x, triaged } => kind == 1 && x@ == id && triaged,
                _ => false,
            },
            _ => false,
        },
    }
}

/// `n`, `res` and `r` are what `code` comes to in the list or detail pane
/// from `c`. Ctrl+q and Esc close the browser; / focuses the search box;
/// Tab moves the focus to `tab_to`. In triage mode t marks the
/// selected ticket as triaged; otherwise s cycles its status, e or Enter
/// opens it in the edit form, n starts a new ticket and y copies its id.
/// Other keys are not handled.
pub open spec fn pane_keys_handled(
    c: ViewHandlerContext,
    n: ViewHandlerContext,
    code: KeyCode,
    modifiers: KeyModifiers,
    tab_to: Pane,
    res: HandleResult,
    r: Option<BrowserEffect>,
) -> bool {
    if (code == KeyCode::Char('q') && has_control(modifiers)) || code == KeyCode::Esc {
        res == HandleResult::Handled && r is None && n == ViewHandlerContext { should_exit: true, ..c }
    } else if code == KeyCode::Char('/') {
        res == HandleResult::Handled && r is None && n == ViewHandlerContext { active_pane: Pane::Search, ..c }
    } else if code == KeyCode::Tab {
        res == HandleResult::Handled && r is None && n == ViewHandlerContext { active_pane: tab_to, ..c }
    } else if c.is_triage_mode {
        if code == KeyCode::Char('t') {
            res == HandleResult::Handled && n == c && queues_for_selected(c, r, 1)
        } else {
            res == HandleResult::NotHandled && r is None && n == c
        }
    } else if code == KeyCode::Char('s') {
        res == HandleResult::Handled && n == c && queues_for_selected(c, r, 0)
    } else if code == KeyCode::Char('e') || code == KeyCode::Enter {
        &&& res == HandleResult::Handled
        &&& n == c
        &&& if c.selected_index < c.filtered_tickets@.len() {
            r matches Some(BrowserEffect::EditTicket(t)) && same_ticket(
                t,
                *c.filtered_tickets@[c.selected_index as int].ticket,
            )
        } else {
            r is None
        }
    } else if code == KeyCode::Char('n') {
        res == HandleResult::Handled && r is None && n == ViewHandlerContext { edit: BrowserEdit::Creating, ..c }
    } else if code == KeyCode::Char('y') {
        &&& res == HandleResult::Handled
        &&& n == c
        &&& match selected_id(c) {
            Some(id) => r matches Some(BrowserEffect::CopyId(x)) && x@ == id,
            None => r is None,
        }
    } else {
        res == HandleResult::NotHandled && r is None && n == c
    }
}

/// A key in the pane with the focus (see `pane_keys_handled`): Tab moves
/// from the list to the detail pane and back.
pub open spec fn pane_handled(
    c: ViewHandlerContext,
    n: ViewHandlerContext,
    code: KeyCode,
    modifiers: KeyModifiers,
    res: HandleResult,
    r: Option<BrowserEffect>,
) -> bool {
    pane_keys_handled(
        c,
        n,
        code,
        modifiers,
        if c.active_pane == Pane::List {
            Pane::Detail
        } else {
            Pane::List
        },
        res,
        r,
    )
}

/// Handles a key of the list or detail pane, Tab moving to `tab_to` (see
/// `pane_keys_handled`).
fn pane_keys(ctx: &mut ViewHandlerContext, code: KeyCode, modifiers: KeyModifiers, tab_to: Pane) -> (r: (
    HandleResult,
    Option<BrowserEffect>,
))
    ensures
        pane_keys_handled(*old(ctx), *final(ctx), code, modifiers, tab_to, r.0, r.1),
{
    let quit = match code {
        KeyCode::Char('q') => modifiers.contains(KeyModifiers::CONTROL),
        KeyCode::Esc => true,
        _ => false,
    };
    if quit {
        ctx.should_exit = true;
        return (HandleResult::Handled, None);
    }
    match code {
        KeyCode::Char('/') => {
            ctx.active_pane = Pane::Search;
            return (HandleResult::Handled, None);
        },
        KeyCode::Tab => {
            ctx.active_pane = tab_to;
            return (HandleResult::Handled, None);
        },
        _ => {},
    }
    if ctx.is_triage_mode {
        if code == KeyCode::Char('t') {
            let effect = match ctx.selected_ticket_id() {
                Some(id) => Some(BrowserEffect::Queue(ViewAction::MarkTriaged { id, triaged: true })),
                None => None,
            };
            return (HandleResult::Handled, effect);
        }
        return (HandleResult::NotHandled, None);
    }
    match code {
        KeyCode::Char('s') => {
            let effect = match ctx.selected_ticket_id() {
                Some(id) => Some(BrowserEffect::Queue(ViewAction::CycleStatus { id })),
                None => None,
            };
            (HandleResult::Handled, effect)
        },
        KeyCode::Char('e') | KeyCode::Enter => {
            let i = ctx.selected_index;
            if i < ctx.filtered_tickets.len() {
                let t = (*ctx.filtered_tickets[i].ticket).clone();
                (HandleResult::Handled, Some(BrowserEffect::EditTicket(t)))
            } else {
                (HandleResult::Handled, None)
            }
        },
        KeyCode::Char('n') => {
            ctx.edit = BrowserEdit::Creating;
            (HandleResult::Handled, None)
        },
        KeyCode::Char('y') => {
            let effect = match ctx.selected_ticket_id() {
                Some(id) => Some(BrowserEffect::CopyId(id)),
                None => None,
            };
            (HandleResult::Handled, effect)
        },
        _ => (HandleResult::NotHandled, None),
    }
}

/// Handles a key of the list pane: Tab moves to the detail pane (see
/// `pane_keys_handled`).
pub fn handle_list(ctx: &mut ViewHandlerContext, code: KeyCode, modifiers: KeyModifiers) -> (r: (
    HandleResult,
    Option<BrowserEffect>,
))
    ensures
        pane_keys_handled(*old(ctx), *final(ctx), code, modifiers, Pane::Detail, r.0, r.1),
{
    pane_keys(ctx, code, modifiers, Pane::Detail)
}

/// Handles a key of the detail pane: Tab moves to the list pane (see
/// `pane_keys_handled`).
pub fn handle_detail(ctx: &mut ViewHandlerContext, code: KeyCode, modifiers: KeyModifiers) -> (r: (
    HandleResult,
    Option<BrowserEffect>,
))
    ensures
        pane_keys_handled(*old(ctx), *final(ctx), code, modifiers, Pane::List, r.0, r.1),
{
    pane_keys(ctx, code, modifiers, Pane::List)
}

/// Handles a key in the pane with the focus (see `pane_handled`).
pub fn handle_pane(ctx: &mut ViewHandlerContext, code: KeyCode, modifiers: KeyModifiers) -> (r: (
    HandleResult,
    Option<BrowserEffect>,
))
    ensures
        pane_handled(*old(ctx), *final(ctx), code, modifiers, r.0, r.1),
{
    if ctx.active_pane == Pane::List {
        handle_list(ctx, code, modifiers)
    } else {
        handle_detail(ctx, code, modifiers)
    }
}

} // verus!
