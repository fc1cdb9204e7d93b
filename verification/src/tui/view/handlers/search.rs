//! The search box of the issue browser: which keys leave it.
use vstd::prelude::*;

use crate::tui::keys::{has_control, KeyCode, KeyModifiers};
use crate::tui::state::Pane;

use super::HandleResult;
use super::context::ViewHandlerContext;

verus! {

/// What a key does in the search box.
#[derive(Debug, Clone, Copy, PartialEq, Eq, Structural)]
pub enum SearchAction {
    /// Clear the query and leave the box.
    ClearAndExit,
    /// Leave the box, keeping the query.
    Exit,
    /// Close the interface.
    Quit,
    /// The box takes the key as text or editing.
    Continue,
}

/// What `code` does in the search box: Esc clears and leaves; Enter (and
/// Tab, when `tab_exits`) leaves; Ctrl+q quits; anything else is typing.
pub open spec fn search_action_of(code: KeyCode, modifiers: KeyModifiers, tab_exits: bool) -> SearchAction {
    if code == KeyCode::Esc {
        SearchAction::ClearAndExit
    } else if code == KeyCode::Enter || (tab_exits && code == KeyCode::Tab) {
        SearchAction::Exit
    } else if code == KeyCode::Char('q') && has_control(modifiers) {
        SearchAction::Quit
    } else {
        SearchAction::Continue
    }
}

/// What `code` does in the search box (see `search_action_of`).
pub fn handle_search_input(code: KeyCode, modifiers: KeyModifiers, tab_exits: bool) -> (r: SearchAction)
    ensures
        r == search_action_of(code, modifiers, tab_exits),
{
    match code {
        KeyCode::Esc => SearchAction::ClearAndExit,
        KeyCode::Enter => SearchAction::Exit,
        KeyCode::Tab if tab_exits => SearchAction::Exit,
        KeyCode::Char('q') => {
            if modifiers.contains(KeyModifiers::CONTROL) {
                SearchAction::Quit
            } else {
                SearchAction::Continue
            }
        },
        _ => SearchAction::Continue,
    }
}

/// `n` is `c` after a key in the search box: leaving it focuses the list
/// (clearing the query on Esc), Ctrl+q closes the browser, typing changes
/// nothing here.
pub open spec fn searched(c: ViewHandlerContext, n: ViewHandlerContext, code: KeyCode, modifiers: KeyModifiers) -> bool {
    match search_action_of(code, modifiers, true) {
        SearchAction::ClearAndExit => n == ViewHandlerContext {
            search_query: n.search_query,
            active_pane: Pane::List,
            ..c
        } && n.search_query@.len() == 0,
        SearchAction::Exit => n == ViewHandlerContext { active_pane: Pane::List, ..c },
        SearchAction::Quit => n == ViewHandlerContext { should_exit: true, ..c },
        SearchAction::Continue => n == c,
    }
}

/// Handles a key in the search box; every key is taken.
pub fn handle(ctx: &mut ViewHandlerContext, code: KeyCode, modifiers: KeyModifiers) -> (r: HandleResult)
    ensures
        r == HandleResult::Handled,
        searched(*old(ctx), *final(ctx), code, modifiers),
{
    match handle_search_input(code, modifiers, true) {
        SearchAction::ClearAndExit => {
            ctx.search_query = String::new();
            ctx.active_pane = Pane::List;
        },
        SearchAction::Exit => {
            ctx.active_pane = Pane::List;
        },
        SearchAction::Quit => {
            ctx.should_exit = true;
        },
        SearchAction::Continue => {},
    }
    HandleResult::Handled
}

} // verus!
