//! Key handling of the issue browser.
use vstd::prelude::*;

pub mod types;
pub mod context;
pub mod navigation;
pub mod search;
pub mod list;
pub mod triage;

use crate::tui::keys::{KeyCode, KeyModifiers};
use crate::tui::state::Pane;

use self::context::{BrowserEffect, ViewHandlerContext};
use self::list::pane_handled;
use self::navigation::{list_key, view_navigated};
use self::search::searched;

verus! {

/// Whether a handler took an event.
#[derive(Debug, Clone, Copy, PartialEq, Eq, Default, Structural)]
pub enum HandleResult {
    /// Taken: stop.
    Handled,
    /// Not taken: try the next handler.
    #[default]
    NotHandled,
}

impl HandleResult {
    /// Whether the event was taken.
    pub fn is_handled(self) -> (r: bool)
        ensures
            r == (self == HandleResult::Handled),
    {
        match self {
            HandleResult::Handled => true,
            HandleResult::NotHandled => false,
        }
    }
}

/// `n` and `r` are what a key comes to from `c`: Ctrl+T is left to the
/// browser; in the search box the search keys apply; in the list and detail
/// panes navigation keys move or scroll, and the pane's keys apply to the
/// rest.
pub open spec fn key_handled(
    c: ViewHandlerContext,
    n: ViewHandlerContext,
    code: KeyCode,
    modifiers: KeyModifiers,
    r: Option<BrowserEffect>,
) -> bool {
    if code == KeyCode::Char('T') && modifiers == KeyModifiers::CONTROL {
        n == c && r is None
    } else if c.active_pane == Pane::Search {
        r is None && searched(c, n, code, modifiers)
    } else {
        match list_key(code) {
            Some(k) => r is None && view_navigated(c, n, k),
            None => exists|res: HandleResult| #[trigger] pane_handled(c, n, code, modifiers, res, r),
        }
    }
}

/// Handles a key of the issue browser (see `key_handled`); returns what the
/// caller should do, if anything.
pub fn handle_key_event(ctx: &mut ViewHandlerContext, code: KeyCode, modifiers: KeyModifiers) -> (r:
    Option<BrowserEffect>)
    ensures
        key_handled(*old(ctx), *final(ctx), code, modifiers, r),
{
    if code == KeyCode::Char('T') && modifiers == KeyModifiers::CONTROL {
        return None;
    }
    if ctx.active_pane == Pane::Search {
        search::handle(ctx, code, modifiers);
        return None;
    }
    if navigation::handle(ctx, code).is_handled() {
        return None;
    }
    let (res, effect) = list::handle_pane(ctx, code, modifiers);
    assert(pane_handled(*old(ctx), *ctx, code, modifiers, res, effect));
    effect
}

} // verus!
