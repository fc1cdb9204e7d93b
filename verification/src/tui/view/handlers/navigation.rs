//! Moving through the ticket list and scrolling the detail pane of the
//! issue browser.
use vstd::prelude::*;

use crate::tui::keys::KeyCode;
use crate::tui::navigation::{page_down, page_up, scroll_down, scroll_to_bottom, scrolled};
use crate::tui::state::Pane;

use super::HandleResult;
use super::context::ViewHandlerContext;

verus! {

/// Rows of the list that show tickets when `list_height` rows are shown
/// from `scroll_offset` among `total_count`: a row goes to the "more above"
/// line when scrolled down, and one to the "more below" line when tickets
/// remain below; at least one row is left. An empty list or window keeps
/// all rows.
pub open spec fn visible_rows(scroll_offset: usize, list_height: usize, total_count: usize) -> usize {
    if total_count == 0 || list_height == 0 {
        list_height
    } else {
        let a = if scroll_offset > 0 {
            (list_height - 1) as usize
        } else {
            list_height
        };
        let b = if scroll_offset + a < total_count && a > 0 {
            (a - 1) as usize
        } else {
            a
        };
        if b == 0 {
            1
        } else {
            b
        }
    }
}

/// Rows that show tickets (see `visible_rows`).
pub fn effective_visible_height(scroll_offset: usize, list_height: usize, total_count: usize) -> (r: usize)
    ensures
        r == visible_rows(scroll_offset, list_height, total_count),
        total_count > 0 && list_height > 0 ==> 1 <= r <= list_height,
{
    if total_count == 0 || list_height == 0 {
        return list_height;
    }
    let mut effective = list_height;
    if scroll_offset > 0 {
        effective = effective - 1;
    }
    if scroll_offset < total_count && effective < total_count - scroll_offset && effective > 0 {
        effective = effective - 1;
    }
    if effective == 0 {
        1
    } else {
        effective
    }
}

/// A list-navigation key: j/Down, k/Up, g, G, PageDown, PageUp.
#[derive(Debug, Clone, Copy, PartialEq, Eq, Structural)]
pub enum ListKey {
    Down,
    Up,
    Top,
    Bottom,
    PageDown,
    PageUp,
}

/// The navigation key `code` is, if any.
pub open spec fn list_key(code: KeyCode) -> Option<ListKey> {
    if code == KeyCode::Char('j') || code == KeyCode::Down {
        Some(ListKey::Down)
    } else if code == KeyCode::Char('k') || code == KeyCode::Up {
        Some(ListKey::Up)
    } else if code == KeyCode::Char('g') {
        Some(ListKey::Top)
    } else if code == KeyCode::Char('G') {
        Some(ListKey::Bottom)
    } else if code == KeyCode::PageDown {
        Some(ListKey::PageDown)
    } else if code == KeyCode::PageUp {
        Some(ListKey::PageUp)
    } else {
        None
    }
}

/// Lines the detail pane moves by a page: the list height less 10, at
/// least 1.
pub open spec fn detail_page(list_height: usize) -> usize {
    if list_height > 11 {
        (list_height - 10) as usize
    } else {
        1
    }
}

/// The detail offset after the key `k` from `offset`, bounded by `max`.
pub open spec fn detail_offset_after(k: ListKey, offset: usize, max: usize, list_height: usize) -> usize {
    match k {
        ListKey::Down => if offset < max {
            (offset + 1) as usize
        } else {
            max
        },
        ListKey::Up => if offset > 0 {
            (offset - 1) as usize
        } else {
            0
        },
        ListKey::Top => 0,
        ListKey::Bottom => max,
        ListKey::PageDown => if offset + detail_page(list_height) < max {
            (offset + detail_page(list_height)) as usize
        } else {
            max
        },
        ListKey::PageUp => if offset >= detail_page(list_height) {
            (offset - detail_page(list_height)) as usize
        } else {
            0
        },
    }
}

/// The (selected row, first row shown) after the key `k` in a list of
/// `count` tickets with `rows` rows showing tickets.
pub open spec fn list_after(k: ListKey, sel: usize, scroll: usize, count: usize, rows: usize) -> (usize, usize) {
    match k {
        ListKey::Down => if count == 0 {
            (sel, scroll)
        } else {
            let n = if sel + 1 < count {
                (sel + 1) as usize
            } else {
                (count - 1) as usize
            };
            (n, scrolled(scroll, n, rows))
        },
        ListKey::Up => {
            let n = if sel > 0 {
                (sel - 1) as usize
            } else {
                0
            };
            (n, if n < scroll {
                n
            } else {
                scroll
            })
        },
        ListKey::Top => (0, 0),
        ListKey::Bottom => if count == 0 {
            (sel, scroll)
        } else {
            ((count - 1) as usize, scrolled(scroll, (count - 1) as usize, rows))
        },
        ListKey::PageDown => if count == 0 {
            (sel, scroll)
        } else {
            let n = if sel + rows / 2 < count {
                (sel + rows / 2) as usize
            } else {
                (count - 1) as usize
            };
            (n, scrolled(scroll, n, rows))
        },
        ListKey::PageUp => {
            let n = if sel >= rows / 2 {
                (sel - rows / 2) as usize
            } else {
                0
            };
            (n, scrolled(scroll, n, rows))
        },
    }
}

/// `n` is `c` after the navigation key `k`: in the detail pane it scrolls
/// the pane; in the list it moves the selection (kept among the rows that
/// show tickets), and the detail pane goes back to its top when another
/// ticket is selected.
pub open spec fn view_navigated(c: ViewHandlerContext, n: ViewHandlerContext, k: ListKey) -> bool {
    if c.active_pane == Pane::Detail {
        n == ViewHandlerContext {
            detail_scroll_offset: detail_offset_after(
                k,
                c.detail_scroll_offset,
                c.max_detail_scroll,
                c.list_height,
            ),
            ..c
        }
    } else {
        let rows = visible_rows(c.scroll_offset, c.list_height, c.filtered_tickets@.len() as usize);
        let after = list_after(k, c.selected_index, c.scroll_offset, c.filtered_tickets@.len() as usize, rows);
        n == ViewHandlerContext {
            selected_index: after.0,
            scroll_offset: after.1,
            detail_scroll_offset: if after.0 != c.selected_index {
                0
            } else {
                c.detail_scroll_offset
            },
            ..c
        }
    }
}

/// Handles a navigation key (see `view_navigated`); other keys are not
/// handled.
pub fn handle(ctx: &mut ViewHandlerContext, code: KeyCode) -> (r: HandleResult)
    ensures
        match list_key(code) {
            Some(k) => r == HandleResult::Handled && view_navigated(*old(ctx), *final(ctx), k),
            None => r == HandleResult::NotHandled && *final(ctx) == *old(ctx),
        },
{
    let key = match code {
        KeyCode::Char('j') | KeyCode::Down => ListKey::Down,
        KeyCode::Char('k') | KeyCode::Up => ListKey::Up,
        KeyCode::Char('g') => ListKey::Top,
        KeyCode::Char('G') => ListKey::Bottom,
        KeyCode::PageDown => ListKey::PageDown,
        KeyCode::PageUp => ListKey::PageUp,
        _ => {
            return HandleResult::NotHandled;
        },
    };
    if ctx.active_pane == Pane::Detail {
        let off = ctx.detail_scroll_offset;
        let max = ctx.max_detail_scroll;
        let page = if ctx.list_height > 11 {
            ctx.list_height - 10
        } else {
            1
        };
        ctx.detail_scroll_offset = match key {
            ListKey::Down => if off < max {
                off + 1
            } else {
                max
            },
            ListKey::Up => off.saturating_sub(1),
            ListKey::Top => 0,
            ListKey::Bottom => max,
            ListKey::PageDown => if off < max && page < max - off {
                off + page
            } else {
                max
            },
            ListKey::PageUp => off.saturating_sub(page),
        };
        return HandleResult::Handled;
    }
    let count = ctx.filtered_tickets.len();
    let rows = effective_visible_height(ctx.scroll_offset, ctx.list_height, count);
    let old_index = ctx.selected_index;
    match key {
        ListKey::Down => scroll_down(&mut ctx.selected_index, &mut ctx.scroll_offset, count, rows),
        ListKey::Up => {
            let n = if ctx.selected_index > 0 {
                ctx.selected_index - 1
            } else {
                0
            };
            ctx.selected_index = n;
            if n < ctx.scroll_offset {
                ctx.scroll_offset = n;
            }
        },
        ListKey::Top => {
            ctx.selected_index = 0;
            ctx.scroll_offset = 0;
        },
        ListKey::Bottom => scroll_to_bottom(&mut ctx.selected_index, &mut ctx.scroll_offset, count, rows),
        ListKey::PageDown => page_down(&mut ctx.selected_index, &mut ctx.scroll_offset, count, rows),
        ListKey::PageUp => page_up(&mut ctx.selected_index, &mut ctx.scroll_offset, rows),
    }
    if ctx.selected_index != old_index {
        ctx.detail_scroll_offset = 0;
    }
    HandleResult::Handled
}

} // verus!
