//! Moving through the lists and the detail pane of the remote interface.
use vstd::prelude::*;

use crate::text::{count_lines, line_count_of};
use crate::tui::keys::KeyCode;
use crate::tui::navigation::{page_down, page_up, scroll_down, scroll_to_bottom, scroll_to_top, scroll_up, scrolled};
use crate::tui::remote::state::{DetailScrollData, NavigationData, ViewMode};
use crate::tui::view::handlers::HandleResult;

use super::context::{count_of, item_id_at, nav_of, with_nav, HandlerContext};

verus! {

/// Lines of the detail pane shown at once when scrolling it.
pub const DETAIL_VISIBLE_LINES: usize = 10;

/// A navigation key.
#[derive(Debug, Clone, Copy, PartialEq, Eq, Structural)]
pub enum NavKey {
    Down,
    Up,
    Top,
    Bottom,
}

/// The navigation key `code` is, if any: j, J or Down; k, K or Up; g; G.
pub open spec fn nav_key(code: KeyCode) -> Option<NavKey> {
    if code == KeyCode::Char('j') || code == KeyCode::Char('J') || code == KeyCode::Down {
        Some(NavKey::Down)
    } else if code == KeyCode::Char('k') || code == KeyCode::Char('K') || code == KeyCode::Up {
        Some(NavKey::Up)
    } else if code == KeyCode::Char('g') {
        Some(NavKey::Top)
    } else if code == KeyCode::Char('G') {
        Some(NavKey::Bottom)
    } else {
        None
    }
}

/// The row below `i` in a list of `count` rows, staying on the last.
pub open spec fn row_below(i: usize, count: usize) -> usize {
    if i + 1 < count {
        (i + 1) as usize
    } else {
        (count - 1) as usize
    }
}

/// The row above `i`, staying on the first.
pub open spec fn row_above(i: usize) -> usize {
    if i > 0 {
        (i - 1) as usize
    } else {
        0
    }
}

/// `ids` with `id` added, if there is one.
pub open spec fn marked(ids: Set<Seq<char>>, id: Option<Seq<char>>) -> Set<Seq<char>> {
    match id {
        Some(x) => ids.insert(x),
        None => ids,
    }
}

/// The detail offset after scrolling one line down through a body of
/// `lines` lines shown `DETAIL_VISIBLE_LINES` at a time.
pub open spec fn detail_down(offset: usize, lines: nat) -> usize {
    if offset + DETAIL_VISIBLE_LINES < lines {
        (offset + 1) as usize
    } else {
        offset
    }
}

/// The detail offset that shows the end of a body of `lines` lines.
pub open spec fn detail_bottom(lines: nat) -> usize {
    if lines > DETAIL_VISIBLE_LINES {
        (lines - DETAIL_VISIBLE_LINES) as usize
    } else {
        0
    }
}

/// Lines of the body shown in the detail pane for the active list: the
/// selected local ticket's (where it could be read) or the selected remote
/// issue's.
pub open spec fn detail_lines(c: HandlerContext) -> Option<nat> {
    if c.display.active_view == ViewMode::Local {
        match c.local_body_lines {
            Some(n) => Some(n as nat),
            None => None,
        }
    } else if c.remote_nav.selected_index < c.remote_issues@.len() {
        Some(line_count_of(c.remote_issues@[c.remote_nav.selected_index as int].body@))
    } else {
        None
    }
}

/// `c` with the detail offset of the active list set to `offset`.
pub open spec fn with_detail_offset(c: HandlerContext, offset: usize) -> HandlerContext {
    if c.display.active_view == ViewMode::Local {
        HandlerContext { detail_scroll: DetailScrollData { local_offset: offset, ..c.detail_scroll }, ..c }
    } else {
        HandlerContext { detail_scroll: DetailScrollData { remote_offset: offset, ..c.detail_scroll }, ..c }
    }
}

/// The detail offset of the active list.
pub open spec fn detail_offset(c: HandlerContext) -> usize {
    if c.display.active_view == ViewMode::Local {
        c.detail_scroll.local_offset
    } else {
        c.detail_scroll.remote_offset
    }
}

/// `n` is `c`'s navigation of `view` after moving down: an empty list
/// selects row 0; otherwise the row below is selected and kept in view,
/// and with shift held the rows left and reached are both marked.
pub open spec fn moved_down(c: HandlerContext, view: ViewMode, shift: bool, n: NavigationData) -> bool {
    let nav = nav_of(c, view);
    let count = count_of(c, view);
    if count == 0 {
        n.selected_index == 0 && n.scroll_offset == nav.scroll_offset && n.selected_ids@
            == nav.selected_ids@
    } else {
        let next = row_below(nav.selected_index, count);
        &&& n.selected_index == next
        &&& n.scroll_offset == scrolled(nav.scroll_offset, next, c.list_height)
        &&& n.selected_ids@ == if shift {
            marked(
                marked(nav.selected_ids@, item_id_at(c, view, nav.selected_index as int)),
                item_id_at(c, view, next as int),
            )
        } else {
            nav.selected_ids@
        }
    }
}

/// `n` is `c`'s navigation of `view` after moving up: the row above is
/// selected and kept in view, and with shift held the rows left and
/// reached are both marked.
pub open spec fn moved_up(c: HandlerContext, view: ViewMode, shift: bool, n: NavigationData) -> bool {
    let nav = nav_of(c, view);
    let next = row_above(nav.selected_index);
    &&& n.selected_index == next
    &&& n.scroll_offset == scrolled(nav.scroll_offset, next, c.list_height)
    &&& n.selected_ids@ == if shift {
        marked(
            marked(nav.selected_ids@, item_id_at(c, view, nav.selected_index as int)),
            item_id_at(c, view, next as int),
        )
    } else {
        nav.selected_ids@
    }
}

/// `n` is the context after a navigation key `k` with `c` before it. With
/// the detail pane focused the key scrolls the pane (only while it is
/// shown; g goes to the top of both panes); otherwise it moves through the
/// active list.
pub open spec fn navigated(c: HandlerContext, n: HandlerContext, k: NavKey, shift: bool) -> bool {
    let view = c.display.active_view;
    if c.display.detail_pane_focused {
        match k {
            NavKey::Down => if !c.display.show_detail {
                n == c
            } else {
                match detail_lines(c) {
                    Some(lines) => n == with_detail_offset(c, detail_down(detail_offset(c), lines)),
                    None => n == c,
                }
            },
            NavKey::Up => if !c.display.show_detail {
                n == c
            } else {
                n == with_detail_offset(
                    c,
                    if detail_offset(c) > 0 {
                        (detail_offset(c) - 1) as usize
                    } else {
                        0
                    },
                )
            },
            NavKey::Top => n == HandlerContext {
                detail_scroll: DetailScrollData { local_offset: 0, remote_offset: 0 },
                ..c
            },
            NavKey::Bottom => if !c.display.show_detail {
                n == c
            } else {
                match detail_lines(c) {
                    Some(lines) => n == with_detail_offset(c, detail_bottom(lines)),
                    None => n == c,
                }
            },
        }
    } else {
        &&& n == with_nav(c, view, nav_of(n, view))
        &&& match k {
            NavKey::Down => moved_down(c, view, shift, nav_of(n, view)),
            NavKey::Up => moved_up(c, view, shift, nav_of(n, view)),
            NavKey::Top => nav_of(n, view).selected_index == 0 && nav_of(n, view).scroll_offset == 0
                && nav_of(n, view).selected_ids == nav_of(c, view).selected_ids,
            NavKey::Bottom => {
                let count = count_of(c, view);
                let nav = nav_of(c, view);
                &&& nav_of(n, view).selected_ids == nav.selected_ids
                &&& count == 0 ==> nav_of(n, view).selected_index == nav.selected_index
                    && nav_of(n, view).scroll_offset == nav.scroll_offset
                &&& count > 0 ==> nav_of(n, view).selected_index == count - 1
                    && nav_of(n, view).scroll_offset == scrolled(
                    nav.scroll_offset,
                    (count - 1) as usize,
                    c.list_height,
                )
            },
        }
    }
}

/// The view of an optional id.
pub open spec fn id_view(o: Option<String>) -> Option<Seq<char>> {
    match o {
        Some(x) => Some(x@),
        None => None,
    }
}

/// Moves `nav` one row down in a list of `count` rows shown `height` at a
/// time, marking `first` and `second` (the rows left and reached).
fn nav_down(
    nav: &mut NavigationData,
    count: usize,
    height: usize,
    first: Option<String>,
    second: Option<String>,
)
    ensures
        count == 0 ==> final(nav).selected_index == 0 && final(nav).scroll_offset
            == old(nav).scroll_offset && final(nav).selected_ids@ == old(nav).selected_ids@,
        count > 0 ==> final(nav).selected_index == row_below(old(nav).selected_index, count)
            && final(nav).scroll_offset == scrolled(
            old(nav).scroll_offset,
            final(nav).selected_index,
            height,
        ) && final(nav).selected_ids@ == marked(marked(old(nav).selected_ids@, id_view(first)), id_view(second)),
{
    if count == 0 {
        nav.selected_index = 0;
        return ;
    }
    if let Some(id) = first {
        nav.selected_ids.insert(id);
    }
    scroll_down(&mut nav.selected_index, &mut nav.scroll_offset, count, height);
    if let Some(id) = second {
        nav.selected_ids.insert(id);
    }
}

/// Moves `nav` one row up, marking `first` and `second` (the rows left and
/// reached).
fn nav_up(nav: &mut NavigationData, height: usize, first: Option<String>, second: Option<String>)
    ensures
        final(nav).selected_index == row_above(old(nav).selected_index),
        final(nav).scroll_offset == scrolled(
            old(nav).scroll_offset,
            final(nav).selected_index,
            height,
        ),
        final(nav).selected_ids@ == marked(marked(old(nav).selected_ids@, id_view(first)), id_view(second)),
{
    if let Some(id) = first {
        nav.selected_ids.insert(id);
    }
    scroll_up(&mut nav.selected_index, &mut nav.scroll_offset, height);
    if let Some(id) = second {
        nav.selected_ids.insert(id);
    }
}

/// Handles a navigation key: j/J/Down, k/K/Up, g and G (see `navigated`);
/// `shift` marks the rows passed. Other keys are not handled.
pub fn handle(ctx: &mut HandlerContext, code: KeyCode, shift: bool) -> (r: HandleResult)
    ensures
        match nav_key(code) {
            Some(k) => r == HandleResult::Handled && navigated(*old(ctx), *final(ctx), k, shift),
            None => r == HandleResult::NotHandled && *final(ctx) == *old(ctx),
        },
{
    let key = match code {
        KeyCode::Char('j') | KeyCode::Char('J') | KeyCode::Down => NavKey::Down,
        KeyCode::Char('k') | KeyCode::Char('K') | KeyCode::Up => NavKey::Up,
        KeyCode::Char('g') => NavKey::Top,
        KeyCode::Char('G') => NavKey::Bottom,
        _ => {
            return HandleResult::NotHandled;
        },
    };
    let view = ctx.display.active_view;
    if ctx.display.detail_pane_focused {
        match key {
            NavKey::Down => {
                if ctx.display.show_detail {
                    if let Some(lines) = detail_line_count(ctx) {
                        let off = match view {
                            ViewMode::Local => ctx.detail_scroll.local_offset,
                            ViewMode::Remote => ctx.detail_scroll.remote_offset,
                        };
                        let next = if off < lines && lines - off > DETAIL_VISIBLE_LINES {
                            off + 1
                        } else {
                            off
                        };
                        match view {
                            ViewMode::Local => {
                                ctx.detail_scroll.local_offset = next;
                            },
                            ViewMode::Remote => {
                                ctx.detail_scroll.remote_offset = next;
                            },
                        }
                    }
                }
            },
            NavKey::Up => {
                if ctx.display.show_detail {
                    match view {
                        ViewMode::Local => {
                            ctx.detail_scroll.local_offset = ctx.detail_scroll.local_offset.saturating_sub(1);
                        },
                        ViewMode::Remote => {
                            ctx.detail_scroll.remote_offset = ctx.detail_scroll.remote_offset.saturating_sub(1);
                        },
                    }
                }
            },
            NavKey::Top => {
                ctx.detail_scroll.local_offset = 0;
                ctx.detail_scroll.remote_offset = 0;
            },
            NavKey::Bottom => {
                if ctx.display.show_detail {
                    if let Some(lines) = detail_line_count(ctx) {
                        let off = lines.saturating_sub(DETAIL_VISIBLE_LINES);
                        match view {
                            ViewMode::Local => {
                                ctx.detail_scroll.local_offset = off;
                            },
                            ViewMode::Remote => {
                                ctx.detail_scroll.remote_offset = off;
                            },
                        }
                    }
                }
            },
        }
        return HandleResult::Handled;
    }
    let height = ctx.list_height;
    match key {
        NavKey::Down => {
            let count = match view {
                ViewMode::Local => ctx.local_count,
                ViewMode::Remote => ctx.remote_count,
            };
            let cur = match view {
                ViewMode::Local => ctx.local_nav.selected_index,
                ViewMode::Remote => ctx.remote_nav.selected_index,
            };
            let (first, second) = if shift && count > 0 {
                let next = if cur < count - 1 {
                    cur + 1
                } else {
                    count - 1
                };
                (ctx.item_id_at(view, cur), ctx.item_id_at(view, next))
            } else {
                (None, None)
            };
            match view {
                ViewMode::Local => nav_down(&mut ctx.local_nav, count, height, first, second),
                ViewMode::Remote => nav_down(&mut ctx.remote_nav, count, height, first, second),
            }
        },
        NavKey::Up => {
            let cur = match view {
                ViewMode::Local => ctx.local_nav.selected_index,
                ViewMode::Remote => ctx.remote_nav.selected_index,
            };
            let (first, second) = if shift {
                let next = if cur > 0 {
                    cur - 1
                } else {
                    0
                };
                (ctx.item_id_at(view, cur), ctx.item_id_at(view, next))
            } else {
                (None, None)
            };
            match view {
                ViewMode::Local => nav_up(&mut ctx.local_nav, height, first, second),
                ViewMode::Remote => nav_up(&mut ctx.remote_nav, height, first, second),
            }
        },
        NavKey::Top => match view {
            ViewMode::Local => scroll_to_top(
                &mut ctx.local_nav.selected_index,
                &mut ctx.local_nav.scroll_offset,
            ),
            ViewMode::Remote => scroll_to_top(
                &mut ctx.remote_nav.selected_index,
                &mut ctx.remote_nav.scroll_offset,
            ),
        },
        NavKey::Bottom => match view {
            ViewMode::Local => scroll_to_bottom(
                &mut ctx.local_nav.selected_index,
                &mut ctx.local_nav.scroll_offset,
                ctx.local_count,
                height,
            ),
            ViewMode::Remote => scroll_to_bottom(
                &mut ctx.remote_nav.selected_index,
                &mut ctx.remote_nav.scroll_offset,
                ctx.remote_count,
                height,
            ),
        },
    }
    HandleResult::Handled
}

/// Lines of the body shown in the detail pane (see `detail_lines`).
fn detail_line_count(ctx: &HandlerContext) -> (r: Option<usize>)
    ensures
        match r {
            Some(n) => detail_lines(*ctx) == Some(n as nat),
            None => detail_lines(*ctx) is None,
        },
{
    match ctx.display.active_view {
        ViewMode::Local => ctx.local_body_lines,
        ViewMode::Remote => {
            let i = ctx.remote_nav.selected_index;
            if i < ctx.remote_issues.len() {
                Some(count_lines(ctx.remote_issues[i].body.as_str()))
            } else {
                None
            }
        },
    }
}

/// `n` is `c` after moving the active list half a page (down when `down`),
/// keeping the selection in view.
pub open spec fn paged(c: HandlerContext, n: HandlerContext, down: bool) -> bool {
    let view = c.display.active_view;
    let nav = nav_of(c, view);
    let count = count_of(c, view);
    let half = c.list_height / 2;
    &&& n == with_nav(c, view, nav_of(n, view))
    &&& nav_of(n, view).selected_ids == nav.selected_ids
    &&& if down {
        &&& count == 0 ==> nav_of(n, view).selected_index == nav.selected_index
            && nav_of(n, view).scroll_offset == nav.scroll_offset
        &&& count > 0 ==> nav_of(n, view).selected_index == (if nav.selected_index + half < count {
            nav.selected_index + half
        } else {
            count - 1
        }) && nav_of(n, view).scroll_offset == scrolled(
            nav.scroll_offset,
            nav_of(n, view).selected_index,
            c.list_height,
        )
    } else {
        &&& nav_of(n, view).selected_index == (if nav.selected_index >= half {
            nav.selected_index - half
        } else {
            0
        })
        &&& nav_of(n, view).scroll_offset == scrolled(
            nav.scroll_offset,
            nav_of(n, view).selected_index,
            c.list_height,
        )
    }
}

/// Moves the active list half a page up.
pub fn handle_page_up(ctx: &mut HandlerContext)
    ensures
        paged(*old(ctx), *final(ctx), false),
{
    let height = ctx.list_height;
    match ctx.display.active_view {
        ViewMode::Local => page_up(&mut ctx.local_nav.selected_index, &mut ctx.local_nav.scroll_offset, height),
        ViewMode::Remote => page_up(
            &mut ctx.remote_nav.selected_index,
            &mut ctx.remote_nav.scroll_offset,
            height,
        ),
    }
}

/// Moves the active list half a page down.
pub fn handle_page_down(ctx: &mut HandlerContext)
    ensures
        paged(*old(ctx), *final(ctx), true),
{
    let height = ctx.list_height;
    match ctx.display.active_view {
        ViewMode::Local => page_down(
            &mut ctx.local_nav.selected_index,
            &mut ctx.local_nav.scroll_offset,
            ctx.local_count,
            height,
        ),
        ViewMode::Remote => page_down(
            &mut ctx.remote_nav.selected_index,
            &mut ctx.remote_nav.scroll_offset,
            ctx.remote_count,
            height,
        ),
    }
}

} // verus!
