//! List navigation: moving a selection through a list of `count` items
//! shown `height` rows at a time, keeping the selection in view.
use vstd::prelude::*;

verus! {

/// The scroll offset that keeps `selected` visible in a window of `height`
/// rows that started at `offset`: unchanged when already visible, else the
/// smallest move that brings it into view. A window of no rows scrolls to 0.
pub open spec fn scrolled(offset: usize, selected: usize, height: usize) -> usize {
    if height == 0 {
        0
    } else if selected < offset {
        selected
    } else if selected >= offset + height {
        (selected - (height - 1)) as usize
    } else {
        offset
    }
}

/// `selected` lies in the window of `height` rows that starts at `offset`.
pub open spec fn visible(offset: usize, selected: usize, height: usize) -> bool {
    offset <= selected < offset + height
}

/// Keeps the selected index visible (see `scrolled`).
pub fn adjust_scroll(scroll_offset: usize, selected_index: usize, list_height: usize) -> (r: usize)
    ensures
        r == scrolled(scroll_offset, selected_index, list_height),
        list_height > 0 ==> visible(r, selected_index, list_height),
{
    if list_height == 0 {
        return 0;
    }
    if selected_index < scroll_offset {
        return selected_index;
    }
    if selected_index - scroll_offset >= list_height {
        return selected_index - (list_height - 1);
    }
    scroll_offset
}

/// A window that already shows the selection does not move.
pub proof fn lemma_scroll_stable(offset: usize, selected: usize, height: usize)
    requires
        visible(offset, selected, height),
    ensures
        scrolled(offset, selected, height) == offset,
{
}

/// With at least one row, the adjusted window shows the selection.
pub proof fn lemma_scrolled_visible(offset: usize, selected: usize, height: usize)
    requires
        height > 0,
    ensures
        visible(scrolled(offset, selected, height), selected, height),
{
}

/// Adjusting twice is adjusting once.
pub proof fn lemma_scroll_idempotent(offset: usize, selected: usize, height: usize)
    ensures
        scrolled(scrolled(offset, selected, height), selected, height) == scrolled(offset, selected, height),
{
}

/// Moves the selection one item down (staying on the last item) and keeps
/// it visible. An empty list is left as it is.
pub fn scroll_down(selected: &mut usize, scroll: &mut usize, count: usize, height: usize)
    ensures
        count == 0 ==> *final(selected) == *old(selected) && *final(scroll) == *old(scroll),
        count > 0 ==> *final(selected) == (if *old(selected) + 1 < count {
            *old(selected) + 1
        } else {
            count - 1
        }),
        count > 0 ==> *final(scroll) == scrolled(*old(scroll), *final(selected), height),
{
    if count > 0 {
        let next = if *selected < count - 1 {
            *selected + 1
        } else {
            count - 1
        };
        *selected = next;
        *scroll = adjust_scroll(*scroll, next, height);
    }
}

/// Moves the selection one item up (staying on the first item) and keeps it
/// visible.
pub fn scroll_up(selected: &mut usize, scroll: &mut usize, height: usize)
    ensures
        *final(selected) == if *old(selected) > 0 {
            *old(selected) - 1
        } else {
            0
        },
        *final(scroll) == scrolled(*old(scroll), *final(selected), height),
{
    let next = if *selected > 0 {
        *selected - 1
    } else {
        0
    };
    *selected = next;
    *scroll = adjust_scroll(*scroll, next, height);
}

/// Selects the first item and scrolls to the top.
pub fn scroll_to_top(selected: &mut usize, scroll: &mut usize)
    ensures
        *final(selected) == 0,
        *final(scroll) == 0,
{
    *selected = 0;
    *scroll = 0;
}

/// Selects the last item and keeps it visible. An empty list is left as it
/// is.
pub fn scroll_to_bottom(selected: &mut usize, scroll: &mut usize, count: usize, height: usize)
    ensures
        count == 0 ==> *final(selected) == *old(selected) && *final(scroll) == *old(scroll),
        count > 0 ==> *final(selected) == count - 1,
        count > 0 ==> *final(scroll) == scrolled(*old(scroll), (count - 1) as usize, height),
{
    if count > 0 {
        *selected = count - 1;
        *scroll = adjust_scroll(*scroll, count - 1, height);
    }
}

/// Moves the selection half a window down (staying on the last item) and
/// keeps it visible. An empty list is left as it is.
pub fn page_down(selected: &mut usize, scroll: &mut usize, count: usize, height: usize)
    ensures
        count == 0 ==> *final(selected) == *old(selected) && *final(scroll) == *old(scroll),
        count > 0 ==> *final(selected) == (if *old(selected) + height / 2 < count {
            *old(selected) + height / 2
        } else {
            count - 1
        }),
        count > 0 ==> *final(scroll) == scrolled(*old(scroll), *final(selected), height),
{
    if count > 0 {
        let jump = height / 2;
        let next = if *selected < count - 1 && jump < count - 1 - *selected {
            *selected + jump
        } else {
            count - 1
        };
        *selected = next;
        *scroll = adjust_scroll(*scroll, next, height);
    }
}

/// Moves the selection half a window up (staying on the first item) and
/// keeps it visible.
pub fn page_up(selected: &mut usize, scroll: &mut usize, height: usize)
    ensures
        *final(selected) == if *old(selected) >= height / 2 {
            *old(selected) - height / 2
        } else {
            0
        },
        *final(scroll) == scrolled(*old(scroll), *final(selected), height),
{
    let jump = height / 2;
    let next = if *selected >= jump {
        *selected - jump
    } else {
        0
    };
    *selected = next;
    *scroll = adjust_scroll(*scroll, next, height);
}

} // verus!
