//! Multi-selection in the lists of the remote interface.
use vstd::prelude::*;

use crate::tui::remote::state::ViewMode;

use super::context::{item_id_at, nav_of, with_nav, HandlerContext};

verus! {

/// `ids` with `id` removed when present, added when absent.
pub open spec fn flipped(ids: Set<Seq<char>>, id: Seq<char>) -> Set<Seq<char>> {
    if ids.contains(id) {
        ids.remove(id)
    } else {
        ids.insert(id)
    }
}

/// The ids of all items of the list `view` (local tickets without an id
/// have none).
pub open spec fn all_ids(c: HandlerContext, view: ViewMode) -> Set<Seq<char>> {
    Set::new(|x: Seq<char>| exists|i: int| #[trigger] item_id_at(c, view, i) == Some(x))
}

/// `n` is `c` with only the selected ids of the active list changed, to
/// `ids`.
pub open spec fn ids_changed(c: HandlerContext, n: HandlerContext, ids: Set<Seq<char>>) -> bool {
    let view = c.display.active_view;
    &&& n == with_nav(c, view, nav_of(n, view))
    &&& nav_of(n, view).selected_index == nav_of(c, view).selected_index
    &&& nav_of(n, view).scroll_offset == nav_of(c, view).scroll_offset
    &&& nav_of(n, view).selected_ids@ == ids
}

/// The selected ids of the active list after toggling the item at the
/// selected row (nothing changes when that row has no id).
pub open spec fn toggled_ids(c: HandlerContext) -> Set<Seq<char>> {
    let view = c.display.active_view;
    let nav = nav_of(c, view);
    match item_id_at(c, view, nav.selected_index as int) {
        Some(id) => flipped(nav.selected_ids@, id),
        None => nav.selected_ids@,
    }
}

/// Toggles the selection of the item at the selected row of the active list.
pub fn toggle_selection(ctx: &mut HandlerContext)
    ensures
        ids_changed(*old(ctx), *final(ctx), toggled_ids(*old(ctx))),
{
    let view = ctx.display.active_view;
    let index = match view {
        ViewMode::Local => ctx.local_nav.selected_index,
        ViewMode::Remote => ctx.remote_nav.selected_index,
    };
    if let Some(id) = ctx.item_id_at(view, index) {
        match view {
            ViewMode::Local => {
                if ctx.local_nav.selected_ids.contains(id.as_str()) {
                    ctx.local_nav.selected_ids.remove(id.as_str());
                } else {
                    ctx.local_nav.selected_ids.insert(id);
                }
            },
            ViewMode::Remote => {
                if ctx.remote_nav.selected_ids.contains(id.as_str()) {
                    ctx.remote_nav.selected_ids.remove(id.as_str());
                } else {
                    ctx.remote_nav.selected_ids.insert(id);
                }
            },
        }
    }
}

/// Selects every item of the active list (all local tickets with an id,
/// or all remote issues), keeping what was selected.
pub fn select_all(ctx: &mut HandlerContext)
    ensures
        ids_changed(
            *old(ctx),
            *final(ctx),
            nav_of(*old(ctx), old(ctx).display.active_view).selected_ids@.union(
                all_ids(*old(ctx), old(ctx).display.active_view),
            ),
        ),
{
    let view = ctx.display.active_view;
    let ghost c0 = *ctx;
    let ghost before = nav_of(c0, view).selected_ids@;
    let n = match view {
        ViewMode::Local => ctx.local_tickets.len(),
        ViewMode::Remote => ctx.remote_issues.len(),
    };
    let mut i: usize = 0;
    while i < n
        invariant
            i <= n,
            view == c0.display.active_view,
            n == (if view == ViewMode::Local {
                c0.local_tickets@.len()
            } else {
                c0.remote_issues@.len()
            }),
            ctx.local_tickets == c0.local_tickets,
            ctx.remote_issues == c0.remote_issues,
            *ctx == with_nav(c0, view, nav_of(*ctx, view)),
            nav_of(*ctx, view).selected_index == nav_of(c0, view).selected_index,
            nav_of(*ctx, view).scroll_offset == nav_of(c0, view).scroll_offset,
            nav_of(*ctx, view).selected_ids@ == before.union(
                Set::new(|x: Seq<char>| exists|j: int| 0 <= j < i && #[trigger] item_id_at(c0, view, j) == Some(x)),
            ),
        decreases n - i,
    {
        let ghost prev = nav_of(*ctx, view).selected_ids@;
        let id = ctx.item_id_at(view, i);
        assert(item_id_at(*ctx, view, i as int) == item_id_at(c0, view, i as int));
        if let Some(id) = id {
            match view {
                ViewMode::Local => {
                    ctx.local_nav.selected_ids.insert(id);
                },
                ViewMode::Remote => {
                    ctx.remote_nav.selected_ids.insert(id);
                },
            }
        }
        assert(nav_of(*ctx, view).selected_ids@ =~= before.union(
            Set::new(|x: Seq<char>| exists|j: int| 0 <= j < i + 1 && #[trigger] item_id_at(c0, view, j) == Some(x)),
        )) by {
            assert forall|x: Seq<char>| (exists|j: int| 0 <= j < i + 1 && #[trigger] item_id_at(c0, view, j) == Some(x))
                <==> ((exists|j: int| 0 <= j < i && #[trigger] item_id_at(c0, view, j) == Some(x))
                || item_id_at(c0, view, i as int) == Some(x)) by {
                if exists|j: int| 0 <= j < i + 1 && #[trigger] item_id_at(c0, view, j) == Some(x) {
                    let j = choose|j: int| 0 <= j < i + 1 && #[trigger] item_id_at(c0, view, j) == Some(x);
                    if j < i {
                        assert(0 <= j < i && item_id_at(c0, view, j) == Some(x));
                    }
                }
            }
        }
        i = i + 1;
    }
    assert(nav_of(*ctx, view).selected_ids@ =~= before.union(all_ids(c0, view))) by {
        assert forall|x: Seq<char>| #[trigger] all_ids(c0, view).contains(x) implies (exists|j: int|
            0 <= j < n && #[trigger] item_id_at(c0, view, j) == Some(x)) by {
            let j = choose|j: int| #[trigger] item_id_at(c0, view, j) == Some(x);
            assert(0 <= j < n);
        }
    }
}

/// Clears the selection of the active list.
pub fn clear_selection(ctx: &mut HandlerContext)
    ensures
        ids_changed(*old(ctx), *final(ctx), Set::<Seq<char>>::empty()),
{
    match ctx.display.active_view {
        ViewMode::Local => ctx.local_nav.clear_selection(),
        ViewMode::Remote => ctx.remote_nav.clear_selection(),
    }
}

} // verus!
