//! Syncing linked tickets: choosing what to sync and reviewing the changes.
use vstd::prelude::*;

use crate::remote::same_query;
use crate::text::{contains_seq, decimal, str_contains};
use crate::tui::remote::error_toast::{Toast, ToastLevel};
use crate::tui::remote::operations::{get_linked_ticket_ids, linked_ids};
use crate::tui::remote::state::ViewMode;
use crate::tui::remote::sync_preview::{
    advanced, decide_at, decided, SyncDecision,
};
use crate::types::opt_text;

use super::context::{counted, toast_is, HandlerContext, HandlerEffect};
use super::local_ops::current_linked;

verus! {

broadcast use vstd::seq_lib::group_seq_properties;

/// The local ticket at `k` has the id `id` and a remote reference that
/// contains one of the selected remote issue ids.
pub open spec fn points_at_selection(c: HandlerContext, k: int, id: Seq<char>) -> bool {
    &&& opt_text(c.local_tickets@[k].id) == Some(id)
    &&& match c.local_tickets@[k].remote {
        Some(r) => exists|s: Seq<char>|
            c.remote_nav.selected_ids@.contains(s) && #[trigger] contains_seq(r@, s),
        None => false,
    }
}

/// Local tickets that a remote-issue selection points at: linked tickets
/// whose remote reference contains one of the selected issue ids.
pub open spec fn tickets_of_selected_issues(c: HandlerContext) -> Set<Seq<char>> {
    Set::new(
        |id: Seq<char>|
            exists|k: int| 0 <= k < c.local_tickets@.len() && #[trigger] points_at_selection(c, k, id),
    )
}

/// The tickets a sync is asked for: on the local list the selected
/// tickets, on the remote list the tickets of the selected issues; of those
/// the linked ones. With nothing selected, the ticket at the selected local
/// row when it is linked.
pub open spec fn sync_request(c: HandlerContext) -> Set<Seq<char>> {
    let candidates = if c.display.active_view == ViewMode::Local {
        c.local_nav.selected_ids@
    } else {
        tickets_of_selected_issues(c)
    };
    if candidates.len() > 0 {
        candidates.intersect(linked_ids(c.local_tickets@))
    } else {
        match current_linked(c) {
            Some(id) => set![id],
            None => Set::empty(),
        }
    }
}

/// `n` and `r` are what starting a sync comes to from `c`: with no linked
/// ticket asked for, a warning; otherwise the remote side of those tickets
/// is fetched, with a toast saying how many.
pub open spec fn sync_started(c: HandlerContext, n: HandlerContext, r: Option<HandlerEffect>) -> bool {
    let req = sync_request(c);
    &&& n == HandlerContext { toast: n.toast, ..c }
    &&& req.len() == 0 ==> r is None && toast_is(
        n.toast,
        ToastLevel::Warning,
        "No linked tickets selected for sync"@,
    )
    &&& req.len() > 0 ==> (r matches Some(HandlerEffect::SyncFetch { ticket_ids, provider })
        && ticket_ids.deep_view().to_set() == req && provider == c.config.provider && toast_is(
        n.toast,
        ToastLevel::Info,
        "Fetching remote data for "@ + decimal(ticket_ids@.len() as nat) + " ticket(s)..."@,
    ))
}

/// Whether some id of `ids` occurs in `text`.
fn contains_any(text: &str, ids: &Vec<String>) -> (r: bool)
    ensures
        r == exists|j: int| 0 <= j < ids@.len() && contains_seq(text@, #[trigger] ids@[j]@),
{
    let mut j: usize = 0;
    while j < ids.len()
        invariant
            j <= ids@.len(),
            forall|k: int| 0 <= k < j ==> !contains_seq(text@, #[trigger] ids@[k]@),
        decreases ids@.len() - j,
    {
        if str_contains(text, ids[j].as_str()) {
            return true;
        }
        j = j + 1;
    }
    false
}

/// The ids of the local tickets whose remote reference contains one of the
/// selected remote issue ids.
fn tickets_of_selection(ctx: &HandlerContext) -> (r: Vec<String>)
    ensures
        r.deep_view().to_set() == tickets_of_selected_issues(*ctx),
{
    let selected = ctx.remote_nav.selected_ids.to_vec();
    let ghost sel = selected.deep_view();
    let mut out: Vec<String> = Vec::new();
    let mut k: usize = 0;
    while k < ctx.local_tickets.len()
        invariant
            k <= ctx.local_tickets@.len(),
            sel == selected.deep_view(),
            sel.to_set() == ctx.remote_nav.selected_ids@,
            forall|x: Seq<char>| #[trigger] out.deep_view().contains(x) <==> exists|q: int|
                0 <= q < k && #[trigger] points_at_selection(*ctx, q, x),
        decreases ctx.local_tickets@.len() - k,
    {
        let ghost before = out.deep_view();
        let ghost mut added: Option<Seq<char>> = None;
        let t = &ctx.local_tickets[k];
        if let (Some(id), Some(r)) = (&t.id, &t.remote) {
            let hit = contains_any(r.as_str(), &selected);
            assert(hit == exists|s: Seq<char>|
                ctx.remote_nav.selected_ids@.contains(s) && #[trigger] contains_seq(r@, s)) by {
                if hit {
                    let j = choose|j: int| 0 <= j < selected@.len() && contains_seq(r@, #[trigger] selected@[j]@);
                    assert(sel[j] == selected@[j]@);
                    assert(sel.to_set().contains(sel[j]));
                }
                if exists|s: Seq<char>| ctx.remote_nav.selected_ids@.contains(s) && #[trigger] contains_seq(r@, s) {
                    let s = choose|s: Seq<char>| ctx.remote_nav.selected_ids@.contains(s) && #[trigger] contains_seq(r@, s);
                    assert(sel.contains(s));
                    let j = choose|j: int| 0 <= j < sel.len() && sel[j] == s;
                    assert(selected@[j]@ == s);
                }
            }
            if hit {
                out.push(id.clone());
                assert(out.deep_view() =~= before.push(id@));
                proof {
                    added = Some(id@);
                }
            }
        }
        assert forall|x: Seq<char>| points_at_selection(*ctx, k as int, x) <==> added == Some(x) by {}
        assert forall|x: Seq<char>| #[trigger] out.deep_view().contains(x) <==> (before.contains(x) || added == Some(x)) by {}
        assert forall|x: Seq<char>| #[trigger] out.deep_view().contains(x) <==> exists|q: int|
            0 <= q < k + 1 && #[trigger] points_at_selection(*ctx, q, x) by {
            if exists|q: int| 0 <= q < k + 1 && #[trigger] points_at_selection(*ctx, q, x) {
                let q = choose|q: int| 0 <= q < k + 1 && #[trigger] points_at_selection(*ctx, q, x);
                if q < k {
                    assert(before.contains(x));
                }
            }
            if before.contains(x) {
                let q = choose|q: int| 0 <= q < k && #[trigger] points_at_selection(*ctx, q, x);
                assert(0 <= q < k + 1 && points_at_selection(*ctx, q, x));
            }
            if added == Some(x) {
                assert(points_at_selection(*ctx, k as int, x));
            }
        }
        k = k + 1;
    }
    assert(out.deep_view().to_set() =~= tickets_of_selected_issues(*ctx));
    out
}

/// Starts a sync of the linked tickets asked for (see `sync_request`):
/// their remote side is fetched to preview the changes.
pub fn handle_start_sync(ctx: &mut HandlerContext) -> (r: Option<HandlerEffect>)
    ensures
        sync_started(*old(ctx), *final(ctx), r),
{
    let linked = get_linked_ticket_ids(ctx.local_tickets.as_slice());
    let candidates: Vec<String> = match ctx.display.active_view {
        ViewMode::Local => ctx.local_nav.selected_ids.to_vec(),
        ViewMode::Remote => tickets_of_selection(ctx),
    };
    let ghost cand_set = candidates.deep_view().to_set();
    proof {
        candidates.deep_view().lemma_cardinality_of_empty_set_is_0();
    }
    let ids: Vec<String> = if candidates.len() > 0 {
        let mut out: Vec<String> = Vec::new();
        let mut k: usize = 0;
        while k < candidates.len()
            invariant
                k <= candidates@.len(),
                forall|x: Seq<char>| #[trigger] out.deep_view().contains(x) <==> (candidates.deep_view().take(k as int).contains(x)
                    && linked@.contains(x)),
            decreases candidates@.len() - k,
        {
            let ghost before = out.deep_view();
            assert(candidates.deep_view().take(k as int + 1) =~= candidates.deep_view().take(k as int).push(candidates@[k as int]@));
            if linked.contains(candidates[k].as_str()) {
                out.push(candidates[k].clone());
                assert(out.deep_view() =~= before.push(candidates@[k as int]@));
            }
            k = k + 1;
        }
        assert(candidates.deep_view().take(candidates@.len() as int) =~= candidates.deep_view());
        assert(out.deep_view().to_set() =~= cand_set.intersect(linked@));
        out
    } else {
        let mut v: Vec<String> = Vec::new();
        let i = ctx.local_nav.selected_index;
        if i < ctx.local_tickets.len() && ctx.local_tickets[i].remote.is_some() {
            if let Some(id) = &ctx.local_tickets[i].id {
                v.push(id.clone());
                assert(v.deep_view() =~= seq![v@[0]@]);
                assert(v.deep_view().to_set() =~= set![v@[0]@]) by {
                    assert(v.deep_view().contains(v@[0]@));
                }
            } else {
                assert(v.deep_view().to_set() =~= Set::<Seq<char>>::empty());
            }
        } else {
            assert(v.deep_view().to_set() =~= Set::<Seq<char>>::empty());
        }
        v
    };
    assert(ids.deep_view().to_set() == sync_request(*old(ctx)));
    proof {
        ids.deep_view().lemma_cardinality_of_empty_set_is_0();
    }
    if ids.len() == 0 {
        ctx.toast = Some(Toast::warning("No linked tickets selected for sync"));
        return None;
    }
    ctx.toast = Some(
        Toast::new(counted("Fetching remote data for ", ids.len(), " ticket(s)..."), ToastLevel::Info),
    );
    let provider = ctx.config.provider;
    Some(HandlerEffect::SyncFetch { ticket_ids: ids, provider })
}

/// `n` and `r` are what deciding `d` for the change shown comes to from
/// `c`: the decision is recorded and the review moves on; when no change
/// remains the preview closes and the decided changes are applied with the
/// active query and platform. Without a preview nothing happens.
pub open spec fn sync_decided(
    c: HandlerContext,
    n: HandlerContext,
    r: Option<HandlerEffect>,
    d: SyncDecision,
) -> bool {
    match c.sync_preview {
        None => n == c && r is None,
        Some(p) => {
            let len = p.changes@.len();
            let changes = decide_at(p.changes@, p.current_change_index, d);
            let index = advanced(p.current_change_index, len);
            if index < len && p.current_change_index < len {
                &&& r is None
                &&& n == HandlerContext { sync_preview: n.sync_preview, ..c }
                &&& n.sync_preview matches Some(q) && q.changes@ == changes && q.current_change_index
                    == index && q.scroll_offset == p.scroll_offset
            } else {
                &&& n == HandlerContext { sync_preview: None, ..c }
                &&& r matches Some(HandlerEffect::SyncApply { preview, provider, query })
                    && preview.changes@ == changes && preview.current_change_index == index
                    && preview.scroll_offset == p.scroll_offset && provider == c.config.provider
                    && same_query(query, c.config.active_filters)
            }
        },
    }
}

/// Records `d` for the change shown and moves on, applying the review
/// when it is over.
fn decide_and_continue(ctx: &mut HandlerContext, d: SyncDecision) -> (r: Option<HandlerEffect>)
    ensures
        sync_decided(*old(ctx), *final(ctx), r, d),
{
    match ctx.sync_preview.take() {
        None => None,
        Some(mut p) => {
            let more = match d {
                SyncDecision::Accept => p.accept_current(),
                SyncDecision::Skip => p.skip_current(),
            };
            if more {
                ctx.sync_preview = Some(p);
                None
            } else {
                let provider = ctx.config.provider;
                let query = ctx.config.active_filters.clone();
                Some(HandlerEffect::SyncApply { preview: p, provider, query })
            }
        },
    }
}

/// Accepts the change shown in the sync preview.
pub fn handle_accept(ctx: &mut HandlerContext) -> (r: Option<HandlerEffect>)
    ensures
        sync_decided(*old(ctx), *final(ctx), r, SyncDecision::Accept),
{
    decide_and_continue(ctx, SyncDecision::Accept)
}

/// Skips the change shown in the sync preview; the key is left to the
/// filter modal while it is open.
pub fn handle_skip(ctx: &mut HandlerContext) -> (r: Option<HandlerEffect>)
    ensures
        old(ctx).filter_modal is Some ==> *final(ctx) == *old(ctx) && r is None,
        old(ctx).filter_modal is None ==> sync_decided(*old(ctx), *final(ctx), r, SyncDecision::Skip),
{
    if ctx.filter_modal.is_some() {
        return None;
    }
    decide_and_continue(ctx, SyncDecision::Skip)
}

/// `n` and `r` are what accepting every remaining change comes to from
/// `c`: the preview closes and all changes from the one shown on are
/// applied as accepted.
pub open spec fn sync_all_accepted(c: HandlerContext, n: HandlerContext, r: Option<HandlerEffect>) -> bool {
    match c.sync_preview {
        None => n == c && r is None,
        Some(p) => {
            &&& n == HandlerContext { sync_preview: None, ..c }
            &&& r matches Some(HandlerEffect::SyncApply { preview, provider, query })
                && preview.changes@.len() == p.changes@.len() && (forall|j: int|
                0 <= j < p.current_change_index && j < p.changes@.len() ==> #[trigger] preview.changes@[j]
                    == p.changes@[j]) && (forall|j: int|
                p.current_change_index <= j < p.changes@.len() ==> #[trigger] preview.changes@[j]
                    == decided(p.changes@[j], SyncDecision::Accept))
                && preview.current_change_index == p.changes@.len() && provider == c.config.provider
                && same_query(query, c.config.active_filters)
        },
    }
}

/// Accepts every remaining change and applies the review.
pub fn handle_accept_all(ctx: &mut HandlerContext) -> (r: Option<HandlerEffect>)
    ensures
        sync_all_accepted(*old(ctx), *final(ctx), r),
{
    match ctx.sync_preview.take() {
        None => None,
        Some(mut p) => {
            p.accept_all();
            let provider = ctx.config.provider;
            let query = ctx.config.active_filters.clone();
            Some(HandlerEffect::SyncApply { preview: p, provider, query })
        },
    }
}

} // verus!
