//! Operations on local tickets: pushing them to the remote platform and
//! unlinking them from their remote issues.
use vstd::prelude::*;

use crate::remote::same_query;
use crate::text::decimal;
use crate::tui::remote::confirm_modal::{unlink_question, ConfirmAction, ConfirmDialogState};
use crate::tui::remote::error_toast::{Toast, ToastLevel};
use crate::tui::remote::operations::{get_linked_ticket_ids, linked_ids};
use crate::tui::remote::state::{IdSet, ViewMode};
use crate::types::opt_text;

use super::context::{counted, item_id_at, toast_is, HandlerContext, HandlerEffect};

verus! {

broadcast use vstd::seq_lib::group_seq_properties;

/// Adding an item not yet held keeps a sequence free of duplicates.
proof fn lemma_push_fresh(s: Seq<Seq<char>>, x: Seq<char>)
    requires
        s.no_duplicates(),
        !s.contains(x),
    ensures
        s.push(x).no_duplicates(),
{
    assert forall|i: int, j: int| 0 <= i < s.push(x).len() && 0 <= j < s.push(x).len() && i != j implies s.push(x)[i] != s.push(x)[j] by {
        if i == s.len() as int {
            assert(s[j] == s.push(x)[j]);
        } else if j == s.len() as int {
            assert(s[i] == s.push(x)[i]);
        }
    }
}

/// Splits `ids` (each held once) into those in `set` and the others,
/// keeping their order.
pub(crate) fn split_by_membership(ids: Vec<String>, set: &IdSet) -> (r: (Vec<String>, Vec<String>))
    requires
        ids.deep_view().no_duplicates(),
    ensures
        r.0.deep_view().no_duplicates(),
        r.1.deep_view().no_duplicates(),
        r.0.deep_view().to_set() == ids.deep_view().to_set().intersect(set@),
        r.1.deep_view().to_set() == ids.deep_view().to_set().difference(set@),
{
    let ghost all = ids.deep_view();
    let mut inside: Vec<String> = Vec::new();
    let mut outside: Vec<String> = Vec::new();
    let mut i: usize = 0;
    let n = ids.len();
    while i < n
        invariant
            n == ids@.len(),
            all == ids.deep_view(),
            all.no_duplicates(),
            i <= n,
            inside.deep_view().no_duplicates(),
            outside.deep_view().no_duplicates(),
            forall|x: Seq<char>| #[trigger] inside.deep_view().contains(x) <==> (all.take(i as int).contains(x) && set@.contains(x)),
            forall|x: Seq<char>| #[trigger] outside.deep_view().contains(x) <==> (all.take(i as int).contains(x) && !set@.contains(x)),
        decreases n - i,
    {
        let id = ids[i].clone();
        assert(id@ == all[i as int]);
        assert(all.take(i as int + 1) =~= all.take(i as int).push(all[i as int]));
        assert(!all.take(i as int).contains(all[i as int])) by {
            if all.take(i as int).contains(all[i as int]) {
                let k = choose|k: int| 0 <= k < i && all.take(i as int)[k] == all[i as int];
                assert(all[k] == all[i as int]);
            }
        }
        if set.contains(id.as_str()) {
            let ghost before = inside.deep_view();
            assert(!before.contains(all[i as int]));
            inside.push(id);
            assert(inside.deep_view() =~= before.push(all[i as int]));
            proof {
                lemma_push_fresh(before, all[i as int]);
            }
        } else {
            let ghost before = outside.deep_view();
            assert(!before.contains(all[i as int]));
            outside.push(id);
            assert(outside.deep_view() =~= before.push(all[i as int]));
            proof {
                lemma_push_fresh(before, all[i as int]);
            }
        }
        i = i + 1;
    }
    assert(all.take(n as int) =~= all);
    assert(inside.deep_view().to_set() =~= all.to_set().intersect(set@));
    assert(outside.deep_view().to_set() =~= all.to_set().difference(set@));
    (inside, outside)
}

/// The local tickets a push or unlink is asked for: the selected ones, or
/// else the ticket at the selected row (when it has an id).
pub open spec fn local_request(c: HandlerContext) -> Set<Seq<char>> {
    if c.local_nav.selected_ids@.len() > 0 {
        c.local_nav.selected_ids@
    } else {
        match item_id_at(c, ViewMode::Local, c.local_nav.selected_index as int) {
            Some(id) => set![id],
            None => Set::empty(),
        }
    }
}

/// The ticket at the selected local row, when it has an id and a remote
/// issue.
pub open spec fn current_linked(c: HandlerContext) -> Option<Seq<char>> {
    let i = c.local_nav.selected_index as int;
    if 0 <= i < c.local_tickets@.len() && c.local_tickets@[i].remote is Some {
        opt_text(c.local_tickets@[i].id)
    } else {
        None
    }
}

/// `n` and `r` are what pushing comes to from `c`. Nothing asked for is a
/// warning. Tickets already linked are skipped with a warning; the rest are
/// pushed (with a toast saying how many) with the active query and platform.
pub open spec fn pushed(c: HandlerContext, n: HandlerContext, r: Option<HandlerEffect>) -> bool {
    let req = local_request(c);
    let linked = linked_ids(c.local_tickets@);
    let send = req.difference(linked);
    &&& n == HandlerContext { toast: n.toast, ..c }
    &&& req.len() == 0 ==> r is None && toast_is(n.toast, ToastLevel::Warning, "No ticket selected to push"@)
    &&& req.len() > 0 && send.len() == 0 ==> r is None && toast_is(
        n.toast,
        ToastLevel::Warning,
        decimal(req.intersect(linked).len()) + " ticket(s) already linked, skipping"@,
    )
    &&& req.len() > 0 && send.len() > 0 ==> (r matches Some(
        HandlerEffect::Push { ticket_ids, provider, query },
    ) && ticket_ids.deep_view().no_duplicates() && ticket_ids.deep_view().to_set() == send
        && provider == c.config.provider && same_query(query, c.config.active_filters)
        && toast_is(n.toast, ToastLevel::Info, "Pushing "@ + decimal(send.len()) + " ticket(s)..."@))
}

/// The ids asked for by a push or unlink (see `local_request`), each once.
fn requested_ids(ctx: &HandlerContext) -> (r: Vec<String>)
    ensures
        r.deep_view().no_duplicates(),
        r.deep_view().to_set() == local_request(*ctx),
{
    if !ctx.local_nav.selected_ids.is_empty() {
        ctx.local_nav.selected_ids.to_vec()
    } else {
        let mut v: Vec<String> = Vec::new();
        if let Some(id) = ctx.item_id_at(ViewMode::Local, ctx.local_nav.selected_index) {
            v.push(id);
            assert(v.deep_view() =~= seq![v@[0]@]);
            assert(v.deep_view().to_set() =~= local_request(*ctx)) by {
                assert(v.deep_view().contains(v@[0]@));
            }
        } else {
            assert(v.deep_view() =~= Seq::<Seq<char>>::empty());
            assert(v.deep_view().to_set() =~= local_request(*ctx));
        }
        v
    }
}

/// Pushes the selected local tickets (or the ticket at the selected row)
/// to the remote platform, skipping those already linked.
pub fn handle_push(ctx: &mut HandlerContext) -> (r: Option<HandlerEffect>)
    ensures
        pushed(*old(ctx), *final(ctx), r),
{
    let ghost c0 = *ctx;
    let ids = requested_ids(ctx);
    proof {
        ids.deep_view().unique_seq_to_set();
    }
    if ids.len() == 0 {
        ctx.toast = Some(Toast::warning("No ticket selected to push"));
        return None;
    }
    let linked = get_linked_ticket_ids(ctx.local_tickets.as_slice());
    let (already, unlinked) = split_by_membership(ids, &linked);
    proof {
        already.deep_view().unique_seq_to_set();
        unlinked.deep_view().unique_seq_to_set();
    }
    if unlinked.len() == 0 {
        ctx.toast = Some(
            Toast::new(
                counted("", already.len(), " ticket(s) already linked, skipping"),
                ToastLevel::Warning,
            ),
        );
        proof {
            reveal_strlit("");
            assert(""@ + decimal(already.len() as nat) =~= decimal(already.len() as nat));
        }
        return None;
    }
    ctx.toast = Some(Toast::new(counted("Pushing ", unlinked.len(), " ticket(s)..."), ToastLevel::Info));
    let provider = ctx.config.provider;
    let query = ctx.config.active_filters.clone();
    Some(HandlerEffect::Push { ticket_ids: unlinked, provider, query })
}

/// The tickets an unlink is asked for: the selected ones that are linked,
/// or else the ticket at the selected row when it is linked.
pub open spec fn unlink_request(c: HandlerContext) -> Set<Seq<char>> {
    if c.local_nav.selected_ids@.len() > 0 {
        c.local_nav.selected_ids@.intersect(linked_ids(c.local_tickets@))
    } else {
        match current_linked(c) {
            Some(id) => set![id],
            None => Set::empty(),
        }
    }
}

/// `n` is `c` after asking to unlink: nothing linked asked for is a
/// warning; otherwise the confirmation for those tickets opens.
pub open spec fn unlink_asked(c: HandlerContext, n: HandlerContext) -> bool {
    let req = unlink_request(c);
    if req.len() == 0 {
        n == HandlerContext { toast: n.toast, ..c } && toast_is(
            n.toast,
            ToastLevel::Warning,
            "No linked tickets selected"@,
        )
    } else {
        &&& n == HandlerContext { confirm_dialog: n.confirm_dialog, ..c }
        &&& n.confirm_dialog matches Some(d) && d.action matches ConfirmAction::Unlink(ids)
            && ids.deep_view().no_duplicates() && ids.deep_view().to_set() == req && !d.default_yes
            && d.message@ == unlink_question(ids.deep_view())
    }
}

/// Asks to confirm unlinking the selected linked tickets (or the linked
/// ticket at the selected row).
pub fn handle_unlink(ctx: &mut HandlerContext)
    ensures
        unlink_asked(*old(ctx), *final(ctx)),
{
    let ids: Vec<String> = if !ctx.local_nav.selected_ids.is_empty() {
        let selected = ctx.local_nav.selected_ids.to_vec();
        let linked = get_linked_ticket_ids(ctx.local_tickets.as_slice());
        let (inside, _outside) = split_by_membership(selected, &linked);
        inside
    } else {
        let mut v: Vec<String> = Vec::new();
        let i = ctx.local_nav.selected_index;
        if i < ctx.local_tickets.len() && ctx.local_tickets[i].remote.is_some() {
            if let Some(id) = &ctx.local_tickets[i].id {
                v.push(id.clone());
                assert(v.deep_view() =~= seq![v@[0]@]);
                assert(v.deep_view().to_set() =~= unlink_request(*ctx)) by {
                    assert(v.deep_view().contains(v@[0]@));
                }
            } else {
                assert(v.deep_view() =~= Seq::<Seq<char>>::empty());
                assert(v.deep_view().to_set() =~= unlink_request(*ctx));
            }
        } else {
            assert(v.deep_view() =~= Seq::<Seq<char>>::empty());
            assert(v.deep_view().to_set() =~= unlink_request(*ctx));
        }
        v
    };
    proof {
        ids.deep_view().unique_seq_to_set();
    }
    if ids.len() == 0 {
        ctx.toast = Some(Toast::warning("No linked tickets selected"));
        return ;
    }
    ctx.confirm_dialog = Some(ConfirmDialogState::for_unlink(ids));
}

} // verus!
