//! Operations on remote issues: adopting them as local tickets.
use vstd::prelude::*;

use crate::error::{error_text, JanusError};
use crate::remote::{same_issue, RemoteIssue};
use crate::text::{concat, decimal};
use crate::tui::remote::error_toast::{Toast, ToastLevel};
use crate::types::TicketMetadata;

use super::context::{counted, toast_is, HandlerContext, HandlerEffect};

verus! {

/// The first `n` issues of `issues` whose id is in `ids`, in order.
pub open spec fn issues_in(issues: Seq<RemoteIssue>, ids: Set<Seq<char>>, n: nat) -> Seq<RemoteIssue>
    decreases n,
{
    if n == 0 {
        seq![]
    } else {
        let prev = issues_in(issues, ids, (n - 1) as nat);
        if ids.contains(issues[n - 1].id@) {
            prev.push(issues[n - 1])
        } else {
            prev
        }
    }
}

/// `a` holds issues with the same data as `b`, in the same order.
pub open spec fn same_issues(a: Seq<RemoteIssue>, b: Seq<RemoteIssue>) -> bool {
    a.len() == b.len() && forall|i: int| 0 <= i < a.len() ==> same_issue(#[trigger] a[i], b[i])
}

/// `n` and `r` are what asking to adopt comes to from `c`: the selected
/// issues, in list order, or else the issue at the selected row; with no
/// issue there, an error toast.
pub open spec fn adopt_asked(c: HandlerContext, n: HandlerContext, r: Option<HandlerEffect>) -> bool {
    let ids = c.remote_nav.selected_ids@;
    let i = c.remote_nav.selected_index as int;
    if ids.len() == 0 {
        if i < c.remote_issues@.len() {
            n == c && (r matches Some(HandlerEffect::Adopt { issues }) && same_issues(
                issues@,
                seq![c.remote_issues@[i]],
            ))
        } else {
            n == HandlerContext { toast: n.toast, ..c } && r is None && toast_is(
                n.toast,
                ToastLevel::Error,
                "No issue to adopt"@,
            )
        }
    } else {
        n == c && (r matches Some(HandlerEffect::Adopt { issues }) && same_issues(
            issues@,
            issues_in(c.remote_issues@, ids, c.remote_issues@.len()),
        ))
    }
}

/// Asks to adopt the selected remote issues (or the issue at the selected
/// row) as local tickets.
pub fn handle_adopt(ctx: &mut HandlerContext) -> (r: Option<HandlerEffect>)
    ensures
        adopt_asked(*old(ctx), *final(ctx), r),
{
    if ctx.remote_nav.selected_ids.is_empty() {
        let i = ctx.remote_nav.selected_index;
        if i < ctx.remote_issues.len() {
            let mut issues: Vec<RemoteIssue> = Vec::new();
            issues.push(ctx.remote_issues[i].clone());
            return Some(HandlerEffect::Adopt { issues });
        }
        ctx.toast = Some(Toast::error("No issue to adopt"));
        return None;
    }
    let mut issues: Vec<RemoteIssue> = Vec::new();
    let mut k: usize = 0;
    while k < ctx.remote_issues.len()
        invariant
            k <= ctx.remote_issues@.len(),
            same_issues(
                issues@,
                issues_in(ctx.remote_issues@, ctx.remote_nav.selected_ids@, k as nat),
            ),
        decreases ctx.remote_issues@.len() - k,
    {
        if ctx.remote_nav.selected_ids.contains(ctx.remote_issues[k].id.as_str()) {
            issues.push(ctx.remote_issues[k].clone());
        }
        k = k + 1;
    }
    Some(HandlerEffect::Adopt { issues })
}

/// `n` is `c` once an adoption finished with `outcome`: on success a toast
/// with the number adopted, the reloaded local tickets, and no remote
/// issue selected; on failure an error toast.
pub open spec fn adopt_done(
    c: HandlerContext,
    n: HandlerContext,
    outcome: Result<(usize, Vec<TicketMetadata>), JanusError>,
) -> bool {
    match outcome {
        Ok((count, tickets)) => {
            &&& n == HandlerContext {
                toast: n.toast,
                local_tickets: tickets,
                remote_nav: n.remote_nav,
                ..c
            }
            &&& n.remote_nav.selected_index == c.remote_nav.selected_index
            &&& n.remote_nav.scroll_offset == c.remote_nav.scroll_offset
            &&& n.remote_nav.selected_ids@ == Set::<Seq<char>>::empty()
            &&& toast_is(n.toast, ToastLevel::Info, "Adopted "@ + decimal(count as nat) + " issues"@)
        },
        Err(e) => n == HandlerContext { toast: n.toast, ..c } && toast_is(
            n.toast,
            ToastLevel::Error,
            "Adopt failed: "@ + error_text(e),
        ),
    }
}

/// Records how an adoption ended: `Ok` with the number of tickets created
/// and all local tickets read again, or the error.
pub fn adopt_finished(
    ctx: &mut HandlerContext,
    outcome: Result<(usize, Vec<TicketMetadata>), JanusError>,
)
    ensures
        adopt_done(*old(ctx), *final(ctx), outcome),
{
    match outcome {
        Ok((count, tickets)) => {
            ctx.toast = Some(Toast::new(counted("Adopted ", count, " issues"), ToastLevel::Info));
            ctx.local_tickets = tickets;
            ctx.remote_nav.clear_selection();
        },
        Err(e) => {
            let text = e.to_string();
            ctx.toast = Some(Toast::new(concat("Adopt failed: ", text.as_str()), ToastLevel::Error));
        },
    }
}

} // verus!
