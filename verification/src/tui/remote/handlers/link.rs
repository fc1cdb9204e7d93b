//! Link mode: choosing a ticket on one list and an issue on the other to
//! link them.
use vstd::prelude::*;

use crate::remote::{same_issue, RemoteIssue};
use crate::text::concat;
use crate::tui::remote::error_toast::{Toast, ToastLevel};
use crate::tui::remote::link_mode::{LinkModeState, LinkSource};
use crate::tui::remote::state::{ViewDisplayData, ViewMode};
use crate::tui::keys::KeyCode;
use crate::tui::view::handlers::HandleResult;
use crate::types::opt_text;

use super::context::{toast_is, HandlerContext, HandlerEffect};

verus! {

/// A title, or nothing when absent.
pub open spec fn title_or_empty(t: Option<String>) -> Seq<char> {
    match t {
        Some(s) => s@,
        None => Seq::empty(),
    }
}

/// `n` is `c` after starting link mode: from the local list, the ticket
/// at the selected row (when it has an id) becomes the source and the
/// remote list is shown; from the remote list, the issue at the selected
/// row becomes the source and the local list is shown. Otherwise nothing
/// changes.
pub open spec fn link_started(c: HandlerContext, n: HandlerContext) -> bool {
    if c.display.active_view == ViewMode::Local {
        let i = c.local_nav.selected_index as int;
        if 0 <= i < c.local_tickets@.len() && c.local_tickets@[i].id is Some {
            &&& n == HandlerContext {
                link_mode: n.link_mode,
                display: ViewDisplayData { active_view: ViewMode::Remote, ..c.display },
                ..c
            }
            &&& n.link_mode matches Some(lm) && lm.source_view == ViewMode::Local && Some(lm.source_id@)
                == opt_text(c.local_tickets@[i].id) && lm.source_title@ == title_or_empty(
                c.local_tickets@[i].title,
            )
        } else {
            n == c
        }
    } else {
        let i = c.remote_nav.selected_index as int;
        if 0 <= i < c.remote_issues@.len() {
            &&& n == HandlerContext {
                link_mode: n.link_mode,
                display: ViewDisplayData { active_view: ViewMode::Local, ..c.display },
                ..c
            }
            &&& n.link_mode matches Some(lm) && lm.source_view == ViewMode::Remote && lm.source_id@
                == c.remote_issues@[i].id@ && lm.source_title@ == c.remote_issues@[i].title@
        } else {
            n == c
        }
    }
}

/// Handles `l` outside link mode: starts link mode from the item at the
/// selected row of the active list (see `link_started`); the key is taken
/// even when no item can be the source. Other keys are not handled.
pub fn handle_link_start(ctx: &mut HandlerContext, code: KeyCode) -> (r: HandleResult)
    ensures
        code != KeyCode::Char('l') ==> r == HandleResult::NotHandled && *final(ctx) == *old(ctx),
        code == KeyCode::Char('l') ==> r == HandleResult::Handled && link_started(*old(ctx), *final(ctx)),
{
    if code != KeyCode::Char('l') {
        return HandleResult::NotHandled;
    }
    match ctx.display.active_view {
        ViewMode::Local => {
            let i = ctx.local_nav.selected_index;
            if i < ctx.local_tickets.len() {
                if let Some(id) = &ctx.local_tickets[i].id {
                    let title = match &ctx.local_tickets[i].title {
                        Some(t) => t.clone(),
                        None => String::new(),
                    };
                    let lm = LinkModeState::new(ViewMode::Local, id.clone(), title);
                    ctx.link_mode = Some(lm);
                    ctx.display.active_view = ViewMode::Remote;
                }
            }
        },
        ViewMode::Remote => {
            let i = ctx.remote_nav.selected_index;
            if i < ctx.remote_issues.len() {
                let lm = LinkModeState::new(
                    ViewMode::Remote,
                    ctx.remote_issues[i].id.clone(),
                    ctx.remote_issues[i].title.clone(),
                );
                ctx.link_mode = Some(lm);
                ctx.display.active_view = ViewMode::Local;
            }
        },
    }
    HandleResult::Handled
}

/// The position of the first issue among the first `n` whose id is `id`.
pub open spec fn first_issue_with_id(issues: Seq<RemoteIssue>, id: Seq<char>, n: nat) -> Option<int>
    decreases n,
{
    if n == 0 {
        None
    } else {
        match first_issue_with_id(issues, id, (n - 1) as nat) {
            Some(j) => Some(j),
            None => if issues[n - 1].id@ == id {
                Some(n - 1)
            } else {
                None
            },
        }
    }
}

/// `r` links the ticket `ticket` to an issue with the data of `issue`, and
/// the toast of `n` says so.
pub open spec fn links(r: Option<HandlerEffect>, n: HandlerContext, ticket: Seq<char>, issue: RemoteIssue) -> bool {
    &&& r matches Some(HandlerEffect::Link { source }) && source.ticket_id@ == ticket && same_issue(
        source.remote_issue,
        issue,
    )
    &&& toast_is(n.toast, ToastLevel::Info, "Linking "@ + ticket + " to "@ + issue.id@ + "..."@)
}

/// `n` and `r` are what confirming a link comes to from `c`. From a local
/// source the issue at the selected remote row is the target; from a remote
/// source the ticket at the selected local row (when it has an id) is linked
/// to the first issue with the source's id. Either way link mode ends and
/// the source's list is shown again. Without link mode nothing happens.
pub open spec fn link_confirmed(c: HandlerContext, n: HandlerContext, r: Option<HandlerEffect>) -> bool {
    match c.link_mode {
        None => n == c && r is None,
        Some(lm) => {
            let base = HandlerContext {
                link_mode: None,
                display: ViewDisplayData { active_view: lm.source_view, ..c.display },
                ..c
            };
            if lm.source_view == ViewMode::Local {
                let i = c.remote_nav.selected_index as int;
                if i < c.remote_issues@.len() {
                    n == HandlerContext { toast: n.toast, ..base } && links(
                        r,
                        n,
                        lm.source_id@,
                        c.remote_issues@[i],
                    )
                } else {
                    n == base && r is None
                }
            } else {
                let i = c.local_nav.selected_index as int;
                let found = first_issue_with_id(c.remote_issues@, lm.source_id@, c.remote_issues@.len());
                if 0 <= i < c.local_tickets@.len() && c.local_tickets@[i].id is Some && found is Some {
                    n == HandlerContext { toast: n.toast, ..base } && links(
                        r,
                        n,
                        c.local_tickets@[i].id->0@,
                        c.remote_issues@[found->0],
                    )
                } else {
                    n == base && r is None
                }
            }
        },
    }
}

/// The first issue whose id is `id`, if any.
fn find_issue(issues: &Vec<RemoteIssue>, id: &str) -> (r: Option<usize>)
    ensures
        match r {
            Some(j) => j < issues@.len() && first_issue_with_id(issues@, id@, issues@.len()) == Some(
                j as int,
            ),
            None => first_issue_with_id(issues@, id@, issues@.len()) is None,
        },
{
    let mut j: usize = 0;
    while j < issues.len()
        invariant
            j <= issues@.len(),
            first_issue_with_id(issues@, id@, j as nat) is None,
        decreases issues@.len() - j,
    {
        if crate::text::str_eq(issues[j].id.as_str(), id) {
            assert(first_issue_with_id(issues@, id@, (j + 1) as nat) == Some(j as int));
            proof {
                lemma_first_stays(issues@, id@, (j + 1) as nat, issues@.len());
            }
            return Some(j);
        }
        j = j + 1;
    }
    None
}

/// Once found among the first `m` issues, the first match stays the same
/// among more.
proof fn lemma_first_stays(issues: Seq<RemoteIssue>, id: Seq<char>, m: nat, n: nat)
    requires
        m <= n,
        first_issue_with_id(issues, id, m) is Some,
    ensures
        first_issue_with_id(issues, id, n) == first_issue_with_id(issues, id, m),
    decreases n - m,
{
    if n > m {
        lemma_first_stays(issues, id, m, (n - 1) as nat);
    }
}

/// Confirms the link being made (see `link_confirmed`).
pub fn handle_link_confirm(ctx: &mut HandlerContext) -> (r: Option<HandlerEffect>)
    ensures
        link_confirmed(*old(ctx), *final(ctx), r),
{
    let lm = match ctx.link_mode.take() {
        None => {
            return None;
        },
        Some(lm) => lm,
    };
    let mut effect: Option<HandlerEffect> = None;
    match lm.source_view {
        ViewMode::Local => {
            let i = ctx.remote_nav.selected_index;
            if i < ctx.remote_issues.len() {
                let issue = ctx.remote_issues[i].clone();
                let a = concat("Linking ", lm.source_id.as_str());
                let b = concat(a.as_str(), " to ");
                let c = concat(b.as_str(), issue.id.as_str());
                let msg = concat(c.as_str(), "...");
                ctx.toast = Some(Toast::new(msg, ToastLevel::Info));
                effect = Some(
                    HandlerEffect::Link {
                        source: LinkSource { ticket_id: lm.source_id.clone(), remote_issue: issue },
                    },
                );
            }
        },
        ViewMode::Remote => {
            let i = ctx.local_nav.selected_index;
            if i < ctx.local_tickets.len() {
                if let Some(ticket_id) = &ctx.local_tickets[i].id {
                    if let Some(j) = find_issue(&ctx.remote_issues, lm.source_id.as_str()) {
                        let issue = ctx.remote_issues[j].clone();
                        let a = concat("Linking ", ticket_id.as_str());
                        let b = concat(a.as_str(), " to ");
                        let c = concat(b.as_str(), issue.id.as_str());
                        let msg = concat(c.as_str(), "...");
                        let tid = ticket_id.clone();
                        ctx.toast = Some(Toast::new(msg, ToastLevel::Info));
                        effect = Some(
                            HandlerEffect::Link {
                                source: LinkSource { ticket_id: tid, remote_issue: issue },
                            },
                        );
                    }
                }
            }
        },
    }
    ctx.display.active_view = lm.source_view;
    effect
}

/// Handles a key while link mode is on: `l` confirms the link (see
/// `link_confirmed`); any other key, or `l` without link mode, is not
/// handled and changes nothing.
pub fn handle_link_mode(ctx: &mut HandlerContext, code: KeyCode) -> (r: (HandleResult, Option<HandlerEffect>))
    ensures
        (code != KeyCode::Char('l') || old(ctx).link_mode is None) ==> (r.0 == HandleResult::NotHandled
            && r.1 is None && *final(ctx) == *old(ctx)),
        (code == KeyCode::Char('l') && old(ctx).link_mode is Some) ==> (r.0 == HandleResult::Handled
            && link_confirmed(*old(ctx), *final(ctx), r.1)),
{
    if code != KeyCode::Char('l') || ctx.link_mode.is_none() {
        return (HandleResult::NotHandled, None);
    }
    let effect = handle_link_confirm(ctx);
    (HandleResult::Handled, effect)
}

/// `n` is `c` after leaving link mode: the source's list is shown again.
pub open spec fn link_cancelled(c: HandlerContext, n: HandlerContext) -> bool {
    match c.link_mode {
        None => n == c,
        Some(lm) => n == HandlerContext {
            link_mode: None,
            display: ViewDisplayData { active_view: lm.source_view, ..c.display },
            ..c
        },
    }
}

/// Leaves link mode, showing the source's list again.
pub fn handle_link_cancel(ctx: &mut HandlerContext)
    ensures
        link_cancelled(*old(ctx), *final(ctx)),
{
    if let Some(lm) = ctx.link_mode.take() {
        ctx.display.active_view = lm.source_view;
    }
}

/// Starting link mode and then leaving it gives back the interface as it
/// was, on the list it was started from.
pub proof fn lemma_link_start_then_cancel(c: HandlerContext, n: HandlerContext, m: HandlerContext)
    requires
        c.link_mode is None,
        link_started(c, n),
        link_cancelled(n, m),
    ensures
        m == c,
{
}

} // verus!
