//! Handlers that act on the whole remote interface: refreshing, switching
//! platform, the filter modal and confirmations.
use vstd::prelude::*;

use crate::remote::{platform_name, same_query, Platform, RemoteQuery};
use crate::text::{concat, decimal};
use crate::tui::remote::confirm_modal::ConfirmAction;
use crate::tui::remote::error_toast::{Toast, ToastLevel};
use crate::tui::remote::filter_modal::FilterState;
use crate::tui::remote::state::{FilterConfigData, ViewDisplayData};

use super::context::{counted, toast_is, HandlerContext, HandlerEffect};

verus! {

/// `r` fetches the issues of `provider` with a query asking what `query`
/// asks.
pub open spec fn fetches(r: Option<HandlerEffect>, provider: Platform, query: RemoteQuery) -> bool {
    r matches Some(HandlerEffect::Fetch { provider: p, query: q }) && p == provider && same_query(
        q,
        query,
    )
}

/// `c` with the remote issues marked as loading and the toast replaced.
pub open spec fn loading_with_toast(c: HandlerContext, toast_holder: HandlerContext) -> HandlerContext {
    HandlerContext {
        display: ViewDisplayData { remote_loading: true, ..c.display },
        toast: toast_holder.toast,
        ..c
    }
}

/// `n` and `r` are what a refresh comes to from `c`: unless issues are
/// already loading, they are fetched again with the active query and
/// platform, with a toast.
pub open spec fn refreshed(c: HandlerContext, n: HandlerContext, r: Option<HandlerEffect>) -> bool {
    if c.display.remote_loading {
        n == c && r is None
    } else {
        &&& n == loading_with_toast(c, n)
        &&& toast_is(n.toast, ToastLevel::Info, "Refreshing remote issues..."@)
        &&& fetches(r, c.config.provider, c.config.active_filters)
    }
}

/// Fetches the remote issues again, unless they are already loading.
pub fn handle_refresh(ctx: &mut HandlerContext) -> (r: Option<HandlerEffect>)
    ensures
        refreshed(*old(ctx), *final(ctx), r),
{
    if ctx.display.remote_loading {
        return None;
    }
    ctx.display.remote_loading = true;
    ctx.toast = Some(Toast::info("Refreshing remote issues..."));
    let provider = ctx.config.provider;
    let query = ctx.config.active_filters.clone();
    Some(HandlerEffect::Fetch { provider, query })
}

/// The other platform.
pub open spec fn other_platform(p: Platform) -> Platform {
    match p {
        Platform::GitHub => Platform::Linear,
        Platform::Linear => Platform::GitHub,
    }
}

/// `n` and `r` are what switching platform comes to from `c`: the other
/// platform becomes active, both lists go back to the top with nothing
/// selected, the remote issues are dropped and fetched from the new
/// platform with the active query, and a toast names the platform.
pub open spec fn provider_switched(c: HandlerContext, n: HandlerContext, r: Option<HandlerEffect>) -> bool {
    let p = other_platform(c.config.provider);
    &&& n == HandlerContext {
        config: FilterConfigData { provider: p, ..c.config },
        local_nav: n.local_nav,
        remote_nav: n.remote_nav,
        remote_issues: n.remote_issues,
        display: ViewDisplayData { remote_loading: true, ..c.display },
        toast: n.toast,
        ..c
    }
    &&& n.remote_issues@.len() == 0
    &&& n.local_nav.selected_index == 0 && n.local_nav.scroll_offset == 0
        && n.local_nav.selected_ids@ == Set::<Seq<char>>::empty()
    &&& n.remote_nav.selected_index == 0 && n.remote_nav.scroll_offset == 0
        && n.remote_nav.selected_ids@ == Set::<Seq<char>>::empty()
    &&& toast_is(n.toast, ToastLevel::Info, "Switched to "@ + platform_name(p))
    &&& fetches(r, p, c.config.active_filters)
}

/// Switches to the other platform and lists its issues.
pub fn handle_switch_provider(ctx: &mut HandlerContext) -> (r: Option<HandlerEffect>)
    ensures
        provider_switched(*old(ctx), *final(ctx), r),
{
    let p = match ctx.config.provider {
        Platform::GitHub => Platform::Linear,
        Platform::Linear => Platform::GitHub,
    };
    ctx.config.provider = p;
    ctx.local_nav.reset();
    ctx.remote_nav.reset();
    ctx.remote_issues = Vec::new();
    ctx.display.remote_loading = true;
    let query = ctx.config.active_filters.clone();
    let name = p.to_string();
    ctx.toast = Some(Toast::new(concat("Switched to ", name.as_str()), ToastLevel::Info));
    Some(HandlerEffect::Fetch { provider: p, query })
}

/// Opens the filter modal on the settings of the active query.
pub fn handle_open_filter(ctx: &mut HandlerContext)
    ensures
        *final(ctx) == (HandlerContext { filter_modal: final(ctx).filter_modal, ..*old(ctx) }),
        final(ctx).filter_modal matches Some(s) && s.limit == old(ctx).config.active_filters.limit,
{
    ctx.filter_modal = Some(FilterState::from_query(&ctx.config.active_filters));
}

/// `n` and `r` are what applying the filter modal comes to from `c`: the
/// settings become the active query, the modal closes and the issues are
/// fetched again with a toast. Without the modal nothing happens.
pub open spec fn filters_applied(c: HandlerContext, n: HandlerContext, r: Option<HandlerEffect>) -> bool {
    match c.filter_modal {
        None => n == c && r is None,
        Some(s) => {
            let q = RemoteQuery { limit: s.limit, ..c.config.active_filters };
            &&& n == HandlerContext {
                config: FilterConfigData { active_filters: n.config.active_filters, ..c.config },
                filter_modal: None,
                display: ViewDisplayData { remote_loading: true, ..c.display },
                toast: n.toast,
                ..c
            }
            &&& same_query(n.config.active_filters, q)
            &&& toast_is(n.toast, ToastLevel::Info, "Applying settings..."@)
            &&& fetches(r, c.config.provider, q)
        },
    }
}

/// Applies the settings of the filter modal (see `filters_applied`).
pub fn handle_filter_enter(ctx: &mut HandlerContext) -> (r: Option<HandlerEffect>)
    ensures
        filters_applied(*old(ctx), *final(ctx), r),
{
    match ctx.filter_modal {
        None => None,
        Some(s) => {
            let new_query = s.to_query(&ctx.config.active_filters);
            let sent = new_query.clone();
            ctx.config.active_filters = new_query;
            ctx.filter_modal = None;
            ctx.display.remote_loading = true;
            ctx.toast = Some(Toast::info("Applying settings..."));
            Some(HandlerEffect::Fetch { provider: ctx.config.provider, query: sent })
        },
    }
}

/// Resets the settings in the filter modal, when it is open.
pub fn handle_filter_clear(ctx: &mut HandlerContext)
    ensures
        old(ctx).filter_modal is None ==> *final(ctx) == *old(ctx),
        old(ctx).filter_modal is Some ==> *final(ctx) == (HandlerContext {
            filter_modal: Some(FilterState { limit: 100 }),
            ..*old(ctx)
        }),
{
    if let Some(mut s) = ctx.filter_modal {
        s.clear();
        ctx.filter_modal = Some(s);
    }
}

/// `n` and `r` are what confirming comes to from `c`: an unlink asked for
/// is started with a toast saying how many tickets; the dialog closes.
pub open spec fn confirmed(c: HandlerContext, n: HandlerContext, r: Option<HandlerEffect>) -> bool {
    match c.confirm_dialog {
        None => n == HandlerContext { confirm_dialog: None, ..c } && r is None,
        Some(d) => match d.action {
            ConfirmAction::Unlink(ids) => {
                &&& n == HandlerContext { confirm_dialog: None, toast: n.toast, ..c }
                &&& toast_is(
                    n.toast,
                    ToastLevel::Info,
                    "Unlinking "@ + decimal(ids@.len() as nat) + " ticket(s)..."@,
                )
                &&& r matches Some(HandlerEffect::Unlink { ticket_ids }) && ticket_ids == ids
            },
        },
    }
}

/// Carries out the confirmed action and closes the dialog.
pub fn handle_confirm_yes(ctx: &mut HandlerContext) -> (r: Option<HandlerEffect>)
    ensures
        confirmed(*old(ctx), *final(ctx), r),
{
    match ctx.confirm_dialog.take() {
        None => None,
        Some(d) => match d.action {
            ConfirmAction::Unlink(ids) => {
                ctx.toast = Some(Toast::new(counted("Unlinking ", ids.len(), " ticket(s)..."), ToastLevel::Info));
                Some(HandlerEffect::Unlink { ticket_ids: ids })
            },
        },
    }
}

} // verus!
