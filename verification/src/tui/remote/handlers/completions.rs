//! What the remote interface does once a background operation it asked
//! for has finished: the toasts, the error details and the state updates.
use vstd::prelude::*;

use crate::error::{error_text, JanusError};
use crate::remote::{remote_ref_text, same_query, Platform, RemoteIssue, RemoteQuery};
use crate::text::{concat, decimal, join_with, joined_with, owned};
use crate::tui::remote::error_toast::{Toast, ToastLevel};
use crate::tui::remote::operations::{
    build_sync_changes, change_view, push_error_message, push_error_ticket, sync_changes_of,
    PushError, PushResult,
};
use crate::tui::remote::state::{FilterConfigData, ViewDisplayData, ViewMode};
use crate::tui::remote::sync_preview::{
    SyncChangeWithContext, SyncDirection, SyncPreviewState,
};
use crate::types::TicketMetadata;

use super::context::{counted, toast_is, HandlerContext, HandlerEffect};
use super::global::fetches;

verus! {

broadcast use vstd::string::group_string_axioms;

/// One page of items of a listing, and whether more are available.
#[derive(Debug)]
pub struct PaginatedResult<T> {
    pub items: Vec<T>,
    pub has_more: bool,
    /// Number of items in all pages, when the platform tells it.
    pub total_count: Option<u64>,
}

/// How listing remote issues ended.
#[derive(Debug)]
pub enum FetchResult {
    Success(PaginatedResult<RemoteIssue>),
    /// The kind of error and its message.
    Error(String, String),
}

/// `n` is `c` once a listing asked for with a query that searched (when
/// `is_search`) or browsed ended with `result`: on success the issues are
/// shown with a toast counting them; on failure the error is kept for the
/// error modal and reported in a toast. Loading ends either way.
pub open spec fn fetch_done(c: HandlerContext, n: HandlerContext, is_search: bool, result: FetchResult) -> bool {
    let display = ViewDisplayData { remote_loading: false, ..c.display };
    match result {
        FetchResult::Success(page) => {
            let count = decimal(page.items@.len() as nat);
            &&& n == HandlerContext { remote_issues: page.items, display, toast: n.toast, ..c }
            &&& toast_is(
                n.toast,
                ToastLevel::Info,
                if is_search {
                    "Found "@ + count + " matches"@
                } else if page.has_more {
                    "Loaded "@ + count + " issues (more available)"@
                } else {
                    "Loaded "@ + count + " issues"@
                },
            )
        },
        FetchResult::Error(kind, message) => {
            &&& n == HandlerContext { display, toast: n.toast, last_error: n.last_error, ..c }
            &&& n.last_error matches Some((k, m)) && k@ == kind@ && m@ == message@
            &&& toast_is(n.toast, ToastLevel::Error, "Failed to fetch remote issues: "@ + message@)
        },
    }
}

/// Records how a listing of remote issues ended (see `fetch_done`).
pub fn fetch_finished(ctx: &mut HandlerContext, is_search: bool, result: FetchResult)
    ensures
        fetch_done(*old(ctx), *final(ctx), is_search, result),
{
    match result {
        FetchResult::Success(page) => {
            let n = page.items.len();
            let msg = if is_search {
                counted("Found ", n, " matches")
            } else if page.has_more {
                counted("Loaded ", n, " issues (more available)")
            } else {
                counted("Loaded ", n, " issues")
            };
            ctx.remote_issues = page.items;
            ctx.toast = Some(Toast::new(msg, ToastLevel::Info));
        },
        FetchResult::Error(kind, message) => {
            ctx.toast = Some(
                Toast::new(concat("Failed to fetch remote issues: ", message.as_str()), ToastLevel::Error),
            );
            ctx.last_error = Some((kind, message));
        },
    }
    ctx.display.remote_loading = false;
}

/// The query and platform of a search of the remote platform for `text`:
/// the active query, searching for `text`, or browsing when it is empty.
pub fn search_request(config: &FilterConfigData, text: &str) -> (r: (Platform, RemoteQuery))
    ensures
        r.0 == config.provider,
        same_query(
            r.1,
            RemoteQuery {
                search_text: if text@.len() > 0 {
                    r.1.search_text
                } else {
                    None
                },
                ..config.active_filters
            },
        ),
        text@.len() > 0 ==> (r.1.search_text matches Some(s) && s@ == text@),
        text@.len() == 0 ==> r.1.search_text is None,
{
    let mut query = config.active_filters.clone();
    if text.unicode_len() > 0 {
        query.search_text = Some(owned(text));
    } else {
        query.search_text = None;
    }
    (config.provider, query)
}

/// Whether the remote platform should be searched again: the remote list
/// is shown and the query changed since the last search.
pub fn remote_search_due(view: ViewMode, query: &str, last_query: &str) -> (r: bool)
    ensures
        r == (view == ViewMode::Remote && query@ != last_query@),
{
    view == ViewMode::Remote && !crate::text::str_eq(query, last_query)
}

/// The ids of `results`.
pub open spec fn result_ids(results: Seq<PushResult>) -> Seq<Seq<char>> {
    Seq::new(results.len(), |i: int| results[i].ticket_id@)
}

/// The tickets of `errors`.
pub open spec fn error_ids(errors: Seq<PushError>) -> Seq<Seq<char>> {
    Seq::new(errors.len(), |i: int| push_error_ticket(errors[i]))
}

/// The error lines of `errors`: each ticket with its message.
pub open spec fn error_lines(errors: Seq<PushError>) -> Seq<Seq<char>> {
    Seq::new(errors.len(), |i: int| push_error_ticket(errors[i]) + ": "@ + push_error_message(errors[i]))
}

/// The toast of a push that pushed `ok` and failed for `failed`: the first
/// failure when none succeeded; the ticket and its new issue for a single
/// success; the tickets for several; both lists when mixed.
pub open spec fn push_toast(ok: Seq<PushResult>, failed: Seq<PushError>) -> (ToastLevel, Seq<char>) {
    if ok.len() == 0 && failed.len() > 0 {
        (
            ToastLevel::Error,
            "Push failed for "@ + push_error_ticket(failed[0]) + ": "@ + push_error_message(failed[0]),
        )
    } else if failed.len() == 0 {
        if ok.len() == 1 {
            (ToastLevel::Info, "Pushed "@ + ok[0].ticket_id@ + " -> "@ + remote_ref_text(ok[0].remote_ref))
        } else {
            (
                ToastLevel::Info,
                "Pushed "@ + decimal(ok.len()) + " tickets: "@ + joined_with(result_ids(ok), ", "@),
            )
        }
    } else {
        (
            ToastLevel::Warning,
            "Pushed "@ + joined_with(result_ids(ok), ", "@) + ", failed: "@ + joined_with(
                error_ids(failed),
                ", "@,
            ),
        )
    }
}

/// `n` and `r` are what a finished push comes to from `c`: failures are
/// kept for the error modal, a toast sums up, the reloaded tickets are
/// shown with nothing selected, and the issues are listed again.
pub open spec fn push_done(
    c: HandlerContext,
    n: HandlerContext,
    r: HandlerEffect,
    ok: Seq<PushResult>,
    failed: Seq<PushError>,
    tickets: Vec<TicketMetadata>,
    provider: Platform,
    query: RemoteQuery,
) -> bool {
    let t = push_toast(ok, failed);
    &&& n == HandlerContext {
        local_tickets: tickets,
        local_nav: n.local_nav,
        toast: n.toast,
        last_error: n.last_error,
        ..c
    }
    &&& n.local_nav.selected_index == c.local_nav.selected_index
    &&& n.local_nav.scroll_offset == c.local_nav.scroll_offset
    &&& n.local_nav.selected_ids@ == Set::<Seq<char>>::empty()
    &&& failed.len() > 0 ==> (n.last_error matches Some((k, m)) && k@ == "Push Errors"@ && m@
        == joined_with(error_lines(failed), "\n"@))
    &&& failed.len() == 0 ==> n.last_error == c.last_error
    &&& toast_is(n.toast, t.0, t.1)
    &&& fetches(Some(r), provider, query)
}

/// The ids of `results`.
fn ids_of_results(results: &Vec<PushResult>) -> (r: Vec<String>)
    ensures
        r.deep_view() == result_ids(results@),
{
    let mut v: Vec<String> = Vec::new();
    let mut i: usize = 0;
    while i < results.len()
        invariant
            i <= results@.len(),
            v.deep_view() == result_ids(results@).take(i as int),
        decreases results@.len() - i,
    {
        let ghost before = v.deep_view();
        v.push(results[i].ticket_id.clone());
        assert(v.deep_view() =~= before.push(results@[i as int].ticket_id@));
        i = i + 1;
        assert(v.deep_view() =~= result_ids(results@).take(i as int));
    }
    assert(result_ids(results@).take(i as int) =~= result_ids(results@));
    v
}

/// The tickets of `errors`.
fn ids_of_errors(errors: &Vec<PushError>) -> (r: Vec<String>)
    ensures
        r.deep_view() == error_ids(errors@),
{
    let mut v: Vec<String> = Vec::new();
    let mut i: usize = 0;
    while i < errors.len()
        invariant
            i <= errors@.len(),
            v.deep_view() == error_ids(errors@).take(i as int),
        decreases errors@.len() - i,
    {
        let ghost before = v.deep_view();
        v.push(owned(errors[i].ticket_id()));
        assert(v.deep_view() =~= before.push(push_error_ticket(errors@[i as int])));
        i = i + 1;
        assert(v.deep_view() =~= error_ids(errors@).take(i as int));
    }
    assert(error_ids(errors@).take(i as int) =~= error_ids(errors@));
    v
}

/// The error lines of `errors`.
fn lines_of_errors(errors: &Vec<PushError>) -> (r: Vec<String>)
    ensures
        r.deep_view() == error_lines(errors@),
{
    let mut v: Vec<String> = Vec::new();
    let mut i: usize = 0;
    while i < errors.len()
        invariant
            i <= errors@.len(),
            v.deep_view() == error_lines(errors@).take(i as int),
        decreases errors@.len() - i,
    {
        let a = concat(errors[i].ticket_id(), ": ");
        let m = errors[i].error_message();
        let ghost before = v.deep_view();
        v.push(concat(a.as_str(), m.as_str()));
        assert(v.deep_view() =~= before.push(error_lines(errors@)[i as int]));
        i = i + 1;
        assert(v.deep_view() =~= error_lines(errors@).take(i as int));
    }
    assert(error_lines(errors@).take(i as int) =~= error_lines(errors@));
    v
}

/// Records how a push ended: the tickets pushed, the failures, and all
/// local tickets read again; asks to list the issues again with `provider`
/// and `query` (see `push_done`).
pub fn push_finished(
    ctx: &mut HandlerContext,
    successes: Vec<PushResult>,
    errors: Vec<PushError>,
    tickets: Vec<TicketMetadata>,
    provider: Platform,
    query: RemoteQuery,
) -> (r: HandlerEffect)
    ensures
        push_done(*old(ctx), *final(ctx), r, successes@, errors@, tickets, provider, query),
{
    if errors.len() > 0 {
        let lines = lines_of_errors(&errors);
        ctx.last_error = Some((owned("Push Errors"), join_with(&lines, "\n")));
    }
    let toast = if successes.len() == 0 && errors.len() > 0 {
        let a = concat("Push failed for ", errors[0].ticket_id());
        let b = concat(a.as_str(), ": ");
        let m = errors[0].error_message();
        Toast::new(concat(b.as_str(), m.as_str()), ToastLevel::Error)
    } else if errors.len() == 0 {
        if successes.len() == 1 {
            let a = concat("Pushed ", successes[0].ticket_id.as_str());
            let b = concat(a.as_str(), " -> ");
            let rr = successes[0].remote_ref.to_string();
            Toast::new(concat(b.as_str(), rr.as_str()), ToastLevel::Info)
        } else {
            let ids = ids_of_results(&successes);
            let a = counted("Pushed ", successes.len(), " tickets: ");
            let j = join_with(&ids, ", ");
            Toast::new(concat(a.as_str(), j.as_str()), ToastLevel::Info)
        }
    } else {
        let ok_ids = ids_of_results(&successes);
        let bad_ids = ids_of_errors(&errors);
        let a = concat("Pushed ", join_with(&ok_ids, ", ").as_str());
        let b = concat(a.as_str(), ", failed: ");
        Toast::new(concat(b.as_str(), join_with(&bad_ids, ", ").as_str()), ToastLevel::Warning)
    };
    ctx.toast = Some(toast);
    ctx.local_tickets = tickets;
    ctx.local_nav.clear_selection();
    HandlerEffect::Fetch { provider, query }
}

/// `n` is `c` once linking `ticket_id` to the issue `issue_id` ended with
/// `outcome`: on success a toast and the reloaded tickets; on failure an
/// error toast.
pub open spec fn link_done(
    c: HandlerContext,
    n: HandlerContext,
    ticket_id: Seq<char>,
    issue_id: Seq<char>,
    outcome: Result<Vec<TicketMetadata>, JanusError>,
) -> bool {
    match outcome {
        Ok(tickets) => n == HandlerContext { local_tickets: tickets, toast: n.toast, ..c } && toast_is(
            n.toast,
            ToastLevel::Info,
            "Linked "@ + ticket_id + " to "@ + issue_id,
        ),
        Err(e) => n == HandlerContext { toast: n.toast, ..c } && toast_is(
            n.toast,
            ToastLevel::Error,
            "Link failed: "@ + error_text(e),
        ),
    }
}

/// Records how linking a ticket to an issue ended: `Ok` with all local
/// tickets read again, or the error.
pub fn link_finished(
    ctx: &mut HandlerContext,
    ticket_id: &str,
    issue_id: &str,
    outcome: Result<Vec<TicketMetadata>, JanusError>,
)
    ensures
        link_done(*old(ctx), *final(ctx), ticket_id@, issue_id@, outcome),
{
    match outcome {
        Ok(tickets) => {
            let a = concat("Linked ", ticket_id);
            let b = concat(a.as_str(), " to ");
            ctx.toast = Some(Toast::new(concat(b.as_str(), issue_id), ToastLevel::Info));
            ctx.local_tickets = tickets;
        },
        Err(e) => {
            let t = e.to_string();
            ctx.toast = Some(Toast::new(concat("Link failed: ", t.as_str()), ToastLevel::Error));
        },
    }
}

/// The toast of an unlink that unlinked `done` tickets and failed for
/// those of `failures` (ticket and message).
pub open spec fn unlink_toast(done: nat, failures: Seq<(Seq<char>, Seq<char>)>) -> (ToastLevel, Seq<char>) {
    if failures.len() == 0 {
        (ToastLevel::Info, "Unlinked "@ + decimal(done) + " ticket(s)"@)
    } else if done > 0 {
        (
            ToastLevel::Warning,
            "Unlinked "@ + decimal(done) + ", failed "@ + decimal(failures.len()) + " (see logs)"@,
        )
    } else if failures.len() == 1 {
        (ToastLevel::Error, "Failed to unlink: "@ + failures[0].1)
    } else {
        (ToastLevel::Error, "Failed to unlink "@ + decimal(failures.len()) + " ticket(s) (see logs)"@)
    }
}

/// The failures as (ticket, message) texts.
pub open spec fn failure_texts(f: Seq<(String, String)>) -> Seq<(Seq<char>, Seq<char>)> {
    Seq::new(f.len(), |i: int| (f[i].0@, f[i].1@))
}

/// `n` is `c` once an unlink unlinked `done` tickets and failed for
/// `failures`: when any was unlinked, the reloaded tickets are shown with
/// nothing selected; a toast sums up.
pub open spec fn unlink_done(
    c: HandlerContext,
    n: HandlerContext,
    done: usize,
    failures: Seq<(String, String)>,
    tickets: Vec<TicketMetadata>,
) -> bool {
    let t = unlink_toast(done as nat, failure_texts(failures));
    &&& toast_is(n.toast, t.0, t.1)
    &&& done > 0 ==> {
        &&& n == HandlerContext { local_tickets: tickets, local_nav: n.local_nav, toast: n.toast, ..c }
        &&& n.local_nav.selected_index == c.local_nav.selected_index
        &&& n.local_nav.scroll_offset == c.local_nav.scroll_offset
        &&& n.local_nav.selected_ids@ == Set::<Seq<char>>::empty()
    }
    &&& done == 0 ==> n == HandlerContext { toast: n.toast, ..c }
}

/// Records how an unlink ended: the number of tickets unlinked, the
/// failures (ticket and message) and all local tickets read again.
pub fn unlink_finished(
    ctx: &mut HandlerContext,
    unlinked: usize,
    errors: Vec<(String, String)>,
    tickets: Vec<TicketMetadata>,
)
    ensures
        unlink_done(*old(ctx), *final(ctx), unlinked, errors@, tickets),
{
    if unlinked > 0 {
        ctx.local_tickets = tickets;
        ctx.local_nav.clear_selection();
    }
    assert(failure_texts(errors@).len() == errors@.len());
    let toast = if errors.len() == 0 {
        Toast::new(counted("Unlinked ", unlinked, " ticket(s)"), ToastLevel::Info)
    } else if unlinked > 0 {
        let a = counted("Unlinked ", unlinked, ", failed ");
        let b = counted("", errors.len(), " (see logs)");
        proof {
            reveal_strlit("");
            assert(""@ + decimal(errors@.len() as nat) =~= decimal(errors@.len() as nat));
        }
        let msg = concat(a.as_str(), b.as_str());
        assert(msg@ =~= "Unlinked "@ + decimal(unlinked as nat) + ", failed "@ + decimal(
            errors@.len() as nat,
        ) + " (see logs)"@);
        Toast::new(msg, ToastLevel::Warning)
    } else if errors.len() == 1 {
        assert(failure_texts(errors@)[0].1 == errors@[0].1@);
        Toast::new(concat("Failed to unlink: ", errors[0].1.as_str()), ToastLevel::Error)
    } else {
        Toast::new(counted("Failed to unlink ", errors.len(), " ticket(s) (see logs)"), ToastLevel::Error)
    };
    ctx.toast = Some(toast);
}

/// `n` and `r` are what applying a sync review comes to from `c`, with
/// `applied` changes applied and `failures` messages: failures are kept for
/// the error modal; when any change was applied, a toast counts them, the
/// reloaded tickets are shown and the issues listed again; when none was
/// and some failed, an error toast.
pub open spec fn sync_apply_done(
    c: HandlerContext,
    n: HandlerContext,
    r: Option<HandlerEffect>,
    applied: usize,
    failures: Seq<Seq<char>>,
    tickets: Vec<TicketMetadata>,
    provider: Platform,
    query: RemoteQuery,
) -> bool {
    &&& failures.len() > 0 ==> (n.last_error matches Some((k, m)) && k@ == "SyncApplyError"@ && m@
        == joined_with(failures, "\n"@))
    &&& failures.len() == 0 ==> n.last_error == c.last_error
    &&& if applied > 0 {
        &&& n == HandlerContext { local_tickets: tickets, toast: n.toast, last_error: n.last_error, ..c }
        &&& toast_is(n.toast, ToastLevel::Info, "Applied "@ + decimal(applied as nat) + " change(s)"@)
        &&& fetches(r, provider, query)
    } else if failures.len() > 0 {
        &&& n == HandlerContext { toast: n.toast, last_error: n.last_error, ..c }
        &&& toast_is(n.toast, ToastLevel::Error, "Failed to apply changes"@)
        &&& r is None
    } else {
        n == c && r is None
    }
}

/// Records how applying a sync review ended (see `sync_apply_done`).
pub fn sync_apply_finished(
    ctx: &mut HandlerContext,
    applied: usize,
    errors: Vec<String>,
    tickets: Vec<TicketMetadata>,
    provider: Platform,
    query: RemoteQuery,
) -> (r: Option<HandlerEffect>)
    ensures
        sync_apply_done(*old(ctx), *final(ctx), r, applied, errors.deep_view(), tickets, provider, query),
{
    if errors.len() > 0 {
        ctx.last_error = Some((owned("SyncApplyError"), join_with(&errors, "\n")));
    }
    if applied > 0 {
        ctx.toast = Some(Toast::new(counted("Applied ", applied, " change(s)"), ToastLevel::Info));
        ctx.local_tickets = tickets;
        Some(HandlerEffect::Fetch { provider, query })
    } else {
        if errors.len() > 0 {
            ctx.toast = Some(Toast::error("Failed to apply changes"));
        }
        None
    }
}

/// A change to review, as (ticket, remote reference, change).
pub type ReviewItem = (Seq<char>, Seq<char>, (Seq<char>, Seq<char>, Seq<char>, SyncDirection));

/// The remote reference of a ticket, or nothing.
pub open spec fn remote_text(t: TicketMetadata) -> Seq<char> {
    match t.remote {
        Some(r) => r@,
        None => Seq::empty(),
    }
}

/// What fetching ticket `id` with result `res` adds to the review: the
/// changes from the remote issue to the ticket.
pub open spec fn review_items(id: Seq<char>, res: Result<(TicketMetadata, RemoteIssue), JanusError>) -> Seq<
    ReviewItem,
> {
    match res {
        Ok((t, issue)) => match sync_changes_of(t, issue, SyncDirection::RemoteToLocal, true) {
            Ok(cs) => Seq::new(cs.len(), |k: int| (id, remote_text(t), cs[k])),
            Err(_) => Seq::empty(),
        },
        Err(_) => Seq::empty(),
    }
}

/// The error line that fetching ticket `id` with result `res` adds, if any.
pub open spec fn review_errors(id: Seq<char>, res: Result<(TicketMetadata, RemoteIssue), JanusError>) -> Seq<
    Seq<char>,
> {
    match res {
        Ok((t, issue)) => match sync_changes_of(t, issue, SyncDirection::RemoteToLocal, true) {
            Ok(_) => Seq::empty(),
            Err(msg) => seq!["Failed to build sync changes for "@ + id + ": "@ + msg],
        },
        Err(e) => seq!["Failed to fetch remote for "@ + id + ": "@ + error_text(e)],
    }
}

/// The review items of the first `n` results.
pub open spec fn all_review_items(
    results: Seq<(String, Result<(TicketMetadata, RemoteIssue), JanusError>)>,
    n: nat,
) -> Seq<ReviewItem>
    decreases n,
{
    if n == 0 {
        Seq::empty()
    } else {
        all_review_items(results, (n - 1) as nat) + review_items(results[n - 1].0@, results[n - 1].1)
    }
}

/// The error lines of the first `n` results.
pub open spec fn all_review_errors(
    results: Seq<(String, Result<(TicketMetadata, RemoteIssue), JanusError>)>,
    n: nat,
) -> Seq<Seq<char>>
    decreases n,
{
    if n == 0 {
        Seq::empty()
    } else {
        all_review_errors(results, (n - 1) as nat) + review_errors(results[n - 1].0@, results[n - 1].1)
    }
}

/// The review item of a change in context.
pub open spec fn item_of(c: SyncChangeWithContext) -> ReviewItem {
    (c.ticket_id@, c.remote_ref@, change_view(c.change))
}

/// `n` is `c` once the remote side of the tickets to sync was fetched
/// with `results`: failures are kept for the error modal; with no change
/// found a toast says so, otherwise the review opens on the changes found,
/// none decided yet.
pub open spec fn sync_fetch_done(
    c: HandlerContext,
    n: HandlerContext,
    results: Seq<(String, Result<(TicketMetadata, RemoteIssue), JanusError>)>,
) -> bool {
    let items = all_review_items(results, results.len());
    let errors = all_review_errors(results, results.len());
    &&& n == HandlerContext {
        toast: n.toast,
        last_error: n.last_error,
        sync_preview: n.sync_preview,
        ..c
    }
    &&& errors.len() > 0 ==> (n.last_error matches Some((k, m)) && k@ == "SyncError"@ && m@
        == joined_with(errors, "\n"@))
    &&& errors.len() == 0 ==> n.last_error == c.last_error
    &&& items.len() == 0 ==> n.sync_preview == c.sync_preview && toast_is(
        n.toast,
        ToastLevel::Info,
        "No differences found between local and remote"@,
    )
    &&& items.len() > 0 ==> {
        &&& n.sync_preview matches Some(p) && p.current_change_index == 0 && p.scroll_offset == 0
            && p.changes@.len() == items.len() && forall|k: int|
            0 <= k < items.len() ==> item_of(#[trigger] p.changes@[k]) == items[k]
            && p.changes@[k].decision is None
        &&& toast_is(n.toast, ToastLevel::Info, "Found "@ + decimal(items.len()) + " change(s) to review"@)
    }
}

/// Records the remote side fetched for the tickets to sync (see
/// `sync_fetch_done`).
pub fn sync_fetch_finished(
    ctx: &mut HandlerContext,
    results: Vec<(String, Result<(TicketMetadata, RemoteIssue), JanusError>)>,
)
    ensures
        sync_fetch_done(*old(ctx), *final(ctx), results@),
{
    let mut changes: Vec<SyncChangeWithContext> = Vec::new();
    let mut errors: Vec<String> = Vec::new();
    let mut i: usize = 0;
    while i < results.len()
        invariant
            i <= results@.len(),
            changes@.len() == all_review_items(results@, i as nat).len(),
            forall|k: int|
                0 <= k < changes@.len() ==> item_of(#[trigger] changes@[k]) == all_review_items(
                    results@,
                    i as nat,
                )[k] && changes@[k].decision is None,
            errors.deep_view() == all_review_errors(results@, i as nat),
        decreases results@.len() - i,
    {
        let id = &results[i].0;
        let ghost before_items = all_review_items(results@, i as nat);
        let ghost before_changes = changes@;
        let ghost before_errors = errors.deep_view();
        match &results[i].1 {
            Ok((t, issue)) => {
                match build_sync_changes(t, issue) {
                    Ok(found) => {
                        let remote_ref = match &t.remote {
                            Some(r) => r.clone(),
                            None => String::new(),
                        };
                        let mut k: usize = 0;
                        while k < found.len()
                            invariant
                                k <= found@.len(),
                                changes@.len() == before_changes.len() + k,
                                forall|j: int| 0 <= j < before_changes.len() ==> #[trigger] changes@[j] == before_changes[j],
                                forall|j: int|
                                    0 <= j < k ==> item_of(#[trigger] changes@[before_changes.len() + j]) == (
                                        id@,
                                        remote_text(*t),
                                        change_view(found@[j]),
                                    ) && changes@[before_changes.len() + j].decision is None,
                                remote_ref@ == remote_text(*t),
                            decreases found@.len() - k,
                        {
                            changes.push(
                                SyncChangeWithContext {
                                    ticket_id: id.clone(),
                                    remote_ref: remote_ref.clone(),
                                    change: found[k].clone(),
                                    decision: None,
                                },
                            );
                            k = k + 1;
                        }
                        assert(review_items(id@, results@[i as int].1) =~= Seq::new(
                            found@.len(),
                            |j: int| (id@, remote_text(*t), change_view(found@[j])),
                        ));
                        assert forall|q: int|
                            0 <= q < changes@.len() implies item_of(#[trigger] changes@[q]) == (before_items
                                + review_items(id@, results@[i as int].1))[q] && changes@[q].decision is None by {
                            if q >= before_changes.len() {
                                let j = q - before_changes.len();
                                assert(item_of(changes@[before_changes.len() + j]) == (
                                    id@,
                                    remote_text(*t),
                                    change_view(found@[j]),
                                ));
                            } else {
                                assert(changes@[q] == before_changes[q]);
                            }
                        }
                    },
                    Err(e) => {
                        assert(review_items(id@, results@[i as int].1) =~= Seq::<ReviewItem>::empty());
                        let a = concat("Failed to build sync changes for ", id.as_str());
                        let b = concat(a.as_str(), ": ");
                        let m = e.to_string();
                        errors.push(concat(b.as_str(), m.as_str()));
                    },
                }
            },
            Err(e) => {
                assert(review_items(id@, results@[i as int].1) =~= Seq::<ReviewItem>::empty());
                let a = concat("Failed to fetch remote for ", id.as_str());
                let b = concat(a.as_str(), ": ");
                let m = e.to_string();
                errors.push(concat(b.as_str(), m.as_str()));
            },
        }
        assert(errors.deep_view() =~= before_errors + review_errors(results@[i as int].0@, results@[i as int].1));
        assert(all_review_items(results@, (i + 1) as nat) == before_items + review_items(
            results@[i as int].0@,
            results@[i as int].1,
        ));
        assert(changes@.len() == before_changes.len() + review_items(
            results@[i as int].0@,
            results@[i as int].1,
        ).len());
        i = i + 1;
    }
    if errors.len() > 0 {
        ctx.last_error = Some((owned("SyncError"), join_with(&errors, "\n")));
    }
    if changes.len() == 0 {
        ctx.toast = Some(Toast::info("No differences found between local and remote"));
    } else {
        ctx.toast = Some(Toast::new(counted("Found ", changes.len(), " change(s) to review"), ToastLevel::Info));
        ctx.sync_preview = Some(SyncPreviewState::new(changes));
    }
}

/// Closes the sync review without applying anything.
pub fn cancel_sync(ctx: &mut HandlerContext)
    ensures
        *final(ctx) == (HandlerContext { sync_preview: None, toast: final(ctx).toast, ..*old(ctx) }),
        toast_is(final(ctx).toast, ToastLevel::Info, "Sync cancelled"@),
{
    ctx.sync_preview = None;
    ctx.toast = Some(Toast::info("Sync cancelled"));
}

} // verus!
