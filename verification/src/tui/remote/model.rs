//! State, actions and view model of the remote interface.
//!
//! `reduce_remote_state` applies an action to the state; the actions that
//! need network or editor work change nothing here and are carried out by
//! the caller. `compute_remote_view_model` derives what is drawn.
use vstd::prelude::*;

use crate::remote::{
    DEFAULT_QUERY_LIMIT, Platform, RemoteIssue, RemoteQuery, platform_name, same_issue,
};
use crate::text::owned;
use crate::tui::components::{Shortcut, shortcut_texts};
use crate::tui::keys::{KeyCode, KeyModifiers, modifier_bits};
use crate::tui::navigation::{lemma_scrolled_visible, scrolled, visible};
use crate::types::{TicketMetadata, opt_text, same_ticket};

use super::error_toast::Toast;
use super::filter::{
    FilteredLocalTicket, FilteredRemoteIssue, filter_local_tickets, filter_remote_issues,
    local_list_of, local_ranking, remote_list_of, remote_ranking,
};
use super::filter_modal::FilterState;
use super::link_mode::{LinkModeState, same_link_mode};
use super::shortcuts::{ModalVisibility, compute_shortcuts, remote_shortcut_keys};
use super::state::{IdSet, ViewMode, other_view};
use super::sync_preview::{SyncChangeWithContext, SyncPreviewState, same_preview, toggled_decision};

verus! {

broadcast use vstd::string::group_string_axioms;

// ============================================================================
// State
// ============================================================================

/// Everything the remote interface holds while the user works in it.
#[derive(Debug, Clone)]
pub struct RemoteState {
    /// All local tickets.
    pub local_tickets: Vec<TicketMetadata>,
    /// All remote issues fetched.
    pub remote_issues: Vec<RemoteIssue>,
    /// The list shown.
    pub active_view: ViewMode,
    /// Whether the detail pane is shown.
    pub show_detail: bool,
    /// Selected row of the local list.
    pub local_selected_index: usize,
    /// First row shown of the local list.
    pub local_scroll_offset: usize,
    /// Ids of local tickets selected for bulk operations.
    pub local_selected_ids: IdSet,
    /// Selected row of the remote list.
    pub remote_selected_index: usize,
    /// First row shown of the remote list.
    pub remote_scroll_offset: usize,
    /// Ids of remote issues selected for bulk operations.
    pub remote_selected_ids: IdSet,
    /// Text of the search box.
    pub search_query: String,
    /// Whether the search box has the focus.
    pub search_focused: bool,
    /// Notification shown, if any.
    pub toast: Option<Toast>,
    /// Link mode, when a link is being made.
    pub link_mode: Option<LinkModeState>,
    /// Sync preview, when changes are being reviewed.
    pub sync_preview: Option<SyncPreviewState>,
    /// Filter modal, when open.
    pub filter_modal: Option<FilterState>,
    /// Whether the help modal is open.
    pub show_help_modal: bool,
    /// Whether the error modal is open.
    pub show_error_modal: bool,
    /// Last error, as (title, message).
    pub last_error: Option<(String, String)>,
    /// The query issues are listed with.
    pub active_filters: RemoteQuery,
    /// The platform issues come from.
    pub provider: Platform,
    /// Whether data is loading.
    pub is_loading: bool,
    /// Whether the interface should close.
    pub should_exit: bool,
}

/// `s` is the state the interface starts in: no data, local list, nothing
/// selected or open, no filters, GitHub.
pub open spec fn is_initial_state(s: RemoteState) -> bool {
    &&& s.local_tickets@.len() == 0
    &&& s.remote_issues@.len() == 0
    &&& s.active_view == ViewMode::Local
    &&& !s.show_detail
    &&& s.local_selected_index == 0
    &&& s.local_scroll_offset == 0
    &&& s.local_selected_ids@ == Set::<Seq<char>>::empty()
    &&& s.remote_selected_index == 0
    &&& s.remote_scroll_offset == 0
    &&& s.remote_selected_ids@ == Set::<Seq<char>>::empty()
    &&& s.search_query@.len() == 0
    &&& !s.search_focused
    &&& s.toast is None
    &&& s.link_mode is None
    &&& s.sync_preview is None
    &&& s.filter_modal is None
    &&& !s.show_help_modal
    &&& !s.show_error_modal
    &&& s.last_error is None
    &&& s.active_filters.status is None
    &&& s.active_filters.assignee is None
    &&& s.active_filters.labels is None
    &&& s.active_filters.limit == DEFAULT_QUERY_LIMIT
    &&& s.active_filters.search_text is None
    &&& s.provider == Platform::GitHub
    &&& !s.is_loading
    &&& !s.should_exit
}

impl Default for RemoteState {
    fn default() -> (r: Self)
        ensures
            is_initial_state(r),
    {
        RemoteState {
            local_tickets: Vec::new(),
            remote_issues: Vec::new(),
            active_view: ViewMode::Local,
            show_detail: false,
            local_selected_index: 0,
            local_scroll_offset: 0,
            local_selected_ids: IdSet::new(),
            remote_selected_index: 0,
            remote_scroll_offset: 0,
            remote_selected_ids: IdSet::new(),
            search_query: String::new(),
            search_focused: false,
            toast: None,
            link_mode: None,
            sync_preview: None,
            filter_modal: None,
            show_help_modal: false,
            show_error_modal: false,
            last_error: None,
            active_filters: RemoteQuery::new(),
            provider: Platform::GitHub,
            is_loading: false,
            should_exit: false,
        }
    }
}

// ============================================================================
// Actions
// ============================================================================

/// What the user can do in the remote interface.
#[derive(Debug, Clone, PartialEq, Eq)]
pub enum RemoteAction {
    MoveUp,
    MoveDown,
    MoveUpExtendSelection,
    MoveDownExtendSelection,
    GoToTop,
    GoToBottom,
    /// Half a page up.
    PageUp,
    /// Half a page down.
    PageDown,
    ToggleView,
    ToggleDetail,
    ToggleSelection,
    SelectAll,
    ClearSelection,
    FocusSearch,
    UpdateSearch(String),
    /// Leave the search box, keeping the query.
    ExitSearch,
    /// Clear the query and leave the search box.
    ClearSearchAndExit,
    ShowHelp,
    HideHelp,
    ShowFilterModal,
    HideFilterModal,
    ShowErrorModal,
    HideErrorModal,
    DismissToast,
    StartLinkMode,
    CancelLinkMode,
    ConfirmLink,
    SelectLinkTarget(usize),
    StartSync,
    CancelSync,
    ApplySync,
    ToggleSyncItem(usize),
    Fetch,
    Push,
    EditLocal,
    OpenRemote,
    Unlink,
    Quit,
}

// ============================================================================
// The lists as the reducer sees them
// ============================================================================

/// The ids of the rows of the local list, as filtered by the search query.
pub open spec fn local_rows(s: RemoteState) -> Seq<Option<Seq<char>>> {
    let rk = local_ranking(s.local_tickets@, s.search_query@);
    Seq::new(rk.len(), |j: int| opt_text(s.local_tickets@[rk[j].0].id))
}

/// The ids of the rows of the remote list, as filtered by the search query.
pub open spec fn remote_rows(s: RemoteState) -> Seq<Option<Seq<char>>> {
    let rk = remote_ranking(s.remote_issues@, s.search_query@);
    Seq::new(rk.len(), |j: int| Some(s.remote_issues@[rk[j].0].id@))
}

/// Navigation of the local list: selected row, first row shown, selected ids.
pub open spec fn local_nav(s: RemoteState) -> (usize, usize, Set<Seq<char>>) {
    (s.local_selected_index, s.local_scroll_offset, s.local_selected_ids@)
}

/// Navigation of the remote list.
pub open spec fn remote_nav(s: RemoteState) -> (usize, usize, Set<Seq<char>>) {
    (s.remote_selected_index, s.remote_scroll_offset, s.remote_selected_ids@)
}

/// `sel` moved down by `by` rows, stopping on the last of `count`.
pub open spec fn step_down(sel: usize, by: nat, count: nat) -> usize {
    if sel + by < count {
        (sel + by) as usize
    } else {
        (count - 1) as usize
    }
}

/// `sel` moved up by `by` rows, stopping on the first.
pub open spec fn step_up(sel: usize, by: nat) -> usize {
    if sel >= by {
        (sel - by) as usize
    } else {
        0
    }
}

/// `ids` with the id of row `i` added, when that row exists and has one.
pub open spec fn with_row(ids: Set<Seq<char>>, rows: Seq<Option<Seq<char>>>, i: usize) -> Set<Seq<char>> {
    if i < rows.len() && rows[i as int] is Some {
        ids.insert(rows[i as int]->0)
    } else {
        ids
    }
}

/// `ids` with the id of row `i` toggled, when that row exists and has one.
pub open spec fn toggled_row(ids: Set<Seq<char>>, rows: Seq<Option<Seq<char>>>, i: usize) -> Set<Seq<char>> {
    if i < rows.len() && rows[i as int] is Some {
        let id = rows[i as int]->0;
        if ids.contains(id) {
            ids.remove(id)
        } else {
            ids.insert(id)
        }
    } else {
        ids
    }
}

/// The ids of all rows that have one.
pub open spec fn row_ids(rows: Seq<Option<Seq<char>>>) -> Set<Seq<char>> {
    Set::new(|x: Seq<char>| exists|j: int| 0 <= j < rows.len() && rows[j] == Some(x))
}

/// Actions that move through or select in the list shown.
pub open spec fn is_list_action(a: RemoteAction) -> bool {
    ||| a is MoveUp
    ||| a is MoveDown
    ||| a is MoveUpExtendSelection
    ||| a is MoveDownExtendSelection
    ||| a is GoToTop
    ||| a is GoToBottom
    ||| a is PageUp
    ||| a is PageDown
    ||| a is ToggleSelection
    ||| a is SelectAll
    ||| a is ClearSelection
}

/// The navigation of a list of `rows` after a list action, in a window of
/// `h` rows.
pub open spec fn list_step(
    a: RemoteAction,
    nav: (usize, usize, Set<Seq<char>>),
    rows: Seq<Option<Seq<char>>>,
    h: usize,
) -> (usize, usize, Set<Seq<char>>) {
    let sel = nav.0;
    let scroll = nav.1;
    let ids = nav.2;
    let count = rows.len();
    match a {
        RemoteAction::MoveUp => {
            let s = step_up(sel, 1);
            (s, scrolled(scroll, s, h), ids)
        },
        RemoteAction::MoveDown => if count > 0 {
            let s = step_down(sel, 1, count);
            (s, scrolled(scroll, s, h), ids)
        } else {
            nav
        },
        RemoteAction::MoveUpExtendSelection => {
            let s = step_up(sel, 1);
            (s, scrolled(scroll, s, h), with_row(with_row(ids, rows, sel), rows, s))
        },
        RemoteAction::MoveDownExtendSelection => if count > 0 {
            let s = step_down(sel, 1, count);
            (s, scrolled(scroll, s, h), with_row(with_row(ids, rows, sel), rows, s))
        } else {
            nav
        },
        RemoteAction::GoToTop => (0, 0, ids),
        RemoteAction::GoToBottom => if count > 0 {
            let s = (count - 1) as usize;
            (s, scrolled(scroll, s, h), ids)
        } else {
            nav
        },
        RemoteAction::PageUp => {
            let s = step_up(sel, (h / 2) as nat);
            (s, scrolled(scroll, s, h), ids)
        },
        RemoteAction::PageDown => if count > 0 {
            let s = step_down(sel, (h / 2) as nat, count);
            (s, scrolled(scroll, s, h), ids)
        } else {
            nav
        },
        RemoteAction::ToggleSelection => (sel, scroll, toggled_row(ids, rows, sel)),
        RemoteAction::SelectAll => (sel, scroll, ids.union(row_ids(rows))),
        RemoteAction::ClearSelection => (sel, scroll, Set::<Seq<char>>::empty()),
        _ => nav,
    }
}

/// The navigation of the local list after `a`.
pub open spec fn next_local_nav(s: RemoteState, a: RemoteAction, h: usize) -> (usize, usize, Set<Seq<char>>) {
    if a is UpdateSearch || a is ClearSearchAndExit {
        (0, 0, s.local_selected_ids@)
    } else if is_list_action(a) && s.active_view == ViewMode::Local {
        list_step(a, local_nav(s), local_rows(s), h)
    } else {
        local_nav(s)
    }
}

/// The navigation of the remote list after `a`.
pub open spec fn next_remote_nav(s: RemoteState, a: RemoteAction, h: usize) -> (usize, usize, Set<Seq<char>>) {
    if a is UpdateSearch || a is ClearSearchAndExit {
        (0, 0, s.remote_selected_ids@)
    } else if is_list_action(a) && s.active_view == ViewMode::Remote {
        list_step(a, remote_nav(s), remote_rows(s), h)
    } else {
        remote_nav(s)
    }
}

/// Link mode can start: the local list is shown and its selected row is a
/// ticket with an id.
pub open spec fn link_can_start(s: RemoteState) -> bool {
    &&& s.active_view == ViewMode::Local
    &&& s.local_selected_index < local_rows(s).len()
    &&& local_rows(s)[s.local_selected_index as int] is Some
}

/// The title link mode shows for the selected local ticket ("Untitled"
/// when it has none).
pub open spec fn link_title(s: RemoteState) -> Seq<char> {
    let rk = local_ranking(s.local_tickets@, s.search_query@);
    match s.local_tickets@[rk[s.local_selected_index as int].0].title {
        Some(t) => t@,
        None => "Untitled"@,
    }
}

/// The list shown after `a`.
pub open spec fn next_view(s: RemoteState, a: RemoteAction) -> ViewMode {
    match a {
        RemoteAction::ToggleView => other_view(s.active_view),
        RemoteAction::StartLinkMode => if link_can_start(s) {
            ViewMode::Remote
        } else {
            s.active_view
        },
        RemoteAction::CancelLinkMode => match s.link_mode {
            Some(l) => l.source_view,
            None => s.active_view,
        },
        _ => s.active_view,
    }
}

/// How `a` changes the state `s` into `t`, with a window of `h` rows.
pub open spec fn remote_step(s: RemoteState, t: RemoteState, a: RemoteAction, h: usize) -> bool {
    &&& local_nav(t) == next_local_nav(s, a, h)
    &&& remote_nav(t) == next_remote_nav(s, a, h)
    &&& t.local_tickets == s.local_tickets
    &&& t.remote_issues == s.remote_issues
    &&& t.active_view == next_view(s, a)
    &&& t.show_detail == (if a is ToggleDetail {
        !s.show_detail
    } else {
        s.show_detail
    })
    &&& t.search_query@ == match a {
        RemoteAction::UpdateSearch(q) => q@,
        RemoteAction::ClearSearchAndExit => Seq::<char>::empty(),
        _ => s.search_query@,
    }
    &&& t.search_focused == match a {
        RemoteAction::FocusSearch => true,
        RemoteAction::ExitSearch => false,
        RemoteAction::ClearSearchAndExit => false,
        _ => s.search_focused,
    }
    &&& t.toast == (if a is DismissToast {
        None
    } else {
        s.toast
    })
    &&& match a {
        RemoteAction::StartLinkMode => if link_can_start(s) {
            &&& t.link_mode is Some
            &&& t.link_mode->0.source_view == ViewMode::Local
            &&& Some(t.link_mode->0.source_id@) == local_rows(s)[s.local_selected_index as int]
            &&& t.link_mode->0.source_title@ == link_title(s)
        } else {
            t.link_mode == s.link_mode
        },
        RemoteAction::CancelLinkMode => t.link_mode is None,
        _ => t.link_mode == s.link_mode,
    }
    &&& match a {
        RemoteAction::CancelSync => t.sync_preview is None,
        RemoteAction::ToggleSyncItem(i) => match s.sync_preview {
            Some(p) => {
                &&& t.sync_preview is Some
                &&& t.sync_preview->0.current_change_index == p.current_change_index
                &&& t.sync_preview->0.scroll_offset == p.scroll_offset
                &&& t.sync_preview->0.changes@ == if i < p.changes@.len() {
                    p.changes@.update(
                        i as int,
                        SyncChangeWithContext {
                            decision: toggled_decision(p.changes@[i as int].decision),
                            ..p.changes@[i as int]
                        },
                    )
                } else {
                    p.changes@
                }
            },
            None => t.sync_preview is None,
        },
        _ => t.sync_preview == s.sync_preview,
    }
    &&& t.filter_modal == match a {
        RemoteAction::ShowFilterModal => Some(FilterState { limit: s.active_filters.limit }),
        RemoteAction::HideFilterModal => None,
        _ => s.filter_modal,
    }
    &&& t.show_help_modal == match a {
        RemoteAction::ShowHelp => true,
        RemoteAction::HideHelp => false,
        _ => s.show_help_modal,
    }
    &&& t.show_error_modal == match a {
        RemoteAction::ShowErrorModal => true,
        RemoteAction::HideErrorModal => false,
        _ => s.show_error_modal,
    }
    &&& t.last_error == s.last_error
    &&& t.active_filters == s.active_filters
    &&& t.provider == s.provider
    &&& t.is_loading == s.is_loading
    &&& t.should_exit == (a is Quit || s.should_exit)
}

// ============================================================================
// The reducer
// ============================================================================

/// The characters of the optional strings of `rows`.
pub open spec fn rows_view(rows: Seq<Option<String>>) -> Seq<Option<Seq<char>>> {
    Seq::new(rows.len(), |j: int| opt_text(rows[j]))
}

/// Copies of the ids of the rows of the local list.
fn local_row_ids(filtered: &Vec<FilteredLocalTicket>) -> (r: Vec<Option<String>>)
    ensures
        rows_view(r@) == Seq::new(filtered@.len(), |j: int| opt_text(filtered@[j].ticket.id)),
{
    let mut r: Vec<Option<String>> = Vec::new();
    let mut j: usize = 0;
    while j < filtered.len()
        invariant
            j <= filtered@.len(),
            r@.len() == j,
            forall|k: int| 0 <= k < j ==> opt_text(#[trigger] r@[k]) == opt_text(filtered@[k].ticket.id),
        decreases filtered@.len() - j,
    {
        r.push(crate::types::clone_opt_string(&filtered[j].ticket.id));
        j = j + 1;
    }
    assert(rows_view(r@) =~= Seq::new(filtered@.len(), |j: int| opt_text(filtered@[j].ticket.id)));
    r
}

/// Copies of the ids of the rows of the remote list.
fn remote_row_ids(filtered: &Vec<FilteredRemoteIssue>) -> (r: Vec<Option<String>>)
    ensures
        rows_view(r@) == Seq::new(filtered@.len(), |j: int| Some(filtered@[j].issue.id@)),
{
    let mut r: Vec<Option<String>> = Vec::new();
    let mut j: usize = 0;
    while j < filtered.len()
        invariant
            j <= filtered@.len(),
            r@.len() == j,
            forall|k: int| 0 <= k < j ==> opt_text(#[trigger] r@[k]) == Some(filtered@[k].issue.id@),
        decreases filtered@.len() - j,
    {
        r.push(Some(filtered[j].issue.id.clone()));
        j = j + 1;
    }
    assert(rows_view(r@) =~= Seq::new(filtered@.len(), |j: int| Some(filtered@[j].issue.id@)));
    r
}

/// Adds the id of row `i` to `ids`, when that row exists and has one.
fn add_row(ids: &mut IdSet, rows: &Vec<Option<String>>, i: usize)
    ensures
        final(ids)@ == with_row(old(ids)@, rows_view(rows@), i),
{
    if i < rows.len() {
        match &rows[i] {
            Some(id) => {
                ids.insert(id.clone());
            },
            None => {},
        }
    }
}

/// Applies a list action to one list.
fn apply_list_action(
    action: &RemoteAction,
    sel: &mut usize,
    scroll: &mut usize,
    ids: &mut IdSet,
    rows: &Vec<Option<String>>,
    list_height: usize,
)
    requires
        is_list_action(*action),
    ensures
        (*final(sel), *final(scroll), final(ids)@) == list_step(
            *action,
            (*old(sel), *old(scroll), old(ids)@),
            rows_view(rows@),
            list_height,
        ),
{
    let count = rows.len();
    let jump = list_height / 2;
    match action {
        RemoteAction::MoveUp => {
            crate::tui::navigation::scroll_up(sel, scroll, list_height);
        },
        RemoteAction::MoveDown => {
            crate::tui::navigation::scroll_down(sel, scroll, count, list_height);
        },
        RemoteAction::MoveUpExtendSelection => {
            add_row(ids, rows, *sel);
            crate::tui::navigation::scroll_up(sel, scroll, list_height);
            add_row(ids, rows, *sel);
        },
        RemoteAction::MoveDownExtendSelection => {
            if count > 0 {
                add_row(ids, rows, *sel);
                crate::tui::navigation::scroll_down(sel, scroll, count, list_height);
                add_row(ids, rows, *sel);
            }
        },
        RemoteAction::GoToTop => {
            crate::tui::navigation::scroll_to_top(sel, scroll);
        },
        RemoteAction::GoToBottom => {
            crate::tui::navigation::scroll_to_bottom(sel, scroll, count, list_height);
        },
        RemoteAction::PageUp => {
            crate::tui::navigation::page_up(sel, scroll, list_height);
        },
        RemoteAction::PageDown => {
            crate::tui::navigation::page_down(sel, scroll, count, list_height);
        },
        RemoteAction::ToggleSelection => {
            if *sel < count {
                match &rows[*sel] {
                    Some(id) => {
                        if ids.contains(id.as_str()) {
                            ids.remove(id.as_str());
                        } else {
                            ids.insert(id.clone());
                        }
                    },
                    None => {},
                }
            }
        },
        RemoteAction::SelectAll => {
            let ghost start = ids@;
            let mut j: usize = 0;
            while j < count
                invariant
                    count == rows@.len(),
                    j <= count,
                    ids@ == start.union(row_ids(rows_view(rows@).take(j as int))),
                decreases count - j,
            {
                let ghost before = ids@;
                match &rows[j] {
                    Some(id) => {
                        ids.insert(id.clone());
                    },
                    None => {},
                }
                proof {
                    let rv = rows_view(rows@);
                    assert forall|x: Seq<char>| #[trigger] row_ids(rv.take(j + 1)).contains(x) <==> (
                    row_ids(rv.take(j as int)).contains(x) || rv[j as int] == Some(x)) by {
                        if row_ids(rv.take(j + 1)).contains(x) {
                            let k = choose|k: int| 0 <= k < j + 1 && #[trigger] rv.take(j + 1)[k] == Some(x);
                            if k < j {
                                assert(rv.take(j as int)[k] == Some(x));
                            }
                        }
                        if row_ids(rv.take(j as int)).contains(x) {
                            let k = choose|k: int| 0 <= k < j && #[trigger] rv.take(j as int)[k] == Some(x);
                            assert(rv.take(j + 1)[k] == Some(x));
                        }
                        if rv[j as int] == Some(x) {
                            assert(rv.take(j + 1)[j as int] == Some(x));
                        }
                    }
                    assert(ids@ =~= start.union(row_ids(rv.take(j + 1))));
                }
                j = j + 1;
            }
            proof {
                assert(rows_view(rows@).take(count as int) =~= rows_view(rows@));
            }
        },
        RemoteAction::ClearSelection => {
            ids.clear();
        },
        _ => {},
    }
}

/// Applies `action` to the state (see `remote_step`). Actions that need
/// network or editor work (fetch, push, edit, open, unlink, confirming a
/// link, starting or applying a sync) change nothing here.
pub fn reduce_remote_state(state: RemoteState, action: RemoteAction, list_height: usize) -> (r:
    RemoteState)
    ensures
        remote_step(state, r, action, list_height),
{
    let ghost s0 = state;
    let mut state = state;
    let filtered_local = filter_local_tickets(state.local_tickets.as_slice(), state.search_query.as_str());
    let filtered_remote = filter_remote_issues(state.remote_issues.as_slice(), state.search_query.as_str());
    let local_rows_v = local_row_ids(&filtered_local);
    let remote_rows_v = remote_row_ids(&filtered_remote);
    proof {
        assert(rows_view(local_rows_v@) =~= local_rows(s0));
        assert(rows_view(remote_rows_v@) =~= remote_rows(s0));
    }
    if is_list_action_exec(&action) {
        match state.active_view {
            ViewMode::Local => {
                apply_list_action(
                    &action,
                    &mut state.local_selected_index,
                    &mut state.local_scroll_offset,
                    &mut state.local_selected_ids,
                    &local_rows_v,
                    list_height,
                );
            },
            ViewMode::Remote => {
                apply_list_action(
                    &action,
                    &mut state.remote_selected_index,
                    &mut state.remote_scroll_offset,
                    &mut state.remote_selected_ids,
                    &remote_rows_v,
                    list_height,
                );
            },
        }
        return state;
    }
    match action {
        RemoteAction::ToggleView => {
            state.active_view = state.active_view.toggle();
        },
        RemoteAction::ToggleDetail => {
            state.show_detail = !state.show_detail;
        },
        RemoteAction::FocusSearch => {
            state.search_focused = true;
        },
        RemoteAction::UpdateSearch(query) => {
            state.search_query = query;
            state.local_selected_index = 0;
            state.local_scroll_offset = 0;
            state.remote_selected_index = 0;
            state.remote_scroll_offset = 0;
        },
        RemoteAction::ExitSearch => {
            state.search_focused = false;
        },
        RemoteAction::ClearSearchAndExit => {
            state.search_query = String::new();
            state.search_focused = false;
            state.local_selected_index = 0;
            state.local_scroll_offset = 0;
            state.remote_selected_index = 0;
            state.remote_scroll_offset = 0;
        },
        RemoteAction::ShowHelp => {
            state.show_help_modal = true;
        },
        RemoteAction::HideHelp => {
            state.show_help_modal = false;
        },
        RemoteAction::ShowFilterModal => {
            state.filter_modal = Some(FilterState::from_query(&state.active_filters));
        },
        RemoteAction::HideFilterModal => {
            state.filter_modal = None;
        },
        RemoteAction::ShowErrorModal => {
            state.show_error_modal = true;
        },
        RemoteAction::HideErrorModal => {
            state.show_error_modal = false;
        },
        RemoteAction::DismissToast => {
            state.toast = None;
        },
        RemoteAction::StartLinkMode => {
            if state.active_view == ViewMode::Local && state.local_selected_index
                < filtered_local.len() {
                let row = &filtered_local[state.local_selected_index];
                match &row.ticket.id {
                    Some(id) => {
                        let title = match &row.ticket.title {
                            Some(t) => t.clone(),
                            None => owned("Untitled"),
                        };
                        state.link_mode = Some(
                            LinkModeState::new(ViewMode::Local, id.clone(), title),
                        );
                        state.active_view = ViewMode::Remote;
                    },
                    None => {},
                }
            }
        },
        RemoteAction::CancelLinkMode => {
            match &state.link_mode {
                Some(link) => {
                    state.active_view = link.source_view;
                },
                None => {},
            }
            state.link_mode = None;
        },
        RemoteAction::CancelSync => {
            state.sync_preview = None;
        },
        RemoteAction::ToggleSyncItem(index) => {
            match &mut state.sync_preview {
                Some(preview) => {
                    preview.toggle_decision(index);
                },
                None => {},
            }
        },
        RemoteAction::Quit => {
            state.should_exit = true;
        },
        _ => {},
    }
    state
}

/// Whether `a` moves through or selects in the list shown.
fn is_list_action_exec(a: &RemoteAction) -> (r: bool)
    ensures
        r == is_list_action(*a),
{
    match a {
        RemoteAction::MoveUp | RemoteAction::MoveDown | RemoteAction::MoveUpExtendSelection
        | RemoteAction::MoveDownExtendSelection | RemoteAction::GoToTop | RemoteAction::GoToBottom
        | RemoteAction::PageUp | RemoteAction::PageDown | RemoteAction::ToggleSelection
        | RemoteAction::SelectAll | RemoteAction::ClearSelection => true,
        _ => false,
    }
}

/// Keeps the selected index visible (see `scrolled`).
pub fn adjust_scroll(scroll_offset: usize, selected_index: usize, list_height: usize) -> (r: usize)
    ensures
        r == scrolled(scroll_offset, selected_index, list_height),
{
    crate::tui::navigation::adjust_scroll(scroll_offset, selected_index, list_height)
}


// ============================================================================
// Key mapping
// ============================================================================

/// No modifier is held.
pub open spec fn no_mods(m: KeyModifiers) -> bool {
    modifier_bits(m) == 0
}

/// The action of a key while the search box has the focus: Esc clears and
/// leaves, Enter leaves, Ctrl-Q quits; other keys go to the search box.
pub open spec fn search_mode_action(code: KeyCode, m: KeyModifiers) -> Option<RemoteAction> {
    match code {
        KeyCode::Esc => Some(RemoteAction::ClearSearchAndExit),
        KeyCode::Enter => Some(RemoteAction::ExitSearch),
        KeyCode::Char(c) => if c == 'q' && crate::tui::keys::has_control(m) {
            Some(RemoteAction::Quit)
        } else {
            None
        },
        _ => None,
    }
}

/// The action of a key when no modal is open and the search box does not
/// have the focus.
pub open spec fn normal_mode_action(code: KeyCode, m: KeyModifiers) -> Option<RemoteAction> {
    if crate::tui::keys::has_shift(m) {
        match code {
            KeyCode::Char(c) => if c == 'J' || c == 'j' {
                Some(RemoteAction::MoveDownExtendSelection)
            } else if c == 'K' || c == 'k' {
                Some(RemoteAction::MoveUpExtendSelection)
            } else if c == 'G' || c == 'g' {
                Some(RemoteAction::GoToBottom)
            } else if c == 'P' || c == 'p' {
                Some(RemoteAction::Push)
            } else {
                None
            },
            _ => None,
        }
    } else {
        match code {
            KeyCode::PageUp => Some(RemoteAction::PageUp),
            KeyCode::PageDown => Some(RemoteAction::PageDown),
            _ => if !no_mods(m) {
                None
            } else {
                match code {
                    KeyCode::Down => Some(RemoteAction::MoveDown),
                    KeyCode::Up => Some(RemoteAction::MoveUp),
                    KeyCode::Tab => Some(RemoteAction::ToggleView),
                    KeyCode::Enter => Some(RemoteAction::EditLocal),
                    KeyCode::Esc => Some(RemoteAction::Quit),
                    KeyCode::Char(c) => char_action(c),
                    _ => None,
                }
            },
        }
    }
}

/// The action of a character key without modifiers in normal mode.
pub open spec fn char_action(c: char) -> Option<RemoteAction> {
    if c == 'j' {
        Some(RemoteAction::MoveDown)
    } else if c == 'k' {
        Some(RemoteAction::MoveUp)
    } else if c == 'g' {
        Some(RemoteAction::GoToTop)
    } else if c == 'G' {
        Some(RemoteAction::GoToBottom)
    } else if c == 'd' {
        Some(RemoteAction::ToggleDetail)
    } else if c == ' ' {
        Some(RemoteAction::ToggleSelection)
    } else if c == '/' {
        Some(RemoteAction::FocusSearch)
    } else if c == 'r' {
        Some(RemoteAction::Fetch)
    } else if c == 's' {
        Some(RemoteAction::StartSync)
    } else if c == 'l' {
        Some(RemoteAction::StartLinkMode)
    } else if c == 'u' {
        Some(RemoteAction::Unlink)
    } else if c == 'e' {
        Some(RemoteAction::EditLocal)
    } else if c == 'o' {
        Some(RemoteAction::OpenRemote)
    } else if c == 'f' {
        Some(RemoteAction::ShowFilterModal)
    } else if c == '?' {
        Some(RemoteAction::ShowHelp)
    } else if c == 'q' {
        Some(RemoteAction::Quit)
    } else {
        None
    }
}

/// The action of a key in the state `s`: the first open modal takes the
/// key (help, error, sync preview, link mode, filter), then the search box,
/// then the lists.
pub open spec fn remote_key_action(code: KeyCode, m: KeyModifiers, s: RemoteState) -> Option<RemoteAction> {
    if s.show_help_modal {
        match code {
            KeyCode::Esc => Some(RemoteAction::HideHelp),
            KeyCode::Char(c) => if c == '?' {
                Some(RemoteAction::HideHelp)
            } else {
                None
            },
            _ => None,
        }
    } else if s.show_error_modal {
        if code == KeyCode::Esc {
            Some(RemoteAction::HideErrorModal)
        } else {
            None
        }
    } else if s.sync_preview is Some {
        match code {
            KeyCode::Esc => Some(RemoteAction::CancelSync),
            KeyCode::Enter => Some(RemoteAction::ApplySync),
            KeyCode::Down => Some(RemoteAction::MoveDown),
            KeyCode::Up => Some(RemoteAction::MoveUp),
            KeyCode::Char(c) => if c == 'c' {
                Some(RemoteAction::CancelSync)
            } else if c == 'y' {
                Some(RemoteAction::ApplySync)
            } else if c == ' ' || c == 'n' {
                Some(RemoteAction::ToggleSyncItem(s.sync_preview->0.current_change_index))
            } else if c == 'j' {
                Some(RemoteAction::MoveDown)
            } else if c == 'k' {
                Some(RemoteAction::MoveUp)
            } else {
                None
            },
            _ => None,
        }
    } else if s.link_mode is Some {
        match code {
            KeyCode::Esc => Some(RemoteAction::CancelLinkMode),
            KeyCode::Enter => Some(RemoteAction::ConfirmLink),
            KeyCode::Down => Some(RemoteAction::MoveDown),
            KeyCode::Up => Some(RemoteAction::MoveUp),
            KeyCode::Char(c) => if c == 'j' {
                Some(RemoteAction::MoveDown)
            } else if c == 'k' {
                Some(RemoteAction::MoveUp)
            } else {
                None
            },
            _ => None,
        }
    } else if s.filter_modal is Some {
        if code == KeyCode::Esc {
            Some(RemoteAction::HideFilterModal)
        } else {
            None
        }
    } else if s.search_focused {
        search_mode_action(code, m)
    } else {
        normal_mode_action(code, m)
    }
}

fn search_key_to_action(code: KeyCode, modifiers: KeyModifiers) -> (r: Option<RemoteAction>)
    ensures
        r == search_mode_action(code, modifiers),
{
    match code {
        KeyCode::Esc => Some(RemoteAction::ClearSearchAndExit),
        KeyCode::Enter => Some(RemoteAction::ExitSearch),
        KeyCode::Char(c) => {
            if c == 'q' && modifiers.contains(KeyModifiers::CONTROL) {
                Some(RemoteAction::Quit)
            } else {
                None
            }
        },
        _ => None,
    }
}

fn char_to_action(c: char) -> (r: Option<RemoteAction>)
    ensures
        r == char_action(c),
{
    match c {
        'j' => Some(RemoteAction::MoveDown),
        'k' => Some(RemoteAction::MoveUp),
        'g' => Some(RemoteAction::GoToTop),
        'G' => Some(RemoteAction::GoToBottom),
        'd' => Some(RemoteAction::ToggleDetail),
        ' ' => Some(RemoteAction::ToggleSelection),
        '/' => Some(RemoteAction::FocusSearch),
        'r' => Some(RemoteAction::Fetch),
        's' => Some(RemoteAction::StartSync),
        'l' => Some(RemoteAction::StartLinkMode),
        'u' => Some(RemoteAction::Unlink),
        'e' => Some(RemoteAction::EditLocal),
        'o' => Some(RemoteAction::OpenRemote),
        'f' => Some(RemoteAction::ShowFilterModal),
        '?' => Some(RemoteAction::ShowHelp),
        'q' => Some(RemoteAction::Quit),
        _ => None,
    }
}

fn normal_key_to_action(code: KeyCode, modifiers: KeyModifiers) -> (r: Option<RemoteAction>)
    ensures
        r == normal_mode_action(code, modifiers),
{
    if modifiers.contains(KeyModifiers::SHIFT) {
        return match code {
            KeyCode::Char('J') | KeyCode::Char('j') => Some(RemoteAction::MoveDownExtendSelection),
            KeyCode::Char('K') | KeyCode::Char('k') => Some(RemoteAction::MoveUpExtendSelection),
            KeyCode::Char('G') | KeyCode::Char('g') => Some(RemoteAction::GoToBottom),
            KeyCode::Char('P') | KeyCode::Char('p') => Some(RemoteAction::Push),
            _ => None,
        };
    }
    match code {
        KeyCode::PageUp => Some(RemoteAction::PageUp),
        KeyCode::PageDown => Some(RemoteAction::PageDown),
        _ => {
            if !modifiers.is_empty() {
                None
            } else {
                match code {
                    KeyCode::Down => Some(RemoteAction::MoveDown),
                    KeyCode::Up => Some(RemoteAction::MoveUp),
                    KeyCode::Tab => Some(RemoteAction::ToggleView),
                    KeyCode::Enter => Some(RemoteAction::EditLocal),
                    KeyCode::Esc => Some(RemoteAction::Quit),
                    KeyCode::Char(c) => char_to_action(c),
                    _ => None,
                }
            }
        },
    }
}

/// The action of a key in the state `state` (see `remote_key_action`);
/// `None` when the key means nothing here.
pub fn key_to_action(code: KeyCode, modifiers: KeyModifiers, state: &RemoteState) -> (r: Option<
    RemoteAction,
>)
    ensures
        r == remote_key_action(code, modifiers, *state),
{
    if state.show_help_modal {
        return match code {
            KeyCode::Esc | KeyCode::Char('?') => Some(RemoteAction::HideHelp),
            _ => None,
        };
    }
    if state.show_error_modal {
        return match code {
            KeyCode::Esc => Some(RemoteAction::HideErrorModal),
            _ => None,
        };
    }
    match &state.sync_preview {
        Some(preview) => {
            return match code {
                KeyCode::Esc | KeyCode::Char('c') => Some(RemoteAction::CancelSync),
                KeyCode::Enter | KeyCode::Char('y') => Some(RemoteAction::ApplySync),
                KeyCode::Char(' ') | KeyCode::Char('n') => Some(
                    RemoteAction::ToggleSyncItem(preview.current_change_index),
                ),
                KeyCode::Char('j') | KeyCode::Down => Some(RemoteAction::MoveDown),
                KeyCode::Char('k') | KeyCode::Up => Some(RemoteAction::MoveUp),
                _ => None,
            };
        },
        None => {},
    }
    if state.link_mode.is_some() {
        return match code {
            KeyCode::Esc => Some(RemoteAction::CancelLinkMode),
            KeyCode::Enter => Some(RemoteAction::ConfirmLink),
            KeyCode::Char('j') | KeyCode::Down => Some(RemoteAction::MoveDown),
            KeyCode::Char('k') | KeyCode::Up => Some(RemoteAction::MoveUp),
            _ => None,
        };
    }
    if state.filter_modal.is_some() {
        return match code {
            KeyCode::Esc => Some(RemoteAction::HideFilterModal),
            _ => None,
        };
    }
    if state.search_focused {
        return search_key_to_action(code, modifiers);
    }
    normal_key_to_action(code, modifiers)
}


// ============================================================================
// View model
// ============================================================================

/// Everything drawn by the remote interface.
#[derive(Debug, Clone)]
pub struct RemoteViewModel {
    pub header: HeaderViewModel,
    pub local_list: LocalListViewModel,
    pub remote_list: RemoteListViewModel,
    pub detail: DetailViewModel,
    pub search: SearchViewModel,
    pub modal: ModalViewModel,
    pub toast: Option<Toast>,
    pub shortcuts: Vec<Shortcut>,
    pub is_loading: bool,
}

/// The header bar.
#[derive(Debug, Clone)]
pub struct HeaderViewModel {
    /// Name of the platform.
    pub platform_name: String,
    /// Number of local tickets.
    pub local_count: usize,
    /// Number of remote issues.
    pub remote_count: usize,
    /// Whether the remote query filters anything.
    pub has_active_filters: bool,
}

/// The local list.
#[derive(Debug, Clone)]
pub struct LocalListViewModel {
    pub tickets: Vec<FilteredLocalTicket>,
    pub selected_index: usize,
    pub scroll_offset: usize,
    pub is_focused: bool,
    pub selected_ids: IdSet,
    /// Number of rows shown.
    pub visible_count: usize,
}

/// The remote list.
#[derive(Debug, Clone)]
pub struct RemoteListViewModel {
    pub issues: Vec<FilteredRemoteIssue>,
    pub selected_index: usize,
    pub scroll_offset: usize,
    pub is_focused: bool,
    pub selected_ids: IdSet,
    /// Number of rows shown.
    pub visible_count: usize,
}

/// The detail pane.
#[derive(Debug, Clone)]
pub struct DetailViewModel {
    /// The selected local ticket.
    pub local_ticket: Option<TicketMetadata>,
    /// The selected remote issue.
    pub remote_issue: Option<RemoteIssue>,
    pub is_visible: bool,
    pub view_mode: ViewMode,
}

/// The search box.
#[derive(Debug, Clone)]
pub struct SearchViewModel {
    pub query: String,
    pub is_focused: bool,
    /// Number of rows of the list shown.
    pub result_count: usize,
}

/// The modals.
#[derive(Debug, Clone)]
pub struct ModalViewModel {
    pub show_help: bool,
    pub show_filter: bool,
    pub filter_state: Option<FilterState>,
    pub show_error: bool,
    /// Error as (title, message).
    pub error: Option<(String, String)>,
    pub link_mode_active: bool,
    pub link_mode_state: Option<LinkModeState>,
    pub sync_preview_active: bool,
    pub sync_preview_state: Option<SyncPreviewState>,
}

/// Which modals are open in `s`, for the footer shortcuts.
pub open spec fn modals_of(s: RemoteState) -> ModalVisibility {
    ModalVisibility {
        show_help_modal: s.show_help_modal,
        show_error_modal: s.show_error_modal,
        show_sync_preview: s.sync_preview is Some,
        show_confirm_dialog: false,
        show_link_mode: s.link_mode is Some,
        show_filter: s.filter_modal is Some,
        search_focused: s.search_focused,
    }
}

/// A list has the keyboard focus: it is shown, and neither the search box
/// nor link mode nor the sync preview holds the focus.
pub open spec fn list_focused(s: RemoteState, view: ViewMode) -> bool {
    s.active_view == view && !s.search_focused && s.link_mode is None && s.sync_preview is None
}

/// `a` and `b` hold the same optional pair of texts.
pub open spec fn same_error(a: Option<(String, String)>, b: Option<(String, String)>) -> bool {
    match (a, b) {
        (Some(x), Some(y)) => x.0@ == y.0@ && x.1@ == y.1@,
        (None, None) => true,
        _ => false,
    }
}

/// `vm` is what is drawn for the state `s` with lists of `h` rows.
pub open spec fn remote_view_of(vm: RemoteViewModel, s: RemoteState, h: usize) -> bool {
    let lrk = local_ranking(s.local_tickets@, s.search_query@);
    let rrk = remote_ranking(s.remote_issues@, s.search_query@);
    let lcount = lrk.len();
    let rcount = rrk.len();
    &&& vm.header.platform_name@ == platform_name(s.provider)
    &&& vm.header.local_count == s.local_tickets@.len()
    &&& vm.header.remote_count == s.remote_issues@.len()
    &&& vm.header.has_active_filters == (s.active_filters.status is Some
        || s.active_filters.assignee is Some || s.active_filters.labels is Some)
    &&& local_list_of(vm.local_list.tickets@, s.local_tickets@, s.search_query@)
    &&& vm.local_list.selected_index == s.local_selected_index
    &&& vm.local_list.scroll_offset == s.local_scroll_offset
    &&& vm.local_list.is_focused == list_focused(s, ViewMode::Local)
    &&& vm.local_list.selected_ids@ == s.local_selected_ids@
    &&& vm.local_list.visible_count == if h < lcount {
        h as nat
    } else {
        lcount
    }
    &&& remote_list_of(vm.remote_list.issues@, s.remote_issues@, s.search_query@)
    &&& vm.remote_list.selected_index == s.remote_selected_index
    &&& vm.remote_list.scroll_offset == s.remote_scroll_offset
    &&& vm.remote_list.is_focused == list_focused(s, ViewMode::Remote)
    &&& vm.remote_list.selected_ids@ == s.remote_selected_ids@
    &&& vm.remote_list.visible_count == if h < rcount {
        h as nat
    } else {
        rcount
    }
    &&& (vm.detail.local_ticket is Some <==> s.local_selected_index < lcount)
    &&& vm.detail.local_ticket is Some ==> same_ticket(
        vm.detail.local_ticket->0,
        s.local_tickets@[lrk[s.local_selected_index as int].0],
    )
    &&& (vm.detail.remote_issue is Some <==> s.remote_selected_index < rcount)
    &&& vm.detail.remote_issue is Some ==> same_issue(
        vm.detail.remote_issue->0,
        s.remote_issues@[rrk[s.remote_selected_index as int].0],
    )
    &&& vm.detail.is_visible == s.show_detail
    &&& vm.detail.view_mode == s.active_view
    &&& vm.search.query@ == s.search_query@
    &&& vm.search.is_focused == s.search_focused
    &&& vm.search.result_count == if s.active_view == ViewMode::Local {
        lcount
    } else {
        rcount
    }
    &&& vm.modal.show_help == s.show_help_modal
    &&& vm.modal.show_filter == s.filter_modal is Some
    &&& vm.modal.filter_state == s.filter_modal
    &&& vm.modal.show_error == s.show_error_modal
    &&& same_error(vm.modal.error, s.last_error)
    &&& vm.modal.link_mode_active == s.link_mode is Some
    &&& (vm.modal.link_mode_state is Some <==> s.link_mode is Some)
    &&& vm.modal.link_mode_state is Some ==> same_link_mode(
        vm.modal.link_mode_state->0,
        s.link_mode->0,
    )
    &&& vm.modal.sync_preview_active == s.sync_preview is Some
    &&& (vm.modal.sync_preview_state is Some <==> s.sync_preview is Some)
    &&& vm.modal.sync_preview_state is Some ==> same_preview(
        vm.modal.sync_preview_state->0,
        s.sync_preview->0,
    )
    &&& (vm.toast is Some <==> s.toast is Some)
    &&& vm.toast is Some ==> {
        &&& vm.toast->0.message@ == s.toast->0.message@
        &&& vm.toast->0.level == s.toast->0.level
        &&& vm.toast->0.timestamp == s.toast->0.timestamp
    }
    &&& shortcut_texts(vm.shortcuts@) == remote_shortcut_keys(modals_of(s), s.active_view)
    &&& vm.is_loading == s.is_loading
}

/// Computes what is drawn for `state` with lists of `list_height` rows
/// (see `remote_view_of`).
pub fn compute_remote_view_model(state: &RemoteState, list_height: usize) -> (r: RemoteViewModel)
    ensures
        remote_view_of(r, *state, list_height),
{
    let filtered_local = filter_local_tickets(state.local_tickets.as_slice(), state.search_query.as_str());
    let filtered_remote = filter_remote_issues(state.remote_issues.as_slice(), state.search_query.as_str());
    let local_count = filtered_local.len();
    let remote_count = filtered_remote.len();
    let ghost lrk = local_ranking(state.local_tickets@, state.search_query@);
    let ghost rrk = remote_ranking(state.remote_issues@, state.search_query@);
    let selected_local_ticket = if state.local_selected_index < local_count {
        assert(0 <= lrk[state.local_selected_index as int].0);
        Some(filtered_local[state.local_selected_index].ticket.clone())
    } else {
        None
    };
    let selected_remote_issue = if state.remote_selected_index < remote_count {
        assert(0 <= rrk[state.remote_selected_index as int].0);
        Some(filtered_remote[state.remote_selected_index].issue.clone())
    } else {
        None
    };
    let shortcuts = compute_shortcuts(
        &ModalVisibility {
            show_help_modal: state.show_help_modal,
            show_error_modal: state.show_error_modal,
            show_sync_preview: state.sync_preview.is_some(),
            show_confirm_dialog: false,
            show_link_mode: state.link_mode.is_some(),
            show_filter: state.filter_modal.is_some(),
            search_focused: state.search_focused,
        },
        state.active_view,
    );
    let has_active_filters = state.active_filters.status.is_some()
        || state.active_filters.assignee.is_some() || state.active_filters.labels.is_some();
    let result_count = match state.active_view {
        ViewMode::Local => local_count,
        ViewMode::Remote => remote_count,
    };
    let local_focused = state.active_view == ViewMode::Local && !state.search_focused
        && state.link_mode.is_none() && state.sync_preview.is_none();
    let remote_focused = state.active_view == ViewMode::Remote && !state.search_focused
        && state.link_mode.is_none() && state.sync_preview.is_none();
    let error = match &state.last_error {
        Some(e) => Some((e.0.clone(), e.1.clone())),
        None => None,
    };
    let link_mode_state = match &state.link_mode {
        Some(l) => Some(l.clone()),
        None => None,
    };
    let sync_preview_state = match &state.sync_preview {
        Some(p) => Some(p.clone()),
        None => None,
    };
    let toast = match &state.toast {
        Some(t) => Some(t.clone()),
        None => None,
    };
    RemoteViewModel {
        header: HeaderViewModel {
            platform_name: state.provider.to_string(),
            local_count: state.local_tickets.len(),
            remote_count: state.remote_issues.len(),
            has_active_filters,
        },
        local_list: LocalListViewModel {
            tickets: filtered_local,
            selected_index: state.local_selected_index,
            scroll_offset: state.local_scroll_offset,
            is_focused: local_focused,
            selected_ids: state.local_selected_ids.clone(),
            visible_count: if list_height < local_count {
                list_height
            } else {
                local_count
            },
        },
        remote_list: RemoteListViewModel {
            issues: filtered_remote,
            selected_index: state.remote_selected_index,
            scroll_offset: state.remote_scroll_offset,
            is_focused: remote_focused,
            selected_ids: state.remote_selected_ids.clone(),
            visible_count: if list_height < remote_count {
                list_height
            } else {
                remote_count
            },
        },
        detail: DetailViewModel {
            local_ticket: selected_local_ticket,
            remote_issue: selected_remote_issue,
            is_visible: state.show_detail,
            view_mode: state.active_view,
        },
        search: SearchViewModel {
            query: state.search_query.clone(),
            is_focused: state.search_focused,
            result_count,
        },
        modal: ModalViewModel {
            show_help: state.show_help_modal,
            show_filter: state.filter_modal.is_some(),
            filter_state: state.filter_modal,
            show_error: state.show_error_modal,
            error,
            link_mode_active: state.link_mode.is_some(),
            link_mode_state,
            sync_preview_active: state.sync_preview.is_some(),
            sync_preview_state,
        },
        toast,
        shortcuts,
        is_loading: state.is_loading,
    }
}


// ============================================================================
// Laws of the reducer
// ============================================================================

/// Actions that move the selection.
pub open spec fn is_move_action(a: RemoteAction) -> bool {
    ||| a is MoveUp
    ||| a is MoveDown
    ||| a is MoveUpExtendSelection
    ||| a is MoveDownExtendSelection
    ||| a is GoToTop
    ||| a is GoToBottom
    ||| a is PageUp
    ||| a is PageDown
}

/// A list action keeps a selection that was on a row on a row.
pub proof fn lemma_list_step_in_bounds(
    a: RemoteAction,
    nav: (usize, usize, Set<Seq<char>>),
    rows: Seq<Option<Seq<char>>>,
    h: usize,
)
    requires
        is_list_action(a),
        nav.0 < rows.len(),
    ensures
        list_step(a, nav, rows, h).0 < rows.len(),
{
}

/// After a move on a non-empty list with a window of at least one row, the
/// selected row is shown.
pub proof fn lemma_list_step_visible(
    a: RemoteAction,
    nav: (usize, usize, Set<Seq<char>>),
    rows: Seq<Option<Seq<char>>>,
    h: usize,
)
    requires
        is_move_action(a),
        rows.len() > 0,
        h > 0,
    ensures
        visible(list_step(a, nav, rows, h).1, list_step(a, nav, rows, h).0, h),
{
    let r = list_step(a, nav, rows, h);
    if !(a is GoToTop) {
        lemma_scrolled_visible(nav.1, r.0, h);
    }
}

/// Toggling the selection of the same row twice restores the selection.
pub proof fn lemma_toggle_selection_twice(
    nav: (usize, usize, Set<Seq<char>>),
    rows: Seq<Option<Seq<char>>>,
    h: usize,
)
    ensures
        list_step(
            RemoteAction::ToggleSelection,
            list_step(RemoteAction::ToggleSelection, nav, rows, h),
            rows,
            h,
        ) == nav,
{
    let once = list_step(RemoteAction::ToggleSelection, nav, rows, h);
    let twice = list_step(RemoteAction::ToggleSelection, once, rows, h);
    if nav.0 < rows.len() && rows[nav.0 as int] is Some {
        let id = rows[nav.0 as int]->0;
        if nav.2.contains(id) {
            assert(nav.2.remove(id).insert(id) =~= nav.2);
        } else {
            assert(nav.2.insert(id).remove(id) =~= nav.2);
        }
    }
    assert(twice.2 =~= nav.2);
}

/// The reducer keeps the selection of the list shown on a row of that list
/// under every list action.
pub proof fn lemma_reduce_selection_in_bounds(s: RemoteState, t: RemoteState, a: RemoteAction, h: usize)
    requires
        remote_step(s, t, a, h),
        is_list_action(a),
        s.active_view == ViewMode::Local ==> s.local_selected_index < local_rows(s).len(),
        s.active_view == ViewMode::Remote ==> s.remote_selected_index < remote_rows(s).len(),
    ensures
        local_rows(t) == local_rows(s),
        remote_rows(t) == remote_rows(s),
        t.active_view == s.active_view,
        t.active_view == ViewMode::Local ==> t.local_selected_index < local_rows(t).len(),
        t.active_view == ViewMode::Remote ==> t.remote_selected_index < remote_rows(t).len(),
{
    assert(t.search_query@ == s.search_query@);
    assert(local_rows(t) =~= local_rows(s));
    assert(remote_rows(t) =~= remote_rows(s));
    if s.active_view == ViewMode::Local {
        lemma_list_step_in_bounds(a, local_nav(s), local_rows(s), h);
    } else {
        lemma_list_step_in_bounds(a, remote_nav(s), remote_rows(s), h);
    }
}

/// After a move in a non-empty list with a window of at least one row, the
/// reducer shows the selected row of the list shown.
pub proof fn lemma_reduce_selection_visible(s: RemoteState, t: RemoteState, a: RemoteAction, h: usize)
    requires
        remote_step(s, t, a, h),
        is_move_action(a),
        h > 0,
        s.active_view == ViewMode::Local ==> local_rows(s).len() > 0,
        s.active_view == ViewMode::Remote ==> remote_rows(s).len() > 0,
    ensures
        s.active_view == ViewMode::Local ==> visible(t.local_scroll_offset, t.local_selected_index, h),
        s.active_view == ViewMode::Remote ==> visible(t.remote_scroll_offset, t.remote_selected_index, h),
{
    if s.active_view == ViewMode::Local {
        lemma_list_step_visible(a, local_nav(s), local_rows(s), h);
    } else {
        lemma_list_step_visible(a, remote_nav(s), remote_rows(s), h);
    }
}

/// Toggling the view twice shows the list shown before.
pub proof fn lemma_reduce_toggle_view_twice(s: RemoteState, t: RemoteState, u: RemoteState, h: usize)
    requires
        remote_step(s, t, RemoteAction::ToggleView, h),
        remote_step(t, u, RemoteAction::ToggleView, h),
    ensures
        u.active_view == s.active_view,
        local_nav(u) == local_nav(s),
        remote_nav(u) == remote_nav(s),
{
    crate::tui::remote::state::lemma_toggle_involution(s.active_view);
}

} // verus!
