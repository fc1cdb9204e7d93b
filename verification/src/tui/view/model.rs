//! State, actions and view model of the issue browser.
use vstd::prelude::*;

use std::time::Instant;

use crate::tui::components::{
    EmptyStateKind, Shortcut, browser_keys, browser_shortcuts, compute_empty_state, edit_keys,
    edit_shortcuts, empty_keys, empty_shortcuts, empty_state_of, search_keys, search_shortcuts,
    shortcut_texts,
};
use crate::tui::keys::{KeyCode, KeyModifiers, has_control};
use crate::tui::navigation::{lemma_scrolled_visible, scrolled, visible};
use crate::tui::remote::error_toast::Toast;
use crate::tui::remote::model::{step_down, step_up};
use crate::tui::repository::InitResult;
use crate::tui::search::{
    FilteredTicket, filter_tickets, filter_tickets_result, priority_prefiltered, rank_by_score,
    ticket_matches,
};
use crate::tui::state::Pane;
use crate::types::{TicketMetadata, same_ticket};
use crate::utils::priority_stripped;

verus! {

broadcast use vstd::string::group_string_axioms;

// ============================================================================
// State and actions
// ============================================================================

/// Whether a ticket is being created or edited.
#[derive(Debug, Clone, PartialEq, Eq)]
pub enum EditMode {
    Creating,
    Editing { ticket_id: String },
}

/// Everything the issue browser holds while the user works in it.
#[derive(Debug, Clone, Default)]
pub struct ViewState {
    pub tickets: Vec<TicketMetadata>,
    pub search_query: String,
    pub selected_index: usize,
    pub scroll_offset: usize,
    pub active_pane: Pane,
    pub is_loading: bool,
    pub init_result: InitResult,
    pub toast: Option<Toast>,
    pub edit_mode: Option<EditMode>,
    /// Search debounce delay in milliseconds.
    pub debounce_ms: u64,
    /// When the query last changed.
    pub last_search_change: Option<Instant>,
    pub search_in_flight: bool,
}

/// What the user can do in the issue browser.
#[derive(Debug, Clone, PartialEq, Eq)]
pub enum ViewAction {
    MoveDown,
    MoveUp,
    GoToTop,
    GoToBottom,
    /// Half a page down.
    PageDown,
    /// Half a page up.
    PageUp,
    /// Search, then list, then detail, then search again.
    CyclePaneForward,
    CyclePaneBackward,
    FocusSearch,
    UpdateSearch(String),
    /// Leave the search box, keeping the query.
    ExitSearch,
    /// Clear the query and leave the search box.
    ClearSearchAndExit,
    EditSelected,
    CreateNew,
    CancelEdit,
    Quit,
    Reload,
    CycleStatus,
}

// ============================================================================
// The list as the reducer sees it
// ============================================================================

/// Number of tickets listed for the query `q`.
pub open spec fn filtered_count(ts: Seq<TicketMetadata>, q: Seq<char>) -> nat {
    let pref = priority_prefiltered(ts, q);
    let fuzzy = priority_stripped(q);
    if q.len() == 0 {
        ts.len()
    } else if fuzzy.len() == 0 {
        pref.len()
    } else {
        rank_by_score(ticket_matches(pref, fuzzy)).len()
    }
}

/// The ticket listed at row `i` for the query `q`.
pub open spec fn filtered_ticket(ts: Seq<TicketMetadata>, q: Seq<char>, i: int) -> TicketMetadata {
    let pref = priority_prefiltered(ts, q);
    let fuzzy = priority_stripped(q);
    if q.len() == 0 {
        ts[i]
    } else if fuzzy.len() == 0 {
        pref[i]
    } else {
        pref[rank_by_score(ticket_matches(pref, fuzzy))[i].0]
    }
}

proof fn lemma_filtered(out: Seq<FilteredTicket>, ts: Seq<TicketMetadata>, q: Seq<char>)
    requires
        filter_tickets_result(out, ts, q),
    ensures
        out.len() == filtered_count(ts, q),
        forall|i: int|
            0 <= i < out.len() ==> same_ticket(*#[trigger] out[i].ticket, filtered_ticket(ts, q, i)),
{
    let pref = priority_prefiltered(ts, q);
    let fuzzy = priority_stripped(q);
    if q.len() > 0 && fuzzy.len() > 0 {
        let rk = rank_by_score(ticket_matches(pref, fuzzy));
        assert forall|i: int| 0 <= i < out.len() implies same_ticket(
            *#[trigger] out[i].ticket,
            filtered_ticket(ts, q, i),
        ) by {
            assert(0 <= rk[i].0);
        }
    }
}

/// Selected row and first row shown after `a`, for a list of `count` rows
/// shown `h` at a time.
pub open spec fn view_nav(a: ViewAction, sel: usize, scroll: usize, count: nat, h: usize) -> (usize, usize) {
    match a {
        ViewAction::MoveDown => if count > 0 {
            let s = step_down(sel, 1, count);
            (s, scrolled(scroll, s, h))
        } else {
            (sel, scroll)
        },
        ViewAction::MoveUp => {
            let s = step_up(sel, 1);
            (s, scrolled(scroll, s, h))
        },
        ViewAction::GoToTop => (0, 0),
        ViewAction::GoToBottom => if count > 0 {
            let s = (count - 1) as usize;
            (s, scrolled(scroll, s, h))
        } else {
            (sel, scroll)
        },
        ViewAction::PageDown => if count > 0 {
            let s = step_down(sel, (h / 2) as nat, count);
            (s, scrolled(scroll, s, h))
        } else {
            (sel, scroll)
        },
        ViewAction::PageUp => {
            let s = step_up(sel, (h / 2) as nat);
            (s, scrolled(scroll, s, h))
        },
        ViewAction::UpdateSearch(_) => (0, 0),
        ViewAction::ClearSearchAndExit => (0, 0),
        _ => (sel, scroll),
    }
}

/// The pane with the focus after `a`.
pub open spec fn next_pane(a: ViewAction, p: Pane) -> Pane {
    match a {
        ViewAction::CyclePaneForward => match p {
            Pane::Search => Pane::List,
            Pane::List => Pane::Detail,
            Pane::Detail => Pane::Search,
        },
        ViewAction::CyclePaneBackward => match p {
            Pane::Search => Pane::Detail,
            Pane::List => Pane::Search,
            Pane::Detail => Pane::List,
        },
        ViewAction::FocusSearch => Pane::Search,
        ViewAction::ExitSearch => Pane::List,
        ViewAction::ClearSearchAndExit => Pane::List,
        _ => p,
    }
}

/// How `a` changes the state `s` into `t`, with a list of `h` rows.
pub open spec fn view_step(s: ViewState, t: ViewState, a: ViewAction, h: usize) -> bool {
    let count = filtered_count(s.tickets@, s.search_query@);
    &&& t.tickets == s.tickets
    &&& (t.selected_index, t.scroll_offset) == view_nav(a, s.selected_index, s.scroll_offset, count, h)
    &&& t.active_pane == next_pane(a, s.active_pane)
    &&& t.search_query@ == match a {
        ViewAction::UpdateSearch(q) => q@,
        ViewAction::ClearSearchAndExit => Seq::<char>::empty(),
        _ => s.search_query@,
    }
    &&& t.edit_mode == match a {
        ViewAction::CreateNew => Some(EditMode::Creating),
        ViewAction::CancelEdit => None,
        _ => s.edit_mode,
    }
    &&& t.is_loading == s.is_loading
    &&& t.init_result == s.init_result
    &&& t.toast == s.toast
    &&& t.debounce_ms == s.debounce_ms
    &&& t.last_search_change == s.last_search_change
    &&& t.search_in_flight == s.search_in_flight
}

// ============================================================================
// The reducer
// ============================================================================

/// Applies `action` to the state (see `view_step`). Editing the selected
/// ticket, cycling its status, reloading and quitting are carried out by
/// the caller and change nothing here.
pub fn reduce_view_state(state: ViewState, action: ViewAction, list_height: usize) -> (r: ViewState)
    ensures
        view_step(state, r, action, list_height),
{
    let ghost s0 = state;
    let mut state = state;
    let filtered = filter_tickets(state.tickets.as_slice(), state.search_query.as_str());
    let list_count = filtered.len();
    proof {
        lemma_filtered(filtered@, s0.tickets@, s0.search_query@);
    }
    match action {
        ViewAction::MoveDown => {
            crate::tui::navigation::scroll_down(
                &mut state.selected_index,
                &mut state.scroll_offset,
                list_count,
                list_height,
            );
        },
        ViewAction::MoveUp => {
            crate::tui::navigation::scroll_up(
                &mut state.selected_index,
                &mut state.scroll_offset,
                list_height,
            );
        },
        ViewAction::GoToTop => {
            state.selected_index = 0;
            state.scroll_offset = 0;
        },
        ViewAction::GoToBottom => {
            crate::tui::navigation::scroll_to_bottom(
                &mut state.selected_index,
                &mut state.scroll_offset,
                list_count,
                list_height,
            );
        },
        ViewAction::PageDown => {
            crate::tui::navigation::page_down(
                &mut state.selected_index,
                &mut state.scroll_offset,
                list_count,
                list_height,
            );
        },
        ViewAction::PageUp => {
            crate::tui::navigation::page_up(
                &mut state.selected_index,
                &mut state.scroll_offset,
                list_height,
            );
        },
        ViewAction::CyclePaneForward => {
            state.active_pane = match state.active_pane {
                Pane::Search => Pane::List,
                Pane::List => Pane::Detail,
                Pane::Detail => Pane::Search,
            };
        },
        ViewAction::CyclePaneBackward => {
            state.active_pane = match state.active_pane {
                Pane::Search => Pane::Detail,
                Pane::List => Pane::Search,
                Pane::Detail => Pane::List,
            };
        },
        ViewAction::FocusSearch => {
            state.active_pane = Pane::Search;
        },
        ViewAction::UpdateSearch(query) => {
            state.search_query = query;
            state.selected_index = 0;
            state.scroll_offset = 0;
        },
        ViewAction::ExitSearch => {
            state.active_pane = Pane::List;
        },
        ViewAction::ClearSearchAndExit => {
            state.search_query = String::new();
            state.active_pane = Pane::List;
            state.selected_index = 0;
            state.scroll_offset = 0;
        },
        ViewAction::CreateNew => {
            state.edit_mode = Some(EditMode::Creating);
        },
        ViewAction::CancelEdit => {
            state.edit_mode = None;
        },
        _ => {},
    }
    state
}

/// Keeps the selected index visible (see `scrolled`).
pub fn adjust_scroll(scroll_offset: usize, selected_index: usize, list_height: usize) -> (r: usize)
    ensures
        r == scrolled(scroll_offset, selected_index, list_height),
{
    crate::tui::navigation::adjust_scroll(scroll_offset, selected_index, list_height)
}

// ============================================================================
// Key mapping
// ============================================================================

/// The action of a key while the search box has the focus: Esc clears and
/// leaves, Enter or Tab leaves, Ctrl-Q quits; other keys go to the box.
pub open spec fn view_search_key(c: KeyCode, m: KeyModifiers) -> Option<ViewAction> {
    match c {
        KeyCode::Esc => Some(ViewAction::ClearSearchAndExit),
        KeyCode::Enter => Some(ViewAction::ExitSearch),
        KeyCode::Tab => Some(ViewAction::ExitSearch),
        KeyCode::Char(ch) => if ch == 'q' && has_control(m) {
            Some(ViewAction::Quit)
        } else {
            None
        },
        _ => None,
    }
}

/// The action of a character key in the list or detail pane.
pub open spec fn view_char_action(ch: char) -> Option<ViewAction> {
    if ch == 'j' {
        Some(ViewAction::MoveDown)
    } else if ch == 'k' {
        Some(ViewAction::MoveUp)
    } else if ch == 'g' {
        Some(ViewAction::GoToTop)
    } else if ch == 'G' {
        Some(ViewAction::GoToBottom)
    } else if ch == 'q' {
        Some(ViewAction::Quit)
    } else if ch == '/' {
        Some(ViewAction::FocusSearch)
    } else if ch == 'e' {
        Some(ViewAction::EditSelected)
    } else if ch == 'n' {
        Some(ViewAction::CreateNew)
    } else if ch == 's' {
        Some(ViewAction::CycleStatus)
    } else if ch == 'r' {
        Some(ViewAction::Reload)
    } else {
        None
    }
}

/// The action of a key with the focus on pane `p`; Esc goes back from the
/// detail pane and quits elsewhere.
pub open spec fn view_key_action(c: KeyCode, m: KeyModifiers, p: Pane) -> Option<ViewAction> {
    if p == Pane::Search {
        view_search_key(c, m)
    } else {
        match c {
            KeyCode::Down => Some(ViewAction::MoveDown),
            KeyCode::Up => Some(ViewAction::MoveUp),
            KeyCode::PageDown => Some(ViewAction::PageDown),
            KeyCode::PageUp => Some(ViewAction::PageUp),
            KeyCode::Tab => Some(ViewAction::CyclePaneForward),
            KeyCode::BackTab => Some(ViewAction::CyclePaneBackward),
            KeyCode::Enter => Some(ViewAction::EditSelected),
            KeyCode::Esc => if p == Pane::Detail {
                Some(ViewAction::CyclePaneBackward)
            } else {
                Some(ViewAction::Quit)
            },
            KeyCode::Char(ch) => view_char_action(ch),
            _ => None,
        }
    }
}

fn search_key_to_action(code: KeyCode, modifiers: KeyModifiers) -> (r: Option<ViewAction>)
    ensures
        r == view_search_key(code, modifiers),
{
    match code {
        KeyCode::Esc => Some(ViewAction::ClearSearchAndExit),
        KeyCode::Enter | KeyCode::Tab => Some(ViewAction::ExitSearch),
        KeyCode::Char('q') => {
            if modifiers.contains(KeyModifiers::CONTROL) {
                Some(ViewAction::Quit)
            } else {
                None
            }
        },
        _ => None,
    }
}

fn char_key_to_action(ch: char) -> (r: Option<ViewAction>)
    ensures
        r == view_char_action(ch),
{
    match ch {
        'j' => Some(ViewAction::MoveDown),
        'k' => Some(ViewAction::MoveUp),
        'g' => Some(ViewAction::GoToTop),
        'G' => Some(ViewAction::GoToBottom),
        'q' => Some(ViewAction::Quit),
        '/' => Some(ViewAction::FocusSearch),
        'e' => Some(ViewAction::EditSelected),
        'n' => Some(ViewAction::CreateNew),
        's' => Some(ViewAction::CycleStatus),
        'r' => Some(ViewAction::Reload),
        _ => None,
    }
}

/// The action of a key with the focus on `active_pane` (see
/// `view_key_action`); `None` when the key means nothing there.
pub fn key_to_action(code: KeyCode, modifiers: KeyModifiers, active_pane: Pane) -> (r: Option<
    ViewAction,
>)
    ensures
        r == view_key_action(code, modifiers, active_pane),
{
    if active_pane == Pane::Search {
        return search_key_to_action(code, modifiers);
    }
    match code {
        KeyCode::Down => Some(ViewAction::MoveDown),
        KeyCode::Up => Some(ViewAction::MoveUp),
        KeyCode::PageDown => Some(ViewAction::PageDown),
        KeyCode::PageUp => Some(ViewAction::PageUp),
        KeyCode::Tab => Some(ViewAction::CyclePaneForward),
        KeyCode::BackTab => Some(ViewAction::CyclePaneBackward),
        KeyCode::Enter => Some(ViewAction::EditSelected),
        KeyCode::Esc => {
            if active_pane == Pane::Detail {
                Some(ViewAction::CyclePaneBackward)
            } else {
                Some(ViewAction::Quit)
            }
        },
        KeyCode::Char(ch) => char_key_to_action(ch),
        _ => None,
    }
}

// ============================================================================
// Selected tickets
// ============================================================================

/// The ticket listed at row `index`, if the list has that row.
pub fn get_ticket_at(state: &ViewState, index: usize) -> (r: Option<TicketMetadata>)
    ensures
        r is Some <==> index < filtered_count(state.tickets@, state.search_query@),
        r is Some ==> same_ticket(
            r->0,
            filtered_ticket(state.tickets@, state.search_query@, index as int),
        ),
{
    let filtered = filter_tickets(state.tickets.as_slice(), state.search_query.as_str());
    proof {
        lemma_filtered(filtered@, state.tickets@, state.search_query@);
    }
    if index < filtered.len() {
        let t: &TicketMetadata = &filtered[index].ticket;
        Some(t.clone())
    } else {
        None
    }
}

/// The selected ticket, if the selection is on a row.
pub fn get_selected_ticket(state: &ViewState) -> (r: Option<TicketMetadata>)
    ensures
        r is Some <==> state.selected_index < filtered_count(state.tickets@, state.search_query@),
        r is Some ==> same_ticket(
            r->0,
            filtered_ticket(state.tickets@, state.search_query@, state.selected_index as int),
        ),
{
    get_ticket_at(state, state.selected_index)
}

// ============================================================================
// View model
// ============================================================================

/// Everything drawn by the issue browser.
#[derive(Debug, Clone)]
pub struct ViewViewModel {
    pub list: ListViewModel,
    pub detail: DetailViewModel,
    pub search: SearchViewModel,
    pub toast: Option<Toast>,
    /// The placeholder shown instead of tickets, if any.
    pub empty_state: Option<EmptyStateKind>,
    pub shortcuts: Vec<Shortcut>,
    pub is_editing: bool,
    pub total_all_tickets: usize,
}

/// The ticket list.
#[derive(Debug, Clone)]
pub struct ListViewModel {
    pub tickets: Vec<FilteredTicket>,
    pub selected_index: usize,
    pub scroll_offset: usize,
    pub is_focused: bool,
    /// Number of rows shown.
    pub visible_count: usize,
}

/// The detail pane.
#[derive(Debug, Clone)]
pub struct DetailViewModel {
    pub ticket: Option<TicketMetadata>,
    pub is_focused: bool,
}

/// The search box.
#[derive(Debug, Clone)]
pub struct SearchViewModel {
    pub query: String,
    pub is_focused: bool,
    pub result_count: usize,
}

/// The footer shortcuts: editing, then a full placeholder (no directory,
/// no tickets, loading), then those of the pane with the focus.
pub open spec fn view_shortcut_keys(s: ViewState, empty: Option<EmptyStateKind>) -> Seq<(Seq<char>, Seq<char>)> {
    if s.edit_mode is Some {
        edit_keys()
    } else if empty == Some(EmptyStateKind::NoJanusDir) || empty == Some(EmptyStateKind::NoTickets)
        || empty == Some(EmptyStateKind::Loading) {
        empty_keys()
    } else if s.active_pane == Pane::Search {
        search_keys()
    } else {
        browser_keys()
    }
}

/// `vm` is what is drawn for the state `s` with a list of `h` rows.
pub open spec fn view_of(vm: ViewViewModel, s: ViewState, h: usize) -> bool {
    let count = filtered_count(s.tickets@, s.search_query@);
    let editing = s.edit_mode is Some;
    let empty = empty_state_of(s.is_loading, s.init_result, s.tickets@.len(), count, s.search_query@);
    &&& filter_tickets_result(vm.list.tickets@, s.tickets@, s.search_query@)
    &&& vm.list.selected_index == s.selected_index
    &&& vm.list.scroll_offset == s.scroll_offset
    &&& vm.list.is_focused == (s.active_pane == Pane::List && !editing)
    &&& vm.list.visible_count == if h < count {
        h as nat
    } else {
        count
    }
    &&& (vm.detail.ticket is Some <==> s.selected_index < count)
    &&& vm.detail.ticket is Some ==> same_ticket(
        vm.detail.ticket->0,
        filtered_ticket(s.tickets@, s.search_query@, s.selected_index as int),
    )
    &&& vm.detail.is_focused == (s.active_pane == Pane::Detail && !editing)
    &&& vm.search.query@ == s.search_query@
    &&& vm.search.is_focused == (s.active_pane == Pane::Search && !editing)
    &&& vm.search.result_count == count
    &&& (vm.toast is Some <==> s.toast is Some)
    &&& vm.toast is Some ==> {
        &&& vm.toast->0.message@ == s.toast->0.message@
        &&& vm.toast->0.level == s.toast->0.level
        &&& vm.toast->0.timestamp == s.toast->0.timestamp
    }
    &&& vm.empty_state == empty
    &&& shortcut_texts(vm.shortcuts@) == view_shortcut_keys(s, empty)
    &&& vm.is_editing == editing
    &&& vm.total_all_tickets == s.tickets@.len()
}

/// Computes what is drawn for `state` with a list of `list_height` rows
/// (see `view_of`).
pub fn compute_view_model(state: &ViewState, list_height: usize) -> (r: ViewViewModel)
    ensures
        view_of(r, *state, list_height),
{
    let filtered = filter_tickets(state.tickets.as_slice(), state.search_query.as_str());
    proof {
        lemma_filtered(filtered@, state.tickets@, state.search_query@);
    }
    let total_all = state.tickets.len();
    let total_filtered = filtered.len();
    let empty_state = compute_empty_state(
        state.is_loading,
        state.init_result,
        total_all,
        total_filtered,
        state.search_query.as_str(),
    );
    let show_full_empty_state = match empty_state {
        Some(EmptyStateKind::NoJanusDir) | Some(EmptyStateKind::NoTickets) | Some(
            EmptyStateKind::Loading,
        ) => true,
        _ => false,
    };
    let is_editing = state.edit_mode.is_some();
    let shortcuts = if is_editing {
        edit_shortcuts()
    } else if show_full_empty_state {
        empty_shortcuts()
    } else {
        match state.active_pane {
            Pane::Search => search_shortcuts(),
            _ => browser_shortcuts(),
        }
    };
    let selected_ticket = if state.selected_index < total_filtered {
        let t: &TicketMetadata = &filtered[state.selected_index].ticket;
        Some(t.clone())
    } else {
        None
    };
    let toast = match &state.toast {
        Some(t) => Some(t.clone()),
        None => None,
    };
    ViewViewModel {
        list: ListViewModel {
            tickets: filtered,
            selected_index: state.selected_index,
            scroll_offset: state.scroll_offset,
            is_focused: state.active_pane == Pane::List && !is_editing,
            visible_count: if list_height < total_filtered {
                list_height
            } else {
                total_filtered
            },
        },
        detail: DetailViewModel {
            ticket: selected_ticket,
            is_focused: state.active_pane == Pane::Detail && !is_editing,
        },
        search: SearchViewModel {
            query: state.search_query.clone(),
            is_focused: state.active_pane == Pane::Search && !is_editing,
            result_count: total_filtered,
        },
        toast,
        empty_state,
        shortcuts,
        is_editing,
        total_all_tickets: total_all,
    }
}

// ============================================================================
// Laws of the reducer
// ============================================================================

/// A move keeps a selection that was on a row on a row, and with a window
/// of at least one row shows it.
pub proof fn lemma_view_move_in_bounds(s: ViewState, t: ViewState, a: ViewAction, h: usize)
    requires
        view_step(s, t, a, h),
        a is MoveDown || a is MoveUp || a is GoToBottom || a is PageDown || a is PageUp,
        s.selected_index < filtered_count(s.tickets@, s.search_query@),
    ensures
        t.selected_index < filtered_count(t.tickets@, t.search_query@),
        h > 0 ==> visible(t.scroll_offset, t.selected_index, h),
{
    assert(t.search_query@ == s.search_query@);
    if h > 0 {
        lemma_scrolled_visible(s.scroll_offset, t.selected_index, h);
    }
}

/// Cycling the panes forward three times, or forward then backward, comes
/// back to the pane it started from.
pub proof fn lemma_pane_cycles(p: Pane)
    ensures
        next_pane(
            ViewAction::CyclePaneForward,
            next_pane(ViewAction::CyclePaneForward, next_pane(ViewAction::CyclePaneForward, p)),
        ) == p,
        next_pane(ViewAction::CyclePaneBackward, next_pane(ViewAction::CyclePaneForward, p)) == p,
        next_pane(ViewAction::CyclePaneForward, next_pane(ViewAction::CyclePaneBackward, p)) == p,
{
}

} // verus!
