//! Key handling of the remote interface: a key press is mapped to an
//! action (see `keymap`), and the action changes the interface's state and
//! may ask for a background operation.
use vstd::prelude::*;

pub mod keymap;
pub mod context;
pub mod navigation;
pub mod selection;
pub mod local_ops;
pub mod remote_ops;
pub mod sync;
pub mod link;
pub mod global;
pub mod completions;

use crate::tui::keys::KeyCode;
use crate::tui::keys::KeyModifiers;
use crate::tui::remote::help::{help_content_line_count, help_lines};
use crate::tui::remote::state::{other_view, ModalVisibilityData, SearchUiData, ViewDisplayData};
use crate::tui::remote::sync_preview::SyncDecision;

use self::context::{nav_of, snapshot_of, HandlerContext, HandlerEffect};
use self::global::{confirmed, filters_applied, provider_switched, refreshed};
use self::keymap::{keymap_action, RemoteAction};
use self::link::{link_cancelled, link_confirmed, link_started};
use self::local_ops::{pushed, unlink_asked};
use self::navigation::{navigated, paged, NavKey};
use self::remote_ops::adopt_asked;
use self::selection::{all_ids, ids_changed, toggled_ids};
use self::sync::{sync_all_accepted, sync_decided, sync_started};

verus! {

/// The last line the help text can be scrolled to.
pub open spec fn help_max_scroll() -> usize {
    if help_lines().len() > 0 {
        (help_lines().len() - 1) as usize
    } else {
        0
    }
}

/// `c` with the help modal's visibility and scroll replaced.
pub open spec fn with_visibility(c: HandlerContext, v: ModalVisibilityData) -> HandlerContext {
    HandlerContext { visibility: v, ..c }
}

/// `c` with the display replaced.
pub open spec fn with_display(c: HandlerContext, d: ViewDisplayData) -> HandlerContext {
    HandlerContext { display: d, ..c }
}

/// `n` and `r` are what the action `a` comes to from `c`.
pub open spec fn dispatched(c: HandlerContext, n: HandlerContext, a: RemoteAction, r: Option<HandlerEffect>) -> bool {
    match a {
        RemoteAction::MoveUp => r is None && navigated(c, n, NavKey::Up, false),
        RemoteAction::MoveDown => r is None && navigated(c, n, NavKey::Down, false),
        RemoteAction::MoveUpExtendSelection => r is None && navigated(c, n, NavKey::Up, true),
        RemoteAction::MoveDownExtendSelection => r is None && navigated(c, n, NavKey::Down, true),
        RemoteAction::GoToTop => r is None && navigated(c, n, NavKey::Top, false),
        RemoteAction::GoToBottom => r is None && navigated(c, n, NavKey::Bottom, false),
        RemoteAction::PageUp => r is None && paged(c, n, false),
        RemoteAction::PageDown => r is None && paged(c, n, true),
        RemoteAction::ToggleView => r is None && if c.filter_modal is None {
            n == with_display(
                c,
                ViewDisplayData { active_view: other_view(c.display.active_view), ..c.display },
            )
        } else {
            n == c
        },
        RemoteAction::ToggleDetail => r is None && n == with_display(
            c,
            ViewDisplayData { show_detail: !c.display.show_detail, ..c.display },
        ),
        RemoteAction::ToggleSelection => r is None && ids_changed(c, n, toggled_ids(c)),
        RemoteAction::SelectAll => r is None && ids_changed(
            c,
            n,
            nav_of(c, c.display.active_view).selected_ids@.union(all_ids(c, c.display.active_view)),
        ),
        RemoteAction::ClearSelection => r is None && ids_changed(c, n, Set::<Seq<char>>::empty()),
        RemoteAction::FocusSearch => r is None && n == HandlerContext {
            search: SearchUiData { focused: true, ..c.search },
            ..c
        },
        RemoteAction::ExitSearch => r matches Some(HandlerEffect::TriggerSearch) && n == HandlerContext {
            search: SearchUiData { focused: false, ..c.search },
            ..c
        },
        RemoteAction::ClearSearchAndExit => r is None && n == HandlerContext { search: n.search, ..c }
            && n.search.query@.len() == 0 && !n.search.focused,
        RemoteAction::ShowHelp => r is None && n == with_visibility(
            c,
            ModalVisibilityData { show_help: true, ..c.visibility },
        ),
        RemoteAction::HideHelp => r is None && n == with_visibility(
            c,
            ModalVisibilityData { show_help: false, help_scroll: 0, ..c.visibility },
        ),
        RemoteAction::ScrollHelpUp => r is None && n == with_visibility(
            c,
            ModalVisibilityData {
                help_scroll: if c.visibility.help_scroll > 0 {
                    (c.visibility.help_scroll - 1) as usize
                } else {
                    0
                },
                ..c.visibility
            },
        ),
        RemoteAction::ScrollHelpDown => r is None && n == with_visibility(
            c,
            ModalVisibilityData {
                help_scroll: if c.visibility.help_scroll < help_max_scroll() {
                    (c.visibility.help_scroll + 1) as usize
                } else {
                    c.visibility.help_scroll
                },
                ..c.visibility
            },
        ),
        RemoteAction::ScrollHelpToTop => r is None && n == with_visibility(
            c,
            ModalVisibilityData { help_scroll: 0, ..c.visibility },
        ),
        RemoteAction::ScrollHelpToBottom => r is None && n == with_visibility(
            c,
            ModalVisibilityData { help_scroll: help_max_scroll(), ..c.visibility },
        ),
        RemoteAction::ToggleErrorModal => r is None && n == with_visibility(
            c,
            ModalVisibilityData { show_error: !c.visibility.show_error, ..c.visibility },
        ),
        RemoteAction::ShowFilterModal => r is None && n == HandlerContext {
            filter_modal: n.filter_modal,
            ..c
        } && (n.filter_modal matches Some(s) && s.limit == c.config.active_filters.limit),
        RemoteAction::HideFilterModal => r is None && n == HandlerContext { filter_modal: None, ..c },
        RemoteAction::FilterTab | RemoteAction::FilterBackTab | RemoteAction::FilterMoveDown
        | RemoteAction::FilterMoveUp | RemoteAction::Consumed => r is None && n == c,
        RemoteAction::FilterClear => r is None && if c.filter_modal is Some {
            n == HandlerContext { filter_modal: Some(crate::tui::remote::filter_modal::FilterState { limit: 100 }), ..c }
        } else {
            n == c
        },
        RemoteAction::FilterEnter => filters_applied(c, n, r),
        RemoteAction::DismissModal => r is None && if c.display.detail_pane_focused {
            n == with_display(c, ViewDisplayData { detail_pane_focused: false, ..c.display })
        } else {
            n == c
        },
        RemoteAction::DetailScrollUp => r is None && navigated(c, n, NavKey::Up, false),
        RemoteAction::DetailScrollDown => r is None && navigated(c, n, NavKey::Down, false),
        RemoteAction::DetailScrollToTop => r is None && navigated(c, n, NavKey::Top, false),
        RemoteAction::DetailScrollToBottom => r is None && navigated(c, n, NavKey::Bottom, false),
        RemoteAction::ConfirmYes => confirmed(c, n, r),
        RemoteAction::ConfirmNo => r is None && n == HandlerContext { confirm_dialog: None, ..c },
        RemoteAction::StartSync => sync_started(c, n, r),
        RemoteAction::SyncAccept => sync_decided(c, n, r, SyncDecision::Accept),
        RemoteAction::SyncSkip => if c.filter_modal is Some {
            n == c && r is None
        } else {
            sync_decided(c, n, r, SyncDecision::Skip)
        },
        RemoteAction::SyncAcceptAll => sync_all_accepted(c, n, r),
        RemoteAction::SyncCancel => r is None && n == HandlerContext { sync_preview: None, ..c },
        RemoteAction::StartLinkMode => r is None && link_started(c, n),
        RemoteAction::CancelLinkMode => r is None && link_cancelled(c, n),
        RemoteAction::LinkConfirm => link_confirmed(c, n, r),
        RemoteAction::Refresh => refreshed(c, n, r),
        RemoteAction::SwitchProvider => provider_switched(c, n, r),
        RemoteAction::Adopt => if c.sync_preview is Some {
            n == c && r is None
        } else {
            adopt_asked(c, n, r)
        },
        RemoteAction::PushLocal => pushed(c, n, r),
        RemoteAction::UnlinkLocal => r is None && unlink_asked(c, n),
        RemoteAction::Quit => r is None && n == with_display(
            c,
            ViewDisplayData { should_exit: true, ..c.display },
        ),
    }
}

/// The handlers an action goes to: 0 for moving and showing, 1 for the
/// search box and the modals, 2 for operations.
pub open spec fn action_group(a: RemoteAction) -> u8 {
    match a {
        RemoteAction::MoveUp => 0,
        RemoteAction::MoveDown => 0,
        RemoteAction::MoveUpExtendSelection => 0,
        RemoteAction::MoveDownExtendSelection => 0,
        RemoteAction::GoToTop => 0,
        RemoteAction::GoToBottom => 0,
        RemoteAction::PageUp => 0,
        RemoteAction::PageDown => 0,
        RemoteAction::ToggleView => 0,
        RemoteAction::ToggleDetail => 0,
        RemoteAction::ToggleSelection => 0,
        RemoteAction::SelectAll => 0,
        RemoteAction::ClearSelection => 0,
        RemoteAction::DismissModal => 0,
        RemoteAction::DetailScrollUp => 0,
        RemoteAction::DetailScrollDown => 0,
        RemoteAction::DetailScrollToTop => 0,
        RemoteAction::DetailScrollToBottom => 0,
        RemoteAction::Quit => 0,
        RemoteAction::FocusSearch => 1,
        RemoteAction::ExitSearch => 1,
        RemoteAction::ClearSearchAndExit => 1,
        RemoteAction::ShowHelp => 1,
        RemoteAction::HideHelp => 1,
        RemoteAction::ScrollHelpUp => 1,
        RemoteAction::ScrollHelpDown => 1,
        RemoteAction::ScrollHelpToTop => 1,
        RemoteAction::ScrollHelpToBottom => 1,
        RemoteAction::ToggleErrorModal => 1,
        RemoteAction::ShowFilterModal => 1,
        RemoteAction::HideFilterModal => 1,
        RemoteAction::FilterTab => 1,
        RemoteAction::FilterClear => 1,
        RemoteAction::FilterEnter => 1,
        RemoteAction::FilterBackTab => 1,
        RemoteAction::FilterMoveDown => 1,
        RemoteAction::FilterMoveUp => 1,
        RemoteAction::Consumed => 1,
        _ => 2,
    }
}

/// Carries out an action that moves or shows something.
#[verifier::spinoff_prover]
fn dispatch_view(ctx: &mut HandlerContext, action: RemoteAction) -> (r: Option<HandlerEffect>)
    requires
        action_group(action) == 0,
    ensures
        dispatched(*old(ctx), *final(ctx), action, r),
{
    match action {
        RemoteAction::MoveUp => {
            navigation::handle(ctx, KeyCode::Up, false);
            None
        },
        RemoteAction::MoveDown => {
            navigation::handle(ctx, KeyCode::Down, false);
            None
        },
        RemoteAction::MoveUpExtendSelection => {
            navigation::handle(ctx, KeyCode::Up, true);
            None
        },
        RemoteAction::MoveDownExtendSelection => {
            navigation::handle(ctx, KeyCode::Down, true);
            None
        },
        RemoteAction::GoToTop => {
            navigation::handle(ctx, KeyCode::Char('g'), false);
            None
        },
        RemoteAction::GoToBottom => {
            navigation::handle(ctx, KeyCode::Char('G'), false);
            None
        },
        RemoteAction::PageUp => {
            navigation::handle_page_up(ctx);
            None
        },
        RemoteAction::PageDown => {
            navigation::handle_page_down(ctx);
            None
        },
        RemoteAction::ToggleView => {
            if ctx.filter_modal.is_none() {
                ctx.display.toggle_view();
            }
            None
        },
        RemoteAction::ToggleDetail => {
            ctx.display.show_detail = !ctx.display.show_detail;
            None
        },
        RemoteAction::ToggleSelection => {
            selection::toggle_selection(ctx);
            None
        },
        RemoteAction::SelectAll => {
            selection::select_all(ctx);
            None
        },
        RemoteAction::ClearSelection => {
            selection::clear_selection(ctx);
            None
        },
        RemoteAction::DismissModal => {
            if ctx.display.detail_pane_focused {
                ctx.display.detail_pane_focused = false;
            }
            None
        },
        RemoteAction::DetailScrollUp => {
            navigation::handle(ctx, KeyCode::Up, false);
            None
        },
        RemoteAction::DetailScrollDown => {
            navigation::handle(ctx, KeyCode::Down, false);
            None
        },
        RemoteAction::DetailScrollToTop => {
            navigation::handle(ctx, KeyCode::Char('g'), false);
            None
        },
        RemoteAction::DetailScrollToBottom => {
            navigation::handle(ctx, KeyCode::Char('G'), false);
            None
        },
        RemoteAction::Quit => {
            ctx.display.should_exit = true;
            None
        },

        _ => None,
    }
}

/// Carries out an action of the search box or a modal.
#[verifier::spinoff_prover]
fn dispatch_modal(ctx: &mut HandlerContext, action: RemoteAction) -> (r: Option<HandlerEffect>)
    requires
        action_group(action) == 1,
    ensures
        dispatched(*old(ctx), *final(ctx), action, r),
{
    match action {
        RemoteAction::FocusSearch => {
            ctx.search.focused = true;
            None
        },
        RemoteAction::ExitSearch => {
            ctx.search.focused = false;
            Some(HandlerEffect::TriggerSearch)
        },
        RemoteAction::ClearSearchAndExit => {
            ctx.search.query = String::new();
            ctx.search.focused = false;
            None
        },
        RemoteAction::ShowHelp => {
            ctx.visibility.show_help = true;
            None
        },
        RemoteAction::HideHelp => {
            ctx.visibility.show_help = false;
            ctx.visibility.help_scroll = 0;
            None
        },
        RemoteAction::ScrollHelpUp => {
            if ctx.visibility.help_scroll > 0 {
                ctx.visibility.help_scroll = ctx.visibility.help_scroll - 1;
            }
            None
        },
        RemoteAction::ScrollHelpDown => {
            let max_scroll = help_content_line_count().saturating_sub(1);
            if ctx.visibility.help_scroll < max_scroll {
                ctx.visibility.help_scroll = ctx.visibility.help_scroll + 1;
            }
            None
        },
        RemoteAction::ScrollHelpToTop => {
            ctx.visibility.help_scroll = 0;
            None
        },
        RemoteAction::ScrollHelpToBottom => {
            ctx.visibility.help_scroll = help_content_line_count().saturating_sub(1);
            None
        },
        RemoteAction::ToggleErrorModal => {
            ctx.visibility.show_error = !ctx.visibility.show_error;
            None
        },
        RemoteAction::ShowFilterModal => {
            global::handle_open_filter(ctx);
            None
        },
        RemoteAction::HideFilterModal => {
            ctx.filter_modal = None;
            None
        },
        RemoteAction::FilterTab | RemoteAction::FilterBackTab | RemoteAction::FilterMoveDown
        | RemoteAction::FilterMoveUp | RemoteAction::Consumed => None,
        RemoteAction::FilterClear => {
            global::handle_filter_clear(ctx);
            None
        },
        RemoteAction::FilterEnter => global::handle_filter_enter(ctx),
        _ => None,
    }
}

/// Carries out an action that starts or decides an operation.
#[verifier::spinoff_prover]
fn dispatch_operation(ctx: &mut HandlerContext, action: RemoteAction) -> (r: Option<HandlerEffect>)
    requires
        action_group(action) == 2,
    ensures
        dispatched(*old(ctx), *final(ctx), action, r),
{
    match action {
        RemoteAction::ConfirmYes => global::handle_confirm_yes(ctx),
        RemoteAction::ConfirmNo => {
            ctx.confirm_dialog = None;
            None
        },
        RemoteAction::StartSync => sync::handle_start_sync(ctx),
        RemoteAction::SyncAccept => sync::handle_accept(ctx),
        RemoteAction::SyncSkip => sync::handle_skip(ctx),
        RemoteAction::SyncAcceptAll => sync::handle_accept_all(ctx),
        RemoteAction::SyncCancel => {
            ctx.sync_preview = None;
            None
        },
        RemoteAction::StartLinkMode => {
            link::handle_link_start(ctx, KeyCode::Char('l'));
            None
        },
        RemoteAction::CancelLinkMode => {
            link::handle_link_cancel(ctx);
            None
        },
        RemoteAction::LinkConfirm => link::handle_link_confirm(ctx),
        RemoteAction::Refresh => global::handle_refresh(ctx),
        RemoteAction::SwitchProvider => global::handle_switch_provider(ctx),
        RemoteAction::Adopt => {
            if ctx.sync_preview.is_some() {
                None
            } else {
                remote_ops::handle_adopt(ctx)
            }
        },
        RemoteAction::PushLocal => local_ops::handle_push(ctx),
        RemoteAction::UnlinkLocal => {
            local_ops::handle_unlink(ctx);
            None
        },
        _ => None,
    }
}

/// Carries out `action` (see `dispatched`); returns the background
/// operation it asks for, if any.
pub fn dispatch_action(ctx: &mut HandlerContext, action: RemoteAction) -> (r: Option<HandlerEffect>)
    ensures
        dispatched(*old(ctx), *final(ctx), action, r),
{
    let group: u8 = match action {
        RemoteAction::MoveUp => 0,
        RemoteAction::MoveDown => 0,
        RemoteAction::MoveUpExtendSelection => 0,
        RemoteAction::MoveDownExtendSelection => 0,
        RemoteAction::GoToTop => 0,
        RemoteAction::GoToBottom => 0,
        RemoteAction::PageUp => 0,
        RemoteAction::PageDown => 0,
        RemoteAction::ToggleView => 0,
        RemoteAction::ToggleDetail => 0,
        RemoteAction::ToggleSelection => 0,
        RemoteAction::SelectAll => 0,
        RemoteAction::ClearSelection => 0,
        RemoteAction::DismissModal => 0,
        RemoteAction::DetailScrollUp => 0,
        RemoteAction::DetailScrollDown => 0,
        RemoteAction::DetailScrollToTop => 0,
        RemoteAction::DetailScrollToBottom => 0,
        RemoteAction::Quit => 0,
        RemoteAction::FocusSearch => 1,
        RemoteAction::ExitSearch => 1,
        RemoteAction::ClearSearchAndExit => 1,
        RemoteAction::ShowHelp => 1,
        RemoteAction::HideHelp => 1,
        RemoteAction::ScrollHelpUp => 1,
        RemoteAction::ScrollHelpDown => 1,
        RemoteAction::ScrollHelpToTop => 1,
        RemoteAction::ScrollHelpToBottom => 1,
        RemoteAction::ToggleErrorModal => 1,
        RemoteAction::ShowFilterModal => 1,
        RemoteAction::HideFilterModal => 1,
        RemoteAction::FilterTab => 1,
        RemoteAction::FilterClear => 1,
        RemoteAction::FilterEnter => 1,
        RemoteAction::FilterBackTab => 1,
        RemoteAction::FilterMoveDown => 1,
        RemoteAction::FilterMoveUp => 1,
        RemoteAction::Consumed => 1,
        _ => 2,
    };
    if group == 0 {
        dispatch_view(ctx, action)
    } else if group == 1 {
        dispatch_modal(ctx, action)
    } else {
        dispatch_operation(ctx, action)
    }
}

/// Handles a key press: the key map picks the action for the modals and
/// modes open, and the action is carried out. A key that maps to nothing
/// changes nothing.
pub fn handle_key_event(ctx: &mut HandlerContext, code: KeyCode, modifiers: KeyModifiers) -> (r:
    Option<HandlerEffect>)
    ensures
        match keymap_action(code, modifiers, snapshot_of(*old(ctx))) {
            Some(a) => dispatched(*old(ctx), *final(ctx), a, r),
            None => *final(ctx) == *old(ctx) && r is None,
        },
{
    let snapshot = ctx.modal_state_snapshot();
    match keymap::key_to_action(code, modifiers, &snapshot) {
        Some(action) => dispatch_action(ctx, action),
        None => None,
    }
}

} // verus!
