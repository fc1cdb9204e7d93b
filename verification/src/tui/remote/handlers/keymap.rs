//! The key map of the remote interface: each key press, in the context of
//! the modals and modes that are open, resolves to at most one action.
use vstd::prelude::*;

use crate::tui::keys::{KeyCode, KeyModifiers, has_control, has_shift, modifier_bits};

verus! {

/// Everything a key press can ask of the remote interface.
#[derive(Debug, Clone, Copy, PartialEq, Eq, Structural)]
pub enum RemoteAction {
    MoveUp,
    MoveDown,
    MoveUpExtendSelection,
    MoveDownExtendSelection,
    GoToTop,
    GoToBottom,
    PageUp,
    PageDown,
    ToggleView,
    ToggleDetail,
    ToggleSelection,
    SelectAll,
    ClearSelection,
    FocusSearch,
    ExitSearch,
    ClearSearchAndExit,
    ShowHelp,
    HideHelp,
    ShowFilterModal,
    HideFilterModal,
    ToggleErrorModal,
    DismissModal,
    ScrollHelpUp,
    ScrollHelpDown,
    ScrollHelpToTop,
    ScrollHelpToBottom,
    DetailScrollUp,
    DetailScrollDown,
    DetailScrollToTop,
    DetailScrollToBottom,
    ConfirmYes,
    ConfirmNo,
    StartSync,
    SyncAccept,
    SyncSkip,
    SyncAcceptAll,
    SyncCancel,
    StartLinkMode,
    CancelLinkMode,
    LinkConfirm,
    FilterTab,
    FilterBackTab,
    FilterClear,
    FilterEnter,
    FilterMoveDown,
    FilterMoveUp,
    Refresh,
    SwitchProvider,
    Adopt,
    PushLocal,
    UnlinkLocal,
    Quit,
    /// The key is taken but asks for nothing.
    Consumed,
}

/// Which modals and modes are open when a key is pressed.
#[derive(Debug, Clone, Default)]
pub struct ModalStateSnapshot {
    pub show_help_modal: bool,
    pub show_error_modal: bool,
    pub sync_preview_active: bool,
    pub sync_preview_current_index: Option<usize>,
    pub link_mode_active: bool,
    pub filter_modal_active: bool,
    pub confirm_dialog_active: bool,
    pub search_focused: bool,
    pub detail_pane_focused: bool,
}

/// `c` is the key of character `ch`.
pub open spec fn is_char(c: KeyCode, ch: char) -> bool {
    c == KeyCode::Char(ch)
}

/// Keys of the help modal: j/k or arrows scroll, g/G jump, Esc ? q close.
pub open spec fn help_action(c: KeyCode) -> RemoteAction {
    if is_char(c, 'j') || c == KeyCode::Down {
        RemoteAction::ScrollHelpDown
    } else if is_char(c, 'k') || c == KeyCode::Up {
        RemoteAction::ScrollHelpUp
    } else if is_char(c, 'g') {
        RemoteAction::ScrollHelpToTop
    } else if is_char(c, 'G') {
        RemoteAction::ScrollHelpToBottom
    } else if c == KeyCode::Esc || is_char(c, '?') || is_char(c, 'q') {
        RemoteAction::HideHelp
    } else {
        RemoteAction::Consumed
    }
}

/// Keys of the error modal: Esc closes it.
pub open spec fn error_action(c: KeyCode) -> RemoteAction {
    if c == KeyCode::Esc {
        RemoteAction::ToggleErrorModal
    } else {
        RemoteAction::Consumed
    }
}

/// Keys of a confirmation: y yes; n, c or Esc no (either case).
pub open spec fn confirm_action(c: KeyCode) -> RemoteAction {
    if is_char(c, 'y') || is_char(c, 'Y') {
        RemoteAction::ConfirmYes
    } else if is_char(c, 'n') || is_char(c, 'N') || is_char(c, 'c') || is_char(c, 'C') || c
        == KeyCode::Esc {
        RemoteAction::ConfirmNo
    } else {
        RemoteAction::Consumed
    }
}

/// Keys of the sync preview.
pub open spec fn sync_action(c: KeyCode) -> RemoteAction {
    if is_char(c, 'y') {
        RemoteAction::SyncAccept
    } else if is_char(c, 'n') {
        RemoteAction::SyncSkip
    } else if is_char(c, 'a') {
        RemoteAction::SyncAcceptAll
    } else if is_char(c, 'c') || c == KeyCode::Esc {
        RemoteAction::SyncCancel
    } else if is_char(c, 'j') || c == KeyCode::Down {
        RemoteAction::MoveDown
    } else if is_char(c, 'k') || c == KeyCode::Up {
        RemoteAction::MoveUp
    } else {
        RemoteAction::Consumed
    }
}

/// Keys of link mode.
pub open spec fn link_action(c: KeyCode) -> RemoteAction {
    if is_char(c, 'l') {
        RemoteAction::LinkConfirm
    } else if c == KeyCode::Esc {
        RemoteAction::CancelLinkMode
    } else if is_char(c, 'j') || c == KeyCode::Down {
        RemoteAction::MoveDown
    } else if is_char(c, 'k') || c == KeyCode::Up {
        RemoteAction::MoveUp
    } else {
        RemoteAction::Consumed
    }
}

/// Keys of the filter modal.
pub open spec fn filter_action(c: KeyCode) -> RemoteAction {
    if c == KeyCode::Tab {
        RemoteAction::FilterTab
    } else if c == KeyCode::BackTab {
        RemoteAction::FilterBackTab
    } else if is_char(c, 'x') {
        RemoteAction::FilterClear
    } else if c == KeyCode::Enter {
        RemoteAction::FilterEnter
    } else if is_char(c, 'j') || c == KeyCode::Down {
        RemoteAction::FilterMoveDown
    } else if is_char(c, 'k') || c == KeyCode::Up {
        RemoteAction::FilterMoveUp
    } else if c == KeyCode::Esc {
        RemoteAction::HideFilterModal
    } else {
        RemoteAction::Consumed
    }
}

/// Keys of the focused detail pane.
pub open spec fn detail_action(c: KeyCode) -> RemoteAction {
    if is_char(c, 'j') || c == KeyCode::Down {
        RemoteAction::DetailScrollDown
    } else if is_char(c, 'k') || c == KeyCode::Up {
        RemoteAction::DetailScrollUp
    } else if is_char(c, 'g') {
        RemoteAction::DetailScrollToTop
    } else if is_char(c, 'G') {
        RemoteAction::DetailScrollToBottom
    } else if c == KeyCode::Tab || c == KeyCode::BackTab {
        RemoteAction::ToggleView
    } else if c == KeyCode::Esc {
        RemoteAction::DismissModal
    } else {
        RemoteAction::Consumed
    }
}

/// Keys taken while the search box has the focus; others go to the box.
pub open spec fn search_action(c: KeyCode, m: KeyModifiers) -> Option<RemoteAction> {
    if c == KeyCode::Esc {
        Some(RemoteAction::ClearSearchAndExit)
    } else if c == KeyCode::Enter {
        Some(RemoteAction::ExitSearch)
    } else if is_char(c, 'q') && has_control(m) {
        Some(RemoteAction::Quit)
    } else {
        None
    }
}

/// A character key pressed without modifiers in normal mode.
pub open spec fn plain_char_action(ch: char) -> Option<RemoteAction> {
    if ch == 'j' {
        Some(RemoteAction::MoveDown)
    } else if ch == 'k' {
        Some(RemoteAction::MoveUp)
    } else if ch == 'g' {
        Some(RemoteAction::GoToTop)
    } else if ch == 'G' {
        Some(RemoteAction::GoToBottom)
    } else if ch == 'd' {
        Some(RemoteAction::ToggleDetail)
    } else if ch == ' ' {
        Some(RemoteAction::ToggleSelection)
    } else if ch == '/' {
        Some(RemoteAction::FocusSearch)
    } else if ch == 'r' {
        Some(RemoteAction::Refresh)
    } else if ch == 's' {
        Some(RemoteAction::StartSync)
    } else if ch == 'l' {
        Some(RemoteAction::StartLinkMode)
    } else if ch == 'p' {
        Some(RemoteAction::PushLocal)
    } else if ch == 'u' {
        Some(RemoteAction::UnlinkLocal)
    } else if ch == 'a' {
        Some(RemoteAction::Adopt)
    } else if ch == 'f' {
        Some(RemoteAction::ShowFilterModal)
    } else if ch == '?' {
        Some(RemoteAction::ShowHelp)
    } else if ch == 'e' {
        Some(RemoteAction::ToggleErrorModal)
    } else if ch == 'q' {
        Some(RemoteAction::Quit)
    } else {
        None
    }
}

/// Keys in normal mode: no modal open, search box not focused.
pub open spec fn normal_action(c: KeyCode, m: KeyModifiers) -> Option<RemoteAction> {
    if has_shift(m) {
        if is_char(c, 'J') || is_char(c, 'j') {
            Some(RemoteAction::MoveDownExtendSelection)
        } else if is_char(c, 'K') || is_char(c, 'k') {
            Some(RemoteAction::MoveUpExtendSelection)
        } else if is_char(c, 'G') || is_char(c, 'g') {
            Some(RemoteAction::GoToBottom)
        } else if is_char(c, 'P') || is_char(c, 'p') {
            Some(RemoteAction::SwitchProvider)
        } else {
            None
        }
    } else if c == KeyCode::PageUp {
        Some(RemoteAction::PageUp)
    } else if c == KeyCode::PageDown {
        Some(RemoteAction::PageDown)
    } else if c == KeyCode::BackTab {
        Some(RemoteAction::ToggleView)
    } else if modifier_bits(m) != 0 {
        None
    } else {
        match c {
            KeyCode::Down => Some(RemoteAction::MoveDown),
            KeyCode::Up => Some(RemoteAction::MoveUp),
            KeyCode::Tab => Some(RemoteAction::ToggleView),
            KeyCode::Enter => Some(RemoteAction::ToggleDetail),
            KeyCode::Esc => Some(RemoteAction::Quit),
            KeyCode::Char(ch) => plain_char_action(ch),
            _ => None,
        }
    }
}

/// The action of a key: the first open context takes it, in the order help
/// modal, error modal, confirmation, sync preview, filter modal, link mode,
/// search box, detail pane; else normal mode. `None` lets the key through
/// (to the search box).
pub open spec fn keymap_action(c: KeyCode, m: KeyModifiers, s: ModalStateSnapshot) -> Option<RemoteAction> {
    if s.show_help_modal {
        Some(help_action(c))
    } else if s.show_error_modal {
        Some(error_action(c))
    } else if s.confirm_dialog_active {
        Some(confirm_action(c))
    } else if s.sync_preview_active {
        Some(sync_action(c))
    } else if s.filter_modal_active {
        Some(filter_action(c))
    } else if s.link_mode_active {
        Some(link_action(c))
    } else if s.search_focused {
        search_action(c, m)
    } else if s.detail_pane_focused {
        Some(detail_action(c))
    } else {
        normal_action(c, m)
    }
}

fn help_modal_key(code: KeyCode) -> (r: RemoteAction)
    ensures
        r == help_action(code),
{
    match code {
        KeyCode::Char('j') | KeyCode::Down => RemoteAction::ScrollHelpDown,
        KeyCode::Char('k') | KeyCode::Up => RemoteAction::ScrollHelpUp,
        KeyCode::Char('g') => RemoteAction::ScrollHelpToTop,
        KeyCode::Char('G') => RemoteAction::ScrollHelpToBottom,
        KeyCode::Esc | KeyCode::Char('?') | KeyCode::Char('q') => RemoteAction::HideHelp,
        _ => RemoteAction::Consumed,
    }
}

fn error_modal_key(code: KeyCode) -> (r: RemoteAction)
    ensures
        r == error_action(code),
{
    match code {
        KeyCode::Esc => RemoteAction::ToggleErrorModal,
        _ => RemoteAction::Consumed,
    }
}

fn confirm_dialog_key(code: KeyCode) -> (r: RemoteAction)
    ensures
        r == confirm_action(code),
{
    match code {
        KeyCode::Char('y') | KeyCode::Char('Y') => RemoteAction::ConfirmYes,
        KeyCode::Char('n') | KeyCode::Char('N') | KeyCode::Char('c') | KeyCode::Char('C')
        | KeyCode::Esc => RemoteAction::ConfirmNo,
        _ => RemoteAction::Consumed,
    }
}

fn sync_preview_key(code: KeyCode) -> (r: RemoteAction)
    ensures
        r == sync_action(code),
{
    match code {
        KeyCode::Char('y') => RemoteAction::SyncAccept,
        KeyCode::Char('n') => RemoteAction::SyncSkip,
        KeyCode::Char('a') => RemoteAction::SyncAcceptAll,
        KeyCode::Char('c') | KeyCode::Esc => RemoteAction::SyncCancel,
        KeyCode::Char('j') | KeyCode::Down => RemoteAction::MoveDown,
        KeyCode::Char('k') | KeyCode::Up => RemoteAction::MoveUp,
        _ => RemoteAction::Consumed,
    }
}

fn link_mode_key(code: KeyCode) -> (r: RemoteAction)
    ensures
        r == link_action(code),
{
    match code {
        KeyCode::Char('l') => RemoteAction::LinkConfirm,
        KeyCode::Esc => RemoteAction::CancelLinkMode,
        KeyCode::Char('j') | KeyCode::Down => RemoteAction::MoveDown,
        KeyCode::Char('k') | KeyCode::Up => RemoteAction::MoveUp,
        _ => RemoteAction::Consumed,
    }
}

fn filter_modal_key(code: KeyCode) -> (r: RemoteAction)
    ensures
        r == filter_action(code),
{
    match code {
        KeyCode::Tab => RemoteAction::FilterTab,
        KeyCode::BackTab => RemoteAction::FilterBackTab,
        KeyCode::Char('x') => RemoteAction::FilterClear,
        KeyCode::Enter => RemoteAction::FilterEnter,
        KeyCode::Char('j') | KeyCode::Down => RemoteAction::FilterMoveDown,
        KeyCode::Char('k') | KeyCode::Up => RemoteAction::FilterMoveUp,
        KeyCode::Esc => RemoteAction::HideFilterModal,
        _ => RemoteAction::Consumed,
    }
}

fn detail_pane_key(code: KeyCode) -> (r: RemoteAction)
    ensures
        r == detail_action(code),
{
    match code {
        KeyCode::Char('j') | KeyCode::Down => RemoteAction::DetailScrollDown,
        KeyCode::Char('k') | KeyCode::Up => RemoteAction::DetailScrollUp,
        KeyCode::Char('g') => RemoteAction::DetailScrollToTop,
        KeyCode::Char('G') => RemoteAction::DetailScrollToBottom,
        KeyCode::Tab | KeyCode::BackTab => RemoteAction::ToggleView,
        KeyCode::Esc => RemoteAction::DismissModal,
        _ => RemoteAction::Consumed,
    }
}

fn search_key_to_action(code: KeyCode, modifiers: KeyModifiers) -> (r: Option<RemoteAction>)
    ensures
        r == search_action(code, modifiers),
{
    match code {
        KeyCode::Esc => Some(RemoteAction::ClearSearchAndExit),
        KeyCode::Enter => Some(RemoteAction::ExitSearch),
        KeyCode::Char('q') => {
            if modifiers.contains(KeyModifiers::CONTROL) {
                Some(RemoteAction::Quit)
            } else {
                None
            }
        },
        _ => None,
    }
}

fn plain_char_to_action(ch: char) -> (r: Option<RemoteAction>)
    ensures
        r == plain_char_action(ch),
{
    match ch {
        'j' => Some(RemoteAction::MoveDown),
        'k' => Some(RemoteAction::MoveUp),
        'g' => Some(RemoteAction::GoToTop),
        'G' => Some(RemoteAction::GoToBottom),
        'd' => Some(RemoteAction::ToggleDetail),
        ' ' => Some(RemoteAction::ToggleSelection),
        '/' => Some(RemoteAction::FocusSearch),
        'r' => Some(RemoteAction::Refresh),
        's' => Some(RemoteAction::StartSync),
        'l' => Some(RemoteAction::StartLinkMode),
        'p' => Some(RemoteAction::PushLocal),
        'u' => Some(RemoteAction::UnlinkLocal),
        'a' => Some(RemoteAction::Adopt),
        'f' => Some(RemoteAction::ShowFilterModal),
        '?' => Some(RemoteAction::ShowHelp),
        'e' => Some(RemoteAction::ToggleErrorModal),
        'q' => Some(RemoteAction::Quit),
        _ => None,
    }
}

fn normal_key_to_action(code: KeyCode, modifiers: KeyModifiers) -> (r: Option<RemoteAction>)
    ensures
        r == normal_action(code, modifiers),
{
    if modifiers.contains(KeyModifiers::SHIFT) {
        return match code {
            KeyCode::Char('J') | KeyCode::Char('j') => Some(RemoteAction::MoveDownExtendSelection),
            KeyCode::Char('K') | KeyCode::Char('k') => Some(RemoteAction::MoveUpExtendSelection),
            KeyCode::Char('G') | KeyCode::Char('g') => Some(RemoteAction::GoToBottom),
            KeyCode::Char('P') | KeyCode::Char('p') => Some(RemoteAction::SwitchProvider),
            _ => None,
        };
    }
    match code {
        KeyCode::PageUp => Some(RemoteAction::PageUp),
        KeyCode::PageDown => Some(RemoteAction::PageDown),
        KeyCode::BackTab => Some(RemoteAction::ToggleView),
        _ => {
            if !modifiers.is_empty() {
                None
            } else {
                match code {
                    KeyCode::Down => Some(RemoteAction::MoveDown),
                    KeyCode::Up => Some(RemoteAction::MoveUp),
                    KeyCode::Tab => Some(RemoteAction::ToggleView),
                    KeyCode::Enter => Some(RemoteAction::ToggleDetail),
                    KeyCode::Esc => Some(RemoteAction::Quit),
                    KeyCode::Char(ch) => plain_char_to_action(ch),
                    _ => None,
                }
            }
        },
    }
}

/// The action of a key in the context `state` (see `keymap_action`).
pub fn key_to_action(code: KeyCode, modifiers: KeyModifiers, state: &ModalStateSnapshot) -> (r:
    Option<RemoteAction>)
    ensures
        r == keymap_action(code, modifiers, *state),
{
    if state.show_help_modal {
        return Some(help_modal_key(code));
    }
    if state.show_error_modal {
        return Some(error_modal_key(code));
    }
    if state.confirm_dialog_active {
        return Some(confirm_dialog_key(code));
    }
    if state.sync_preview_active {
        return Some(sync_preview_key(code));
    }
    if state.filter_modal_active {
        return Some(filter_modal_key(code));
    }
    if state.link_mode_active {
        return Some(link_mode_key(code));
    }
    if state.search_focused {
        return search_key_to_action(code, modifiers);
    }
    if state.detail_pane_focused {
        return Some(detail_pane_key(code));
    }
    normal_key_to_action(code, modifiers)
}

/// While a modal other than the search box is open, every key is taken.
pub proof fn lemma_modal_takes_every_key(c: KeyCode, m: KeyModifiers, s: ModalStateSnapshot)
    requires
        s.show_help_modal || s.show_error_modal || s.confirm_dialog_active || s.sync_preview_active
            || s.filter_modal_active || s.link_mode_active,
    ensures
        keymap_action(c, m, s) is Some,
{
}

} // verus!
