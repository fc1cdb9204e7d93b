use janus::tui::keys::{KeyCode, KeyModifiers};
use janus::tui::remote::handlers::keymap::{key_to_action, ModalStateSnapshot, RemoteAction};

fn default_snapshot() -> ModalStateSnapshot {
    ModalStateSnapshot::default()
}

#[test]
fn keymap_test_key_to_action_navigation() {
    let s = default_snapshot();
    assert_eq!(
        key_to_action(KeyCode::Char('j'), KeyModifiers::NONE, &s),
        Some(RemoteAction::MoveDown)
    );
    assert_eq!(
        key_to_action(KeyCode::Down, KeyModifiers::NONE, &s),
        Some(RemoteAction::MoveDown)
    );
    assert_eq!(
        key_to_action(KeyCode::Char('k'), KeyModifiers::NONE, &s),
        Some(RemoteAction::MoveUp)
    );
    assert_eq!(
        key_to_action(KeyCode::Up, KeyModifiers::NONE, &s),
        Some(RemoteAction::MoveUp)
    );
    assert_eq!(
        key_to_action(KeyCode::Char('g'), KeyModifiers::NONE, &s),
        Some(RemoteAction::GoToTop)
    );
    assert_eq!(
        key_to_action(KeyCode::Char('G'), KeyModifiers::NONE, &s),
        Some(RemoteAction::GoToBottom)
    );
    assert_eq!(
        key_to_action(KeyCode::PageUp, KeyModifiers::NONE, &s),
        Some(RemoteAction::PageUp)
    );
    assert_eq!(
        key_to_action(KeyCode::PageDown, KeyModifiers::NONE, &s),
        Some(RemoteAction::PageDown)
    );
}


#[test]
fn keymap_test_key_to_action_view() {
    let s = default_snapshot();
    assert_eq!(
        key_to_action(KeyCode::Tab, KeyModifiers::NONE, &s),
        Some(RemoteAction::ToggleView)
    );
    assert_eq!(
        key_to_action(KeyCode::Char('d'), KeyModifiers::NONE, &s),
        Some(RemoteAction::ToggleDetail)
    );
    assert_eq!(
        key_to_action(KeyCode::Enter, KeyModifiers::NONE, &s),
        Some(RemoteAction::ToggleDetail)
    );
}


#[test]
fn keymap_test_key_to_action_operations() {
    let s = default_snapshot();
    assert_eq!(
        key_to_action(KeyCode::Char('r'), KeyModifiers::NONE, &s),
        Some(RemoteAction::Refresh)
    );
    assert_eq!(
        key_to_action(KeyCode::Char('s'), KeyModifiers::NONE, &s),
        Some(RemoteAction::StartSync)
    );
    assert_eq!(
        key_to_action(KeyCode::Char('l'), KeyModifiers::NONE, &s),
        Some(RemoteAction::StartLinkMode)
    );
    assert_eq!(
        key_to_action(KeyCode::Char('a'), KeyModifiers::NONE, &s),
        Some(RemoteAction::Adopt)
    );
    assert_eq!(
        key_to_action(KeyCode::Char('p'), KeyModifiers::NONE, &s),
        Some(RemoteAction::PushLocal)
    );
    assert_eq!(
        key_to_action(KeyCode::Char('u'), KeyModifiers::NONE, &s),
        Some(RemoteAction::UnlinkLocal)
    );
}


#[test]
fn keymap_test_key_to_action_modals() {
    let s = default_snapshot();
    assert_eq!(
        key_to_action(KeyCode::Char('f'), KeyModifiers::NONE, &s),
        Some(RemoteAction::ShowFilterModal)
    );
    assert_eq!(
        key_to_action(KeyCode::Char('?'), KeyModifiers::NONE, &s),
        Some(RemoteAction::ShowHelp)
    );
    assert_eq!(
        key_to_action(KeyCode::Char('e'), KeyModifiers::NONE, &s),
        Some(RemoteAction::ToggleErrorModal)
    );
    assert_eq!(
        key_to_action(KeyCode::Char('q'), KeyModifiers::NONE, &s),
        Some(RemoteAction::Quit)
    );
    assert_eq!(
        key_to_action(KeyCode::Esc, KeyModifiers::NONE, &s),
        Some(RemoteAction::Quit)
    );
}


#[test]
fn keymap_test_key_to_action_search_mode() {
    let s = ModalStateSnapshot {
        search_focused: true,
        ..default_snapshot()
    };

    assert_eq!(
        key_to_action(KeyCode::Esc, KeyModifiers::NONE, &s),
        Some(RemoteAction::ClearSearchAndExit)
    );
    assert_eq!(
        key_to_action(KeyCode::Enter, KeyModifiers::NONE, &s),
        Some(RemoteAction::ExitSearch)
    );
    assert_eq!(
        key_to_action(KeyCode::Char('q'), KeyModifiers::CONTROL, &s),
        Some(RemoteAction::Quit)
    );
    // Regular keys return None so the search component handles them
    assert_eq!(
        key_to_action(KeyCode::Char('a'), KeyModifiers::NONE, &s),
        None
    );
}


#[test]
fn keymap_test_key_to_action_help_modal() {
    let s = ModalStateSnapshot {
        show_help_modal: true,
        ..default_snapshot()
    };

    assert_eq!(
        key_to_action(KeyCode::Esc, KeyModifiers::NONE, &s),
        Some(RemoteAction::HideHelp)
    );
    assert_eq!(
        key_to_action(KeyCode::Char('?'), KeyModifiers::NONE, &s),
        Some(RemoteAction::HideHelp)
    );
    assert_eq!(
        key_to_action(KeyCode::Char('q'), KeyModifiers::NONE, &s),
        Some(RemoteAction::HideHelp)
    );
    assert_eq!(
        key_to_action(KeyCode::Char('j'), KeyModifiers::NONE, &s),
        Some(RemoteAction::ScrollHelpDown)
    );
    assert_eq!(
        key_to_action(KeyCode::Char('k'), KeyModifiers::NONE, &s),
        Some(RemoteAction::ScrollHelpUp)
    );
    assert_eq!(
        key_to_action(KeyCode::Char('g'), KeyModifiers::NONE, &s),
        Some(RemoteAction::ScrollHelpToTop)
    );
    assert_eq!(
        key_to_action(KeyCode::Char('G'), KeyModifiers::NONE, &s),
        Some(RemoteAction::ScrollHelpToBottom)
    );
    // Other keys consumed
    assert_eq!(
        key_to_action(KeyCode::Char('x'), KeyModifiers::NONE, &s),
        Some(RemoteAction::Consumed)
    );
}


#[test]
fn keymap_test_key_to_action_link_mode() {
    let s = ModalStateSnapshot {
        link_mode_active: true,
        ..default_snapshot()
    };

    assert_eq!(
        key_to_action(KeyCode::Esc, KeyModifiers::NONE, &s),
        Some(RemoteAction::CancelLinkMode)
    );
    assert_eq!(
        key_to_action(KeyCode::Char('l'), KeyModifiers::NONE, &s),
        Some(RemoteAction::LinkConfirm)
    );
    assert_eq!(
        key_to_action(KeyCode::Char('j'), KeyModifiers::NONE, &s),
        Some(RemoteAction::MoveDown)
    );
    assert_eq!(
        key_to_action(KeyCode::Char('k'), KeyModifiers::NONE, &s),
        Some(RemoteAction::MoveUp)
    );
    // Other keys consumed
    assert_eq!(
        key_to_action(KeyCode::Char('x'), KeyModifiers::NONE, &s),
        Some(RemoteAction::Consumed)
    );
}


#[test]
fn test_key_to_action_confirm_dialog() {
    let s = ModalStateSnapshot {
        confirm_dialog_active: true,
        ..default_snapshot()
    };

    assert_eq!(
        key_to_action(KeyCode::Char('y'), KeyModifiers::NONE, &s),
        Some(RemoteAction::ConfirmYes)
    );
    assert_eq!(
        key_to_action(KeyCode::Char('Y'), KeyModifiers::NONE, &s),
        Some(RemoteAction::ConfirmYes)
    );
    assert_eq!(
        key_to_action(KeyCode::Char('n'), KeyModifiers::NONE, &s),
        Some(RemoteAction::ConfirmNo)
    );
    assert_eq!(
        key_to_action(KeyCode::Esc, KeyModifiers::NONE, &s),
        Some(RemoteAction::ConfirmNo)
    );
    // Other keys consumed
    assert_eq!(
        key_to_action(KeyCode::Char('x'), KeyModifiers::NONE, &s),
        Some(RemoteAction::Consumed)
    );
}


#[test]
fn test_key_to_action_detail_pane_focused() {
    let s = ModalStateSnapshot {
        detail_pane_focused: true,
        ..default_snapshot()
    };

    assert_eq!(
        key_to_action(KeyCode::Char('j'), KeyModifiers::NONE, &s),
        Some(RemoteAction::DetailScrollDown)
    );
    assert_eq!(
        key_to_action(KeyCode::Char('k'), KeyModifiers::NONE, &s),
        Some(RemoteAction::DetailScrollUp)
    );
    assert_eq!(
        key_to_action(KeyCode::Char('g'), KeyModifiers::NONE, &s),
        Some(RemoteAction::DetailScrollToTop)
    );
    assert_eq!(
        key_to_action(KeyCode::Char('G'), KeyModifiers::NONE, &s),
        Some(RemoteAction::DetailScrollToBottom)
    );
    assert_eq!(
        key_to_action(KeyCode::Tab, KeyModifiers::NONE, &s),
        Some(RemoteAction::ToggleView)
    );
    assert_eq!(
        key_to_action(KeyCode::Esc, KeyModifiers::NONE, &s),
        Some(RemoteAction::DismissModal)
    );
    // Other keys consumed
    assert_eq!(
        key_to_action(KeyCode::Char('x'), KeyModifiers::NONE, &s),
        Some(RemoteAction::Consumed)
    );
}


#[test]
fn test_key_to_action_sync_preview() {
    let s = ModalStateSnapshot {
        sync_preview_active: true,
        sync_preview_current_index: Some(0),
        ..default_snapshot()
    };

    assert_eq!(
        key_to_action(KeyCode::Char('y'), KeyModifiers::NONE, &s),
        Some(RemoteAction::SyncAccept)
    );
    assert_eq!(
        key_to_action(KeyCode::Char('n'), KeyModifiers::NONE, &s),
        Some(RemoteAction::SyncSkip)
    );
    assert_eq!(
        key_to_action(KeyCode::Char('a'), KeyModifiers::NONE, &s),
        Some(RemoteAction::SyncAcceptAll)
    );
    assert_eq!(
        key_to_action(KeyCode::Char('c'), KeyModifiers::NONE, &s),
        Some(RemoteAction::SyncCancel)
    );
    assert_eq!(
        key_to_action(KeyCode::Esc, KeyModifiers::NONE, &s),
        Some(RemoteAction::SyncCancel)
    );
    assert_eq!(
        key_to_action(KeyCode::Char('j'), KeyModifiers::NONE, &s),
        Some(RemoteAction::MoveDown)
    );
    // Other keys consumed
    assert_eq!(
        key_to_action(KeyCode::Char('z'), KeyModifiers::NONE, &s),
        Some(RemoteAction::Consumed)
    );
}


#[test]
fn test_key_to_action_filter_modal() {
    let s = ModalStateSnapshot {
        filter_modal_active: true,
        ..default_snapshot()
    };

    assert_eq!(
        key_to_action(KeyCode::Tab, KeyModifiers::NONE, &s),
        Some(RemoteAction::FilterTab)
    );
    assert_eq!(
        key_to_action(KeyCode::BackTab, KeyModifiers::NONE, &s),
        Some(RemoteAction::FilterBackTab)
    );
    assert_eq!(
        key_to_action(KeyCode::Char('x'), KeyModifiers::NONE, &s),
        Some(RemoteAction::FilterClear)
    );
    assert_eq!(
        key_to_action(KeyCode::Enter, KeyModifiers::NONE, &s),
        Some(RemoteAction::FilterEnter)
    );
    assert_eq!(
        key_to_action(KeyCode::Char('j'), KeyModifiers::NONE, &s),
        Some(RemoteAction::FilterMoveDown)
    );
    assert_eq!(
        key_to_action(KeyCode::Char('k'), KeyModifiers::NONE, &s),
        Some(RemoteAction::FilterMoveUp)
    );
    assert_eq!(
        key_to_action(KeyCode::Esc, KeyModifiers::NONE, &s),
        Some(RemoteAction::HideFilterModal)
    );
    // Other keys consumed
    assert_eq!(
        key_to_action(KeyCode::Char('z'), KeyModifiers::NONE, &s),
        Some(RemoteAction::Consumed)
    );
}


#[test]
fn test_key_to_action_error_modal() {
    let s = ModalStateSnapshot {
        show_error_modal: true,
        ..default_snapshot()
    };

    assert_eq!(
        key_to_action(KeyCode::Esc, KeyModifiers::NONE, &s),
        Some(RemoteAction::ToggleErrorModal)
    );
    // Other keys consumed
    assert_eq!(
        key_to_action(KeyCode::Char('j'), KeyModifiers::NONE, &s),
        Some(RemoteAction::Consumed)
    );
}


#[test]
fn test_key_to_action_shift_modifiers() {
    let s = default_snapshot();
    assert_eq!(
        key_to_action(KeyCode::Char('J'), KeyModifiers::SHIFT, &s),
        Some(RemoteAction::MoveDownExtendSelection)
    );
    assert_eq!(
        key_to_action(KeyCode::Char('K'), KeyModifiers::SHIFT, &s),
        Some(RemoteAction::MoveUpExtendSelection)
    );
    assert_eq!(
        key_to_action(KeyCode::Char('G'), KeyModifiers::SHIFT, &s),
        Some(RemoteAction::GoToBottom)
    );
    assert_eq!(
        key_to_action(KeyCode::Char('P'), KeyModifiers::SHIFT, &s),
        Some(RemoteAction::SwitchProvider)
    );
}

