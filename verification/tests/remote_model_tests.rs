use janus::remote::{RemoteIssue, RemoteStatus};
use janus::tui::keys::{KeyCode, KeyModifiers};
use janus::tui::remote::error_toast::Toast;
use janus::tui::remote::filter_modal::FilterState;
use janus::tui::remote::link_mode::LinkModeState;
use janus::tui::remote::model::{
    adjust_scroll, compute_remote_view_model, key_to_action, reduce_remote_state, RemoteAction,
    RemoteState,
};
use janus::tui::remote::shortcuts::{compute_shortcuts, ModalVisibility};
use janus::tui::remote::state::ViewMode;
use janus::types::{TicketMetadata, TicketPriority, TicketStatus, TicketType};

fn make_ticket(id: &str, title: &str, status: TicketStatus) -> TicketMetadata {
    TicketMetadata {
        id: Some(id.to_string()),
        title: Some(title.to_string()),
        status: Some(status),
        priority: Some(TicketPriority::P2),
        ticket_type: Some(TicketType::Task),
        ..Default::default()
    }
}

fn make_remote_issue(id: &str, title: &str) -> RemoteIssue {
    RemoteIssue {
        id: id.to_string(),
        title: title.to_string(),
        body: String::new(),
        status: RemoteStatus::Open,
        priority: None,
        assignee: None,
        updated_at: "2024-01-01T00:00:00Z".to_string(),
        url: format!("https://example.com/issues/{id}"),
        labels: vec![],
        team: None,
        project: None,
        milestone: None,
        due_date: None,
        created_at: "2024-01-01T00:00:00Z".to_string(),
        creator: None,
    }
}

fn default_state() -> RemoteState {
    RemoteState::default()
}

fn state_with_data() -> RemoteState {
    RemoteState {
        local_tickets: vec![
            make_ticket("j-1", "Task 1", TicketStatus::New),
            make_ticket("j-2", "Task 2", TicketStatus::InProgress),
            make_ticket("j-3", "Task 3", TicketStatus::Complete),
        ],
        remote_issues: vec![
            make_remote_issue("GH-1", "Issue 1"),
            make_remote_issue("GH-2", "Issue 2"),
            make_remote_issue("GH-3", "Issue 3"),
        ],
        ..default_state()
    }
}

fn many_tickets() -> Vec<TicketMetadata> {
    (0..20).map(|i| make_ticket(&format!("j-{i}"), &format!("Task {i}"), TicketStatus::New)).collect()
}

#[test]
fn test_reduce_move_down_local() {
    let new_state = reduce_remote_state(state_with_data(), RemoteAction::MoveDown, 20);
    assert_eq!(new_state.local_selected_index, 1);
}

#[test]
fn test_reduce_move_down_remote() {
    let mut state = state_with_data();
    state.active_view = ViewMode::Remote;
    let new_state = reduce_remote_state(state, RemoteAction::MoveDown, 20);
    assert_eq!(new_state.remote_selected_index, 1);
}

#[test]
fn model_test_reduce_move_up_at_top() {
    let new_state = reduce_remote_state(state_with_data(), RemoteAction::MoveUp, 20);
    assert_eq!(new_state.local_selected_index, 0);
}

#[test]
fn model_test_reduce_move_down_at_bottom() {
    let mut state = state_with_data();
    state.local_selected_index = 2;
    let new_state = reduce_remote_state(state, RemoteAction::MoveDown, 20);
    assert_eq!(new_state.local_selected_index, 2);
}

#[test]
fn model_test_reduce_go_to_top() {
    let mut state = state_with_data();
    state.local_selected_index = 2;
    state.local_scroll_offset = 1;
    let new_state = reduce_remote_state(state, RemoteAction::GoToTop, 20);
    assert_eq!(new_state.local_selected_index, 0);
    assert_eq!(new_state.local_scroll_offset, 0);
}

#[test]
fn model_test_reduce_go_to_bottom() {
    let new_state = reduce_remote_state(state_with_data(), RemoteAction::GoToBottom, 20);
    assert_eq!(new_state.local_selected_index, 2);
}

#[test]
fn model_test_reduce_page_down() {
    let mut state = state_with_data();
    state.local_tickets = many_tickets();
    let new_state = reduce_remote_state(state, RemoteAction::PageDown, 10);
    assert_eq!(new_state.local_selected_index, 5);
}

#[test]
fn model_test_reduce_page_up() {
    let mut state = state_with_data();
    state.local_tickets = many_tickets();
    state.local_selected_index = 10;
    let new_state = reduce_remote_state(state, RemoteAction::PageUp, 10);
    assert_eq!(new_state.local_selected_index, 5);
}

#[test]
fn test_reduce_toggle_view() {
    let state = state_with_data();
    assert_eq!(state.active_view, ViewMode::Local);
    let new_state = reduce_remote_state(state, RemoteAction::ToggleView, 20);
    assert_eq!(new_state.active_view, ViewMode::Remote);
}

#[test]
fn test_reduce_toggle_detail() {
    let state = state_with_data();
    assert!(!state.show_detail);
    let new_state = reduce_remote_state(state, RemoteAction::ToggleDetail, 20);
    assert!(new_state.show_detail);
}

#[test]
fn test_reduce_toggle_selection() {
    let new_state = reduce_remote_state(state_with_data(), RemoteAction::ToggleSelection, 20);
    assert!(new_state.local_selected_ids.contains("j-1"));
}

#[test]
fn test_reduce_toggle_selection_off() {
    let mut state = state_with_data();
    state.local_selected_ids.insert("j-1".to_string());
    let new_state = reduce_remote_state(state, RemoteAction::ToggleSelection, 20);
    assert!(!new_state.local_selected_ids.contains("j-1"));
}

#[test]
fn test_reduce_select_all() {
    let new_state = reduce_remote_state(state_with_data(), RemoteAction::SelectAll, 20);
    assert_eq!(new_state.local_selected_ids.len(), 3);
}

#[test]
fn test_reduce_clear_selection() {
    let mut state = state_with_data();
    state.local_selected_ids.insert("j-1".to_string());
    state.local_selected_ids.insert("j-2".to_string());
    let new_state = reduce_remote_state(state, RemoteAction::ClearSelection, 20);
    assert!(new_state.local_selected_ids.is_empty());
}

#[test]
fn test_reduce_move_down_extend_selection() {
    let new_state = reduce_remote_state(state_with_data(), RemoteAction::MoveDownExtendSelection, 20);
    assert!(new_state.local_selected_ids.contains("j-1"));
    assert!(new_state.local_selected_ids.contains("j-2"));
    assert_eq!(new_state.local_selected_index, 1);
}

#[test]
fn model_test_reduce_focus_search() {
    let new_state = reduce_remote_state(state_with_data(), RemoteAction::FocusSearch, 20);
    assert!(new_state.search_focused);
}

#[test]
fn model_test_reduce_update_search() {
    let new_state =
        reduce_remote_state(state_with_data(), RemoteAction::UpdateSearch("test".to_string()), 20);
    assert_eq!(new_state.search_query, "test");
}

#[test]
fn test_reduce_update_search_resets_selection() {
    let mut state = state_with_data();
    state.local_selected_index = 2;
    let new_state = reduce_remote_state(state, RemoteAction::UpdateSearch("test".to_string()), 20);
    assert_eq!(new_state.local_selected_index, 0);
}

#[test]
fn model_test_reduce_exit_search() {
    let mut state = state_with_data();
    state.search_focused = true;
    state.search_query = "test".to_string();
    let new_state = reduce_remote_state(state, RemoteAction::ExitSearch, 20);
    assert!(!new_state.search_focused);
    assert_eq!(new_state.search_query, "test");
}

#[test]
fn model_test_reduce_clear_search_and_exit() {
    let mut state = state_with_data();
    state.search_focused = true;
    state.search_query = "test".to_string();
    let new_state = reduce_remote_state(state, RemoteAction::ClearSearchAndExit, 20);
    assert!(!new_state.search_focused);
    assert!(new_state.search_query.is_empty());
}

#[test]
fn test_reduce_show_help() {
    let new_state = reduce_remote_state(state_with_data(), RemoteAction::ShowHelp, 20);
    assert!(new_state.show_help_modal);
}

#[test]
fn test_reduce_hide_help() {
    let mut state = state_with_data();
    state.show_help_modal = true;
    let new_state = reduce_remote_state(state, RemoteAction::HideHelp, 20);
    assert!(!new_state.show_help_modal);
}

#[test]
fn test_reduce_show_filter_modal() {
    let new_state = reduce_remote_state(state_with_data(), RemoteAction::ShowFilterModal, 20);
    assert!(new_state.filter_modal.is_some());
}

#[test]
fn test_reduce_hide_filter_modal() {
    let mut state = state_with_data();
    state.filter_modal = Some(FilterState::default());
    let new_state = reduce_remote_state(state, RemoteAction::HideFilterModal, 20);
    assert!(new_state.filter_modal.is_none());
}

#[test]
fn test_reduce_dismiss_toast() {
    let mut state = state_with_data();
    state.toast = Some(Toast::info("Test"));
    let new_state = reduce_remote_state(state, RemoteAction::DismissToast, 20);
    assert!(new_state.toast.is_none());
}

#[test]
fn test_reduce_start_link_mode() {
    let new_state = reduce_remote_state(state_with_data(), RemoteAction::StartLinkMode, 20);
    assert!(new_state.link_mode.is_some());
    assert_eq!(new_state.active_view, ViewMode::Remote);
}

#[test]
fn test_reduce_cancel_link_mode() {
    let mut state = state_with_data();
    state.link_mode = Some(LinkModeState::new(ViewMode::Local, "j-1".to_string(), "Task 1".to_string()));
    state.active_view = ViewMode::Remote;
    let new_state = reduce_remote_state(state, RemoteAction::CancelLinkMode, 20);
    assert!(new_state.link_mode.is_none());
    assert_eq!(new_state.active_view, ViewMode::Local);
}

#[test]
fn test_reduce_quit() {
    let new_state = reduce_remote_state(state_with_data(), RemoteAction::Quit, 20);
    assert!(new_state.should_exit);
}

#[test]
fn model_test_key_to_action_navigation() {
    let state = default_state();
    assert_eq!(key_to_action(KeyCode::Char('j'), KeyModifiers::NONE, &state), Some(RemoteAction::MoveDown));
    assert_eq!(key_to_action(KeyCode::Down, KeyModifiers::NONE, &state), Some(RemoteAction::MoveDown));
    assert_eq!(key_to_action(KeyCode::Char('k'), KeyModifiers::NONE, &state), Some(RemoteAction::MoveUp));
    assert_eq!(key_to_action(KeyCode::Up, KeyModifiers::NONE, &state), Some(RemoteAction::MoveUp));
    assert_eq!(key_to_action(KeyCode::Char('g'), KeyModifiers::NONE, &state), Some(RemoteAction::GoToTop));
    assert_eq!(key_to_action(KeyCode::Char('G'), KeyModifiers::NONE, &state), Some(RemoteAction::GoToBottom));
}

#[test]
fn model_test_key_to_action_view() {
    let state = default_state();
    assert_eq!(key_to_action(KeyCode::Tab, KeyModifiers::NONE, &state), Some(RemoteAction::ToggleView));
    assert_eq!(key_to_action(KeyCode::Char('d'), KeyModifiers::NONE, &state), Some(RemoteAction::ToggleDetail));
}

#[test]
fn model_test_key_to_action_operations() {
    let state = default_state();
    assert_eq!(key_to_action(KeyCode::Char('r'), KeyModifiers::NONE, &state), Some(RemoteAction::Fetch));
    assert_eq!(key_to_action(KeyCode::Char('s'), KeyModifiers::NONE, &state), Some(RemoteAction::StartSync));
    assert_eq!(key_to_action(KeyCode::Char('l'), KeyModifiers::NONE, &state), Some(RemoteAction::StartLinkMode));
    assert_eq!(key_to_action(KeyCode::Char('u'), KeyModifiers::NONE, &state), Some(RemoteAction::Unlink));
    assert_eq!(key_to_action(KeyCode::Char('e'), KeyModifiers::NONE, &state), Some(RemoteAction::EditLocal));
    assert_eq!(key_to_action(KeyCode::Char('o'), KeyModifiers::NONE, &state), Some(RemoteAction::OpenRemote));
}

#[test]
fn model_test_key_to_action_modals() {
    let state = default_state();
    assert_eq!(key_to_action(KeyCode::Char('f'), KeyModifiers::NONE, &state), Some(RemoteAction::ShowFilterModal));
    assert_eq!(key_to_action(KeyCode::Char('?'), KeyModifiers::NONE, &state), Some(RemoteAction::ShowHelp));
    assert_eq!(key_to_action(KeyCode::Char('q'), KeyModifiers::NONE, &state), Some(RemoteAction::Quit));
    assert_eq!(key_to_action(KeyCode::Esc, KeyModifiers::NONE, &state), Some(RemoteAction::Quit));
}

#[test]
fn model_test_key_to_action_search_mode() {
    let mut state = default_state();
    state.search_focused = true;
    assert_eq!(key_to_action(KeyCode::Esc, KeyModifiers::NONE, &state), Some(RemoteAction::ClearSearchAndExit));
    assert_eq!(key_to_action(KeyCode::Enter, KeyModifiers::NONE, &state), Some(RemoteAction::ExitSearch));
    assert_eq!(key_to_action(KeyCode::Char('q'), KeyModifiers::CONTROL, &state), Some(RemoteAction::Quit));
    assert_eq!(key_to_action(KeyCode::Char('a'), KeyModifiers::NONE, &state), None);
}

#[test]
fn model_test_key_to_action_help_modal() {
    let mut state = default_state();
    state.show_help_modal = true;
    assert_eq!(key_to_action(KeyCode::Esc, KeyModifiers::NONE, &state), Some(RemoteAction::HideHelp));
    assert_eq!(key_to_action(KeyCode::Char('?'), KeyModifiers::NONE, &state), Some(RemoteAction::HideHelp));
    assert_eq!(key_to_action(KeyCode::Char('j'), KeyModifiers::NONE, &state), None);
}

#[test]
fn model_test_key_to_action_link_mode() {
    let mut state = default_state();
    state.link_mode = Some(LinkModeState::new(ViewMode::Local, "j-1".to_string(), "Task".to_string()));
    assert_eq!(key_to_action(KeyCode::Esc, KeyModifiers::NONE, &state), Some(RemoteAction::CancelLinkMode));
    assert_eq!(key_to_action(KeyCode::Enter, KeyModifiers::NONE, &state), Some(RemoteAction::ConfirmLink));
    assert_eq!(key_to_action(KeyCode::Char('j'), KeyModifiers::NONE, &state), Some(RemoteAction::MoveDown));
    assert_eq!(key_to_action(KeyCode::Char('k'), KeyModifiers::NONE, &state), Some(RemoteAction::MoveUp));
}

#[test]
fn model_test_compute_view_model_empty() {
    let vm = compute_remote_view_model(&default_state(), 20);
    assert_eq!(vm.local_list.tickets.len(), 0);
    assert_eq!(vm.remote_list.issues.len(), 0);
    assert!(vm.detail.local_ticket.is_none());
    assert!(vm.detail.remote_issue.is_none());
    assert!(!vm.is_loading);
}

#[test]
fn test_compute_view_model_with_data() {
    let vm = compute_remote_view_model(&state_with_data(), 20);
    assert_eq!(vm.local_list.tickets.len(), 3);
    assert_eq!(vm.remote_list.issues.len(), 3);
    assert!(vm.detail.local_ticket.is_some());
    assert!(vm.detail.remote_issue.is_some());
    assert_eq!(vm.header.local_count, 3);
    assert_eq!(vm.header.remote_count, 3);
}

#[test]
fn model_test_compute_view_model_with_search() {
    let mut state = state_with_data();
    state.search_query = "Task 1".to_string();
    let vm = compute_remote_view_model(&state, 20);
    assert_eq!(vm.local_list.tickets.len(), 1);
    assert_eq!(vm.search.query, "Task 1");
}

#[test]
fn test_compute_view_model_focus_states() {
    let mut state = state_with_data();
    state.active_view = ViewMode::Local;
    let vm = compute_remote_view_model(&state, 20);
    assert!(vm.local_list.is_focused);
    assert!(!vm.remote_list.is_focused);
    state.active_view = ViewMode::Remote;
    let vm = compute_remote_view_model(&state, 20);
    assert!(!vm.local_list.is_focused);
    assert!(vm.remote_list.is_focused);
    state.search_focused = true;
    let vm = compute_remote_view_model(&state, 20);
    assert!(!vm.local_list.is_focused);
    assert!(!vm.remote_list.is_focused);
    assert!(vm.search.is_focused);
}

#[test]
fn test_adjust_scroll() {
    assert_eq!(adjust_scroll(0, 5, 10), 0);
    assert_eq!(adjust_scroll(5, 8, 10), 5);
    assert_eq!(adjust_scroll(0, 15, 10), 6);
    assert_eq!(adjust_scroll(10, 5, 10), 5);
    assert_eq!(adjust_scroll(5, 10, 0), 0);
}

#[test]
fn test_compute_shortcuts_normal() {
    let shortcuts = compute_shortcuts(&ModalVisibility::new(), ViewMode::Local);
    assert!(!shortcuts.is_empty());
    assert!(shortcuts.iter().any(|s| s.key == "C-q"));
    assert!(shortcuts.iter().any(|s| s.key == "Tab"));
}

#[test]
fn test_compute_shortcuts_help_modal() {
    let shortcuts =
        compute_shortcuts(&ModalVisibility { show_help_modal: true, ..Default::default() }, ViewMode::Local);
    assert!(shortcuts.iter().any(|s| s.key == "Esc"));
}

#[test]
fn test_compute_shortcuts_search() {
    let shortcuts =
        compute_shortcuts(&ModalVisibility { search_focused: true, ..Default::default() }, ViewMode::Local);
    assert!(shortcuts.iter().any(|s| s.key == "Enter"));
    assert!(shortcuts.iter().any(|s| s.key == "Esc"));
}

#[test]
fn toggling_the_view_twice_restores_it() {
    let s1 = reduce_remote_state(state_with_data(), RemoteAction::ToggleView, 20);
    let s2 = reduce_remote_state(s1, RemoteAction::ToggleView, 20);
    assert_eq!(s2.active_view, ViewMode::Local);
}

#[test]
fn selection_stays_in_bounds_and_visible() {
    let mut state = state_with_data();
    state.local_tickets = many_tickets();
    for _ in 0..30 {
        state = reduce_remote_state(state, RemoteAction::MoveDown, 5);
        assert!(state.local_selected_index < 20);
        assert!(state.local_scroll_offset <= state.local_selected_index);
        assert!(state.local_selected_index < state.local_scroll_offset + 5);
    }
    assert_eq!(state.local_selected_index, 19);
}
