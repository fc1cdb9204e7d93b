use janus::tui::components::EmptyStateKind;
use janus::tui::keys::{KeyCode, KeyModifiers};
use janus::tui::repository::InitResult;
use janus::tui::state::Pane;
use janus::tui::view::model::{
    adjust_scroll, compute_view_model, get_selected_ticket, get_ticket_at, key_to_action,
    reduce_view_state, EditMode, ViewAction, ViewState,
};
use janus::types::{TicketMetadata, TicketPriority, TicketStatus, TicketType};

fn make_ticket(id: &str, title: &str, status: TicketStatus) -> TicketMetadata {
    TicketMetadata {
        id: Some(id.to_string()),
        title: Some(title.to_string()),
        status: Some(status),
        priority: Some(TicketPriority::P2),
        ticket_type: Some(TicketType::Task),
        ..Default::default()
    }
}

fn default_state() -> ViewState {
    ViewState {
        tickets: vec![],
        search_query: String::new(),
        selected_index: 0,
        scroll_offset: 0,
        active_pane: Pane::List,
        is_loading: false,
        init_result: InitResult::Loaded,
        toast: None,
        edit_mode: None,
        debounce_ms: 10,
        last_search_change: None,
        search_in_flight: false,
    }
}

fn state_with_tickets(count: usize) -> ViewState {
    let tickets: Vec<TicketMetadata> = (0..count)
        .map(|i| make_ticket(&format!("j-{i}"), &format!("Task {i}"), TicketStatus::New))
        .collect();
    ViewState {
        tickets,
        ..default_state()
    }
}


#[test]
fn test_reduce_move_down() {
    let state = state_with_tickets(5);
    let new_state = reduce_view_state(state, ViewAction::MoveDown, 10);
    assert_eq!(new_state.selected_index, 1);
}

#[test]
fn test_reduce_move_down_at_bottom() {
    let mut state = state_with_tickets(5);
    state.selected_index = 4; // Last item
    let new_state = reduce_view_state(state, ViewAction::MoveDown, 10);
    assert_eq!(new_state.selected_index, 4); // Should stay at bottom
}

#[test]
fn test_reduce_move_up() {
    let mut state = state_with_tickets(5);
    state.selected_index = 2;
    let new_state = reduce_view_state(state, ViewAction::MoveUp, 10);
    assert_eq!(new_state.selected_index, 1);
}

#[test]
fn test_reduce_move_up_at_top() {
    let state = state_with_tickets(5);
    let new_state = reduce_view_state(state, ViewAction::MoveUp, 10);
    assert_eq!(new_state.selected_index, 0); // Should stay at top
}

#[test]
fn test_reduce_go_to_top() {
    let mut state = state_with_tickets(5);
    state.selected_index = 3;
    state.scroll_offset = 2;
    let new_state = reduce_view_state(state, ViewAction::GoToTop, 10);
    assert_eq!(new_state.selected_index, 0);
    assert_eq!(new_state.scroll_offset, 0);
}

#[test]
fn test_reduce_go_to_bottom() {
    let state = state_with_tickets(5);
    let new_state = reduce_view_state(state, ViewAction::GoToBottom, 10);
    assert_eq!(new_state.selected_index, 4);
}

#[test]
fn test_reduce_page_down() {
    let state = state_with_tickets(20);
    let new_state = reduce_view_state(state, ViewAction::PageDown, 10);
    assert_eq!(new_state.selected_index, 5); // Half page (10/2)
}

#[test]
fn test_reduce_page_up() {
    let mut state = state_with_tickets(20);
    state.selected_index = 10;
    let new_state = reduce_view_state(state, ViewAction::PageUp, 10);
    assert_eq!(new_state.selected_index, 5); // Half page up
}


#[test]
fn test_reduce_cycle_pane_forward() {
    let mut state = default_state();
    state.active_pane = Pane::Search;
    let new_state = reduce_view_state(state, ViewAction::CyclePaneForward, 10);
    assert_eq!(new_state.active_pane, Pane::List);

    let new_state = reduce_view_state(new_state, ViewAction::CyclePaneForward, 10);
    assert_eq!(new_state.active_pane, Pane::Detail);

    let new_state = reduce_view_state(new_state, ViewAction::CyclePaneForward, 10);
    assert_eq!(new_state.active_pane, Pane::Search);
}

#[test]
fn test_reduce_cycle_pane_backward() {
    let mut state = default_state();
    state.active_pane = Pane::Search;
    let new_state = reduce_view_state(state, ViewAction::CyclePaneBackward, 10);
    assert_eq!(new_state.active_pane, Pane::Detail);

    let new_state = reduce_view_state(new_state, ViewAction::CyclePaneBackward, 10);
    assert_eq!(new_state.active_pane, Pane::List);

    let new_state = reduce_view_state(new_state, ViewAction::CyclePaneBackward, 10);
    assert_eq!(new_state.active_pane, Pane::Search);
}


#[test]
fn test_reduce_focus_search() {
    let state = default_state();
    let new_state = reduce_view_state(state, ViewAction::FocusSearch, 10);
    assert_eq!(new_state.active_pane, Pane::Search);
}

#[test]
fn test_reduce_update_search() {
    let state = default_state();
    let new_state = reduce_view_state(state, ViewAction::UpdateSearch("bug".to_string()), 10);
    assert_eq!(new_state.search_query, "bug");
}

#[test]
fn test_reduce_search_resets_selection() {
    let mut state = state_with_tickets(10);
    state.selected_index = 5;
    state.scroll_offset = 3;
    let new_state = reduce_view_state(state, ViewAction::UpdateSearch("test".to_string()), 10);
    assert_eq!(new_state.selected_index, 0);
    assert_eq!(new_state.scroll_offset, 0);
}

#[test]
fn test_reduce_exit_search() {
    let mut state = default_state();
    state.active_pane = Pane::Search;
    state.search_query = "test".to_string();
    let new_state = reduce_view_state(state, ViewAction::ExitSearch, 10);
    assert_eq!(new_state.active_pane, Pane::List);
    assert_eq!(new_state.search_query, "test"); // Query preserved
}

#[test]
fn test_reduce_clear_search_and_exit() {
    let mut state = default_state();
    state.active_pane = Pane::Search;
    state.search_query = "test".to_string();
    let new_state = reduce_view_state(state, ViewAction::ClearSearchAndExit, 10);
    assert_eq!(new_state.active_pane, Pane::List);
    assert_eq!(new_state.search_query, ""); // Query cleared
}


#[test]
fn test_reduce_create_new() {
    let state = default_state();
    let new_state = reduce_view_state(state, ViewAction::CreateNew, 10);
    assert_eq!(new_state.edit_mode, Some(EditMode::Creating));
}

#[test]
fn test_reduce_cancel_edit() {
    let mut state = default_state();
    state.edit_mode = Some(EditMode::Creating);
    let new_state = reduce_view_state(state, ViewAction::CancelEdit, 10);
    assert_eq!(new_state.edit_mode, None);
}


#[test]
fn test_key_to_action_navigation() {
    assert_eq!(
        key_to_action(KeyCode::Char('j'), KeyModifiers::NONE, Pane::List),
        Some(ViewAction::MoveDown)
    );
    assert_eq!(
        key_to_action(KeyCode::Down, KeyModifiers::NONE, Pane::List),
        Some(ViewAction::MoveDown)
    );
    assert_eq!(
        key_to_action(KeyCode::Char('k'), KeyModifiers::NONE, Pane::List),
        Some(ViewAction::MoveUp)
    );
    assert_eq!(
        key_to_action(KeyCode::Up, KeyModifiers::NONE, Pane::List),
        Some(ViewAction::MoveUp)
    );
    assert_eq!(
        key_to_action(KeyCode::Char('g'), KeyModifiers::NONE, Pane::List),
        Some(ViewAction::GoToTop)
    );
    assert_eq!(
        key_to_action(KeyCode::Char('G'), KeyModifiers::NONE, Pane::List),
        Some(ViewAction::GoToBottom)
    );
    assert_eq!(
        key_to_action(KeyCode::PageDown, KeyModifiers::NONE, Pane::List),
        Some(ViewAction::PageDown)
    );
    assert_eq!(
        key_to_action(KeyCode::PageUp, KeyModifiers::NONE, Pane::List),
        Some(ViewAction::PageUp)
    );
}

#[test]
fn test_key_to_action_pane_navigation() {
    assert_eq!(
        key_to_action(KeyCode::Tab, KeyModifiers::NONE, Pane::List),
        Some(ViewAction::CyclePaneForward)
    );
    assert_eq!(
        key_to_action(KeyCode::BackTab, KeyModifiers::NONE, Pane::List),
        Some(ViewAction::CyclePaneBackward)
    );
}

#[test]
fn test_key_to_action_app_commands() {
    assert_eq!(
        key_to_action(KeyCode::Char('q'), KeyModifiers::NONE, Pane::List),
        Some(ViewAction::Quit)
    );
    assert_eq!(
        key_to_action(KeyCode::Char('/'), KeyModifiers::NONE, Pane::List),
        Some(ViewAction::FocusSearch)
    );
    assert_eq!(
        key_to_action(KeyCode::Char('e'), KeyModifiers::NONE, Pane::List),
        Some(ViewAction::EditSelected)
    );
    assert_eq!(
        key_to_action(KeyCode::Enter, KeyModifiers::NONE, Pane::List),
        Some(ViewAction::EditSelected)
    );
    assert_eq!(
        key_to_action(KeyCode::Char('n'), KeyModifiers::NONE, Pane::List),
        Some(ViewAction::CreateNew)
    );
    assert_eq!(
        key_to_action(KeyCode::Char('s'), KeyModifiers::NONE, Pane::List),
        Some(ViewAction::CycleStatus)
    );
    assert_eq!(
        key_to_action(KeyCode::Char('r'), KeyModifiers::NONE, Pane::List),
        Some(ViewAction::Reload)
    );
}

#[test]
fn test_key_to_action_detail_escape() {
    // Escape in detail pane should go back
    assert_eq!(
        key_to_action(KeyCode::Esc, KeyModifiers::NONE, Pane::Detail),
        Some(ViewAction::CyclePaneBackward)
    );
}

#[test]
fn test_key_to_action_search_mode() {
    // Escape clears and exits
    assert_eq!(
        key_to_action(KeyCode::Esc, KeyModifiers::NONE, Pane::Search),
        Some(ViewAction::ClearSearchAndExit)
    );
    // Enter exits keeping query
    assert_eq!(
        key_to_action(KeyCode::Enter, KeyModifiers::NONE, Pane::Search),
        Some(ViewAction::ExitSearch)
    );
    // Tab exits keeping query
    assert_eq!(
        key_to_action(KeyCode::Tab, KeyModifiers::NONE, Pane::Search),
        Some(ViewAction::ExitSearch)
    );
    // Ctrl+Q quits
    assert_eq!(
        key_to_action(KeyCode::Char('q'), KeyModifiers::CONTROL, Pane::Search),
        Some(ViewAction::Quit)
    );
}

#[test]
fn test_key_to_action_search_mode_regular_keys() {
    // Regular keys in search mode return None (handled by search box)
    assert_eq!(
        key_to_action(KeyCode::Char('a'), KeyModifiers::NONE, Pane::Search),
        None
    );
    assert_eq!(
        key_to_action(KeyCode::Char('j'), KeyModifiers::NONE, Pane::Search),
        None
    );
}

#[test]
fn test_key_to_action_unknown_keys() {
    assert_eq!(
        key_to_action(KeyCode::Char('x'), KeyModifiers::NONE, Pane::List),
        None
    );
    assert_eq!(
        key_to_action(KeyCode::F(1), KeyModifiers::NONE, Pane::List),
        None
    );
}


#[test]
fn test_compute_view_model_empty() {
    let state = default_state();
    let vm = compute_view_model(&state, 10);

    assert_eq!(vm.total_all_tickets, 0);
    assert_eq!(vm.list.tickets.len(), 0);
    assert!(vm.detail.ticket.is_none());
    assert_eq!(vm.empty_state, Some(EmptyStateKind::NoTickets));
    assert!(!vm.is_editing);
}

#[test]
fn test_compute_view_model_with_tickets() {
    let state = state_with_tickets(5);
    let vm = compute_view_model(&state, 10);

    assert_eq!(vm.total_all_tickets, 5);
    assert_eq!(vm.list.tickets.len(), 5);
    assert!(vm.detail.ticket.is_some());
    assert!(vm.empty_state.is_none());
}

#[test]
fn test_compute_view_model_with_search() {
    let tickets = vec![
        make_ticket("j-1", "Fix login bug", TicketStatus::New),
        make_ticket("j-2", "Add feature", TicketStatus::New),
        make_ticket("j-3", "Another bug fix", TicketStatus::InProgress),
    ];
    let state = ViewState {
        tickets,
        search_query: "bug".to_string(),
        ..default_state()
    };
    let vm = compute_view_model(&state, 10);

    assert_eq!(vm.total_all_tickets, 3);
    assert_eq!(vm.list.tickets.len(), 2); // Only "bug" tickets
    assert_eq!(vm.search.query, "bug");
    assert_eq!(vm.search.result_count, 2);
}

#[test]
fn test_compute_view_model_loading() {
    let state = ViewState {
        is_loading: true,
        ..default_state()
    };
    let vm = compute_view_model(&state, 10);

    assert_eq!(vm.empty_state, Some(EmptyStateKind::Loading));
}

#[test]
fn test_compute_view_model_no_janus_dir() {
    let state = ViewState {
        init_result: InitResult::NoJanusDir,
        ..default_state()
    };
    let vm = compute_view_model(&state, 10);

    assert_eq!(vm.empty_state, Some(EmptyStateKind::NoJanusDir));
}

#[test]
fn test_compute_view_model_editing_mode() {
    let mut state = state_with_tickets(3);
    state.edit_mode = Some(EditMode::Creating);
    let vm = compute_view_model(&state, 10);

    assert!(vm.is_editing);
    // List and detail should not be focused when editing
    assert!(!vm.list.is_focused);
    assert!(!vm.detail.is_focused);
}

#[test]
fn test_compute_view_model_pane_focus() {
    let mut state = state_with_tickets(3);

    // Search pane focused
    state.active_pane = Pane::Search;
    let vm = compute_view_model(&state, 10);
    assert!(vm.search.is_focused);
    assert!(!vm.list.is_focused);
    assert!(!vm.detail.is_focused);

    // List pane focused
    state.active_pane = Pane::List;
    let vm = compute_view_model(&state, 10);
    assert!(!vm.search.is_focused);
    assert!(vm.list.is_focused);
    assert!(!vm.detail.is_focused);

    // Detail pane focused
    state.active_pane = Pane::Detail;
    let vm = compute_view_model(&state, 10);
    assert!(!vm.search.is_focused);
    assert!(!vm.list.is_focused);
    assert!(vm.detail.is_focused);
}


#[test]
fn test_adjust_scroll_within_bounds() {
    // Selected is within visible area, scroll stays the same
    assert_eq!(adjust_scroll(0, 3, 10), 0);
    assert_eq!(adjust_scroll(5, 8, 10), 5);
}

#[test]
fn test_adjust_scroll_below_visible() {
    // Selected is below visible area, scroll down
    assert_eq!(adjust_scroll(0, 15, 10), 6);
    assert_eq!(adjust_scroll(5, 20, 10), 11);
}

#[test]
fn test_adjust_scroll_above_visible() {
    // Selected is above visible area, scroll up
    assert_eq!(adjust_scroll(10, 5, 10), 5);
    assert_eq!(adjust_scroll(20, 10, 10), 10);
}

#[test]
fn test_adjust_scroll_zero_height() {
    // Zero height should return 0
    assert_eq!(adjust_scroll(5, 10, 0), 0);
}

#[test]
fn test_get_ticket_at() {
    let state = state_with_tickets(5);

    let ticket = get_ticket_at(&state, 2);
    assert!(ticket.is_some());
    assert_eq!(ticket.unwrap().id, Some("j-2".to_string()));

    // Out of bounds
    assert!(get_ticket_at(&state, 10).is_none());
}

#[test]
fn test_get_selected_ticket() {
    let mut state = state_with_tickets(5);
    state.selected_index = 3;

    let ticket = get_selected_ticket(&state);
    assert!(ticket.is_some());
    assert_eq!(ticket.unwrap().id, Some("j-3".to_string()));
}


#[test]
fn test_edit_mode_equality() {
    assert_eq!(EditMode::Creating, EditMode::Creating);
    assert_eq!(
        EditMode::Editing {
            ticket_id: "j-123".to_string()
        },
        EditMode::Editing {
            ticket_id: "j-123".to_string()
        }
    );
    assert_ne!(
        EditMode::Creating,
        EditMode::Editing {
            ticket_id: "j-123".to_string()
        }
    );
}


#[test]
fn test_view_scroll_down_adjusts_offset() {
    let mut state = ViewState {
        tickets: (0..30)
            .map(|i| make_ticket(&format!("j-{i}"), &format!("Task {i}"), TicketStatus::New))
            .collect(),
        selected_index: 9, // At the boundary of visible area
        scroll_offset: 0,
        ..default_state()
    };

    // Move down with list_height=10 should scroll when going past visible
    state = reduce_view_state(state, ViewAction::MoveDown, 10);
    assert_eq!(state.selected_index, 10);
    assert_eq!(state.scroll_offset, 1, "Should scroll down");
}

#[test]
fn test_view_scroll_up_adjusts_offset() {
    let mut state = ViewState {
        tickets: (0..30)
            .map(|i| make_ticket(&format!("j-{i}"), &format!("Task {i}"), TicketStatus::New))
            .collect(),
        selected_index: 10,
        scroll_offset: 10, // Scrolled down
        ..default_state()
    };

    // Move up should scroll up
    state = reduce_view_state(state, ViewAction::MoveUp, 10);
    assert_eq!(state.selected_index, 9);
    assert_eq!(state.scroll_offset, 9, "Should scroll up");
}

#[test]
fn test_view_go_to_bottom_large_list() {
    let mut state = ViewState {
        tickets: (0..100)
            .map(|i| make_ticket(&format!("j-{i}"), &format!("Task {i}"), TicketStatus::New))
            .collect(),
        selected_index: 0,
        scroll_offset: 0,
        ..default_state()
    };

    state = reduce_view_state(state, ViewAction::GoToBottom, 20);
    assert_eq!(state.selected_index, 99);
    // scroll_offset should position so last item is visible
    assert!(state.scroll_offset >= 80, "Should scroll to show bottom");
}

#[test]
fn test_view_page_down_large_list() {
    let mut state = ViewState {
        tickets: (0..100)
            .map(|i| make_ticket(&format!("j-{i}"), &format!("Task {i}"), TicketStatus::New))
            .collect(),
        selected_index: 0,
        scroll_offset: 0,
        ..default_state()
    };

    // Page down with height 20 should move 10 (half page)
    state = reduce_view_state(state, ViewAction::PageDown, 20);
    assert_eq!(state.selected_index, 10);
}

#[test]
fn test_view_model_scroll_info() {
    let state = ViewState {
        tickets: (0..50)
            .map(|i| make_ticket(&format!("j-{i}"), &format!("Task {i}"), TicketStatus::New))
            .collect(),
        selected_index: 25,
        scroll_offset: 20,
        ..default_state()
    };

    let vm = compute_view_model(&state, 10);
    assert_eq!(vm.list.scroll_offset, 20);
    assert_eq!(vm.list.selected_index, 25);
}

