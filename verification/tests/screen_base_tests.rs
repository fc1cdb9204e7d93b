use janus::tui::screen_base::{calculate_list_height, should_process_key_event, KeyEventKind, ScreenState};

#[test]
fn test_calculate_list_height() {
    assert_eq!(calculate_list_height(24, 3), 19);
    assert_eq!(calculate_list_height(5, 3), 0);
    assert_eq!(calculate_list_height(40, 5), 33);
}

#[test]
fn test_should_process_key_event() {
    assert!(should_process_key_event(KeyEventKind::Press));
    assert!(should_process_key_event(KeyEventKind::Repeat));
    assert!(!should_process_key_event(KeyEventKind::Release));
}

#[test]
fn reload_waits_for_the_running_load() {
    let mut s = ScreenState::new();
    s.trigger_reload();
    assert!(!s.consume_reload());
    assert!(s.needs_reload);
    s.is_loading = false;
    assert!(s.consume_reload());
    assert!(!s.needs_reload);
    assert!(s.is_loading);
    assert!(!s.consume_reload());
    assert!(!s.check_exit());
}
