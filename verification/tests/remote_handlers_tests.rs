use janus::error::JanusError;
use janus::remote::{Platform, RemoteIssue, RemoteQuery, RemoteRef, RemoteStatus};
use janus::tui::keys::{KeyCode, KeyModifiers};
use janus::tui::remote::confirm_modal::ConfirmAction;
use janus::tui::remote::error_toast::ToastLevel;
use janus::tui::remote::filter_modal::FilterState;
use janus::tui::remote::handlers::completions::{
    cancel_sync, fetch_finished, link_finished, push_finished, remote_search_due, search_request,
    sync_apply_finished, sync_fetch_finished, unlink_finished, FetchResult, PaginatedResult,
};
use janus::tui::remote::handlers::context::{HandlerContext, HandlerEffect};
use janus::tui::remote::handlers::keymap::RemoteAction;
use janus::tui::remote::handlers::remote_ops::adopt_finished;
use janus::tui::remote::handlers::{dispatch_action, handle_key_event};
use janus::tui::remote::help::{build_help_lines, build_help_text, help_content_line_count};
use janus::tui::remote::link_mode::LinkModeState;
use janus::tui::remote::operations::{PushError, PushResult};
use janus::tui::remote::state::{
    DetailScrollData, FilterConfigData, ModalVisibilityData, NavigationData, SearchUiData,
    ViewDisplayData, ViewMode,
};
use janus::tui::remote::sync_preview::{
    SyncChange, SyncChangeWithContext, SyncDecision, SyncDirection, SyncPreviewState,
};
use janus::types::{TicketMetadata, TicketStatus};

fn ticket(id: &str, remote: Option<&str>) -> TicketMetadata {
    TicketMetadata {
        id: Some(id.to_string()),
        title: Some(format!("Ticket {id}")),
        status: Some(TicketStatus::New),
        remote: remote.map(|r| r.to_string()),
        ..Default::default()
    }
}

fn issue(id: &str, body: &str) -> RemoteIssue {
    RemoteIssue {
        id: id.to_string(),
        title: format!("Issue {id}"),
        body: body.to_string(),
        status: RemoteStatus::Open,
        priority: None,
        assignee: None,
        updated_at: String::new(),
        url: format!("https://github.com/o/r/issues/{id}"),
        labels: vec![],
        team: None,
        project: None,
        milestone: None,
        due_date: None,
        created_at: String::new(),
        creator: None,
    }
}

fn ctx() -> HandlerContext {
    let local = vec![
        ticket("j-1", Some("github:o/r/1")),
        ticket("j-2", None),
        ticket("j-3", Some("github:o/r/3")),
    ];
    let remote = vec![issue("1", "a\nb\nc"), issue("2", ""), issue("3", "")];
    HandlerContext {
        local_count: local.len(),
        remote_count: remote.len(),
        local_tickets: local,
        remote_issues: remote,
        local_nav: NavigationData::new(),
        remote_nav: NavigationData::new(),
        list_height: 10,
        detail_scroll: DetailScrollData::default(),
        local_body_lines: Some(25),
        display: ViewDisplayData { remote_loading: false, ..ViewDisplayData::new() },
        search: SearchUiData::default(),
        visibility: ModalVisibilityData::default(),
        toast: None,
        link_mode: None,
        sync_preview: None,
        confirm_dialog: None,
        last_error: None,
        filter_modal: None,
        config: FilterConfigData::default(),
    }
}

fn toast_of(c: &HandlerContext) -> (ToastLevel, String) {
    let t = c.toast.as_ref().expect("a toast");
    (t.level, t.message.clone())
}

fn change(field: &str) -> SyncChangeWithContext {
    SyncChangeWithContext {
        ticket_id: "j-1".to_string(),
        remote_ref: "github:o/r/1".to_string(),
        change: SyncChange {
            field_name: field.to_string(),
            local_value: "a".to_string(),
            remote_value: "b".to_string(),
            direction: SyncDirection::RemoteToLocal,
        },
        decision: None,
    }
}

#[test]
fn shift_moves_mark_both_rows() {
    let mut c = ctx();
    dispatch_action(&mut c, RemoteAction::MoveDownExtendSelection);
    assert_eq!(c.local_nav.selected_index, 1);
    assert!(c.local_nav.selected_ids.contains("j-1"));
    assert!(c.local_nav.selected_ids.contains("j-2"));
    dispatch_action(&mut c, RemoteAction::MoveUp);
    assert_eq!(c.local_nav.selected_index, 0);
    assert_eq!(c.local_nav.selected_ids.len(), 2);
}

#[test]
fn moving_down_an_empty_list_selects_the_top() {
    let mut c = ctx();
    c.local_count = 0;
    c.local_nav.selected_index = 2;
    dispatch_action(&mut c, RemoteAction::MoveDown);
    assert_eq!(c.local_nav.selected_index, 0);
}

#[test]
fn detail_pane_scrolls_within_the_body() {
    let mut c = ctx();
    c.display.detail_pane_focused = true;
    dispatch_action(&mut c, RemoteAction::DetailScrollDown);
    assert_eq!(c.detail_scroll.local_offset, 1);
    dispatch_action(&mut c, RemoteAction::DetailScrollToBottom);
    assert_eq!(c.detail_scroll.local_offset, 15);
    dispatch_action(&mut c, RemoteAction::DetailScrollDown);
    assert_eq!(c.detail_scroll.local_offset, 15);
    dispatch_action(&mut c, RemoteAction::DetailScrollToTop);
    assert_eq!(c.detail_scroll.local_offset, 0);
    c.display.active_view = ViewMode::Remote;
    dispatch_action(&mut c, RemoteAction::DetailScrollDown);
    assert_eq!(c.detail_scroll.remote_offset, 0, "a three-line body does not scroll");
}

#[test]
fn select_all_and_clear_on_the_remote_list() {
    let mut c = ctx();
    c.display.active_view = ViewMode::Remote;
    dispatch_action(&mut c, RemoteAction::SelectAll);
    assert_eq!(c.remote_nav.selected_ids.len(), 3);
    dispatch_action(&mut c, RemoteAction::ClearSelection);
    assert!(c.remote_nav.selected_ids.is_empty());
}

#[test]
fn push_skips_linked_tickets() {
    let mut c = ctx();
    c.local_nav.selected_ids.insert("j-1".to_string());
    c.local_nav.selected_ids.insert("j-2".to_string());
    match dispatch_action(&mut c, RemoteAction::PushLocal) {
        Some(HandlerEffect::Push { ticket_ids, provider, query }) => {
            assert_eq!(ticket_ids, vec!["j-2".to_string()]);
            assert_eq!(provider, Platform::GitHub);
            assert_eq!(query.limit, 100);
        }
        other => panic!("unexpected {other:?}"),
    }
    assert_eq!(toast_of(&c), (ToastLevel::Info, "Pushing 1 ticket(s)...".to_string()));
}

#[test]
fn push_of_only_linked_tickets_warns() {
    let mut c = ctx();
    assert!(dispatch_action(&mut c, RemoteAction::PushLocal).is_none());
    assert_eq!(toast_of(&c), (ToastLevel::Warning, "1 ticket(s) already linked, skipping".to_string()));
    let mut c = ctx();
    c.local_tickets.clear();
    assert!(dispatch_action(&mut c, RemoteAction::PushLocal).is_none());
    assert_eq!(toast_of(&c), (ToastLevel::Warning, "No ticket selected to push".to_string()));
}

#[test]
fn unlink_asks_for_confirmation_then_unlinks() {
    let mut c = ctx();
    dispatch_action(&mut c, RemoteAction::UnlinkLocal);
    let dialog = c.confirm_dialog.as_ref().expect("a confirmation");
    assert_eq!(dialog.message, "Unlink ticket 'j-1' from its remote issue?");
    match dispatch_action(&mut c, RemoteAction::ConfirmYes) {
        Some(HandlerEffect::Unlink { ticket_ids }) => assert_eq!(ticket_ids, vec!["j-1".to_string()]),
        other => panic!("unexpected {other:?}"),
    }
    assert!(c.confirm_dialog.is_none());
    assert_eq!(toast_of(&c), (ToastLevel::Info, "Unlinking 1 ticket(s)...".to_string()));
    let mut c = ctx();
    c.local_nav.selected_index = 1;
    dispatch_action(&mut c, RemoteAction::UnlinkLocal);
    assert!(c.confirm_dialog.is_none());
    assert_eq!(toast_of(&c), (ToastLevel::Warning, "No linked tickets selected".to_string()));
}

#[test]
fn confirm_no_closes_the_dialog() {
    let mut c = ctx();
    dispatch_action(&mut c, RemoteAction::UnlinkLocal);
    assert!(dispatch_action(&mut c, RemoteAction::ConfirmNo).is_none());
    assert!(c.confirm_dialog.is_none());
    assert!(matches!(
        janus::tui::remote::confirm_modal::ConfirmDialogState::for_unlink(vec!["a".into(), "b".into()]).action,
        ConfirmAction::Unlink(ref v) if v.len() == 2
    ));
}

#[test]
fn sync_from_the_remote_list_finds_linked_tickets() {
    let mut c = ctx();
    c.display.active_view = ViewMode::Remote;
    c.remote_nav.selected_ids.insert("3".to_string());
    match dispatch_action(&mut c, RemoteAction::StartSync) {
        Some(HandlerEffect::SyncFetch { ticket_ids, provider }) => {
            assert_eq!(ticket_ids, vec!["j-3".to_string()]);
            assert_eq!(provider, Platform::GitHub);
        }
        other => panic!("unexpected {other:?}"),
    }
    assert_eq!(toast_of(&c), (ToastLevel::Info, "Fetching remote data for 1 ticket(s)...".to_string()));
    let mut c = ctx();
    c.local_nav.selected_index = 1;
    assert!(dispatch_action(&mut c, RemoteAction::StartSync).is_none());
    assert_eq!(toast_of(&c), (ToastLevel::Warning, "No linked tickets selected for sync".to_string()));
}

#[test]
fn sync_review_applies_after_the_last_change() {
    let mut c = ctx();
    c.sync_preview = Some(SyncPreviewState::new(vec![change("Title"), change("Status")]));
    assert!(dispatch_action(&mut c, RemoteAction::SyncAccept).is_none());
    assert_eq!(c.sync_preview.as_ref().unwrap().current_change_index, 1);
    match dispatch_action(&mut c, RemoteAction::SyncSkip) {
        Some(HandlerEffect::SyncApply { preview, provider, .. }) => {
            assert_eq!(provider, Platform::GitHub);
            assert_eq!(preview.changes[0].decision, Some(SyncDecision::Accept));
            assert_eq!(preview.changes[1].decision, Some(SyncDecision::Skip));
        }
        other => panic!("unexpected {other:?}"),
    }
    assert!(c.sync_preview.is_none());
}

#[test]
fn accept_all_accepts_the_rest() {
    let mut c = ctx();
    c.sync_preview = Some(SyncPreviewState::new(vec![change("Title"), change("Status")]));
    match dispatch_action(&mut c, RemoteAction::SyncAcceptAll) {
        Some(HandlerEffect::SyncApply { preview, .. }) => {
            assert!(preview.changes.iter().all(|ch| ch.decision == Some(SyncDecision::Accept)));
            assert_eq!(preview.current_change_index, 2);
        }
        other => panic!("unexpected {other:?}"),
    }
    let mut c = ctx();
    c.sync_preview = Some(SyncPreviewState::new(vec![change("Title")]));
    cancel_sync(&mut c);
    assert!(c.sync_preview.is_none());
    assert_eq!(toast_of(&c), (ToastLevel::Info, "Sync cancelled".to_string()));
}

#[test]
fn link_mode_from_local_links_the_selected_issue() {
    let mut c = ctx();
    c.local_nav.selected_index = 1;
    dispatch_action(&mut c, RemoteAction::StartLinkMode);
    assert_eq!(c.display.active_view, ViewMode::Remote);
    assert_eq!(c.link_mode.as_ref().unwrap().source_id, "j-2");
    c.remote_nav.selected_index = 2;
    match dispatch_action(&mut c, RemoteAction::LinkConfirm) {
        Some(HandlerEffect::Link { source }) => {
            assert_eq!(source.ticket_id, "j-2");
            assert_eq!(source.remote_issue.id, "3");
        }
        other => panic!("unexpected {other:?}"),
    }
    assert_eq!(toast_of(&c), (ToastLevel::Info, "Linking j-2 to 3...".to_string()));
    assert!(c.link_mode.is_none());
    assert_eq!(c.display.active_view, ViewMode::Local);
}

#[test]
fn link_mode_from_remote_finds_the_source_issue() {
    let mut c = ctx();
    c.display.active_view = ViewMode::Remote;
    c.remote_nav.selected_index = 1;
    dispatch_action(&mut c, RemoteAction::StartLinkMode);
    assert_eq!(c.display.active_view, ViewMode::Local);
    c.local_nav.selected_index = 1;
    match dispatch_action(&mut c, RemoteAction::LinkConfirm) {
        Some(HandlerEffect::Link { source }) => {
            assert_eq!(source.ticket_id, "j-2");
            assert_eq!(source.remote_issue.id, "2");
        }
        other => panic!("unexpected {other:?}"),
    }
    assert_eq!(c.display.active_view, ViewMode::Remote);
    let mut c = ctx();
    c.link_mode = Some(LinkModeState::new(ViewMode::Local, "j-1".into(), "t".into()));
    c.display.active_view = ViewMode::Remote;
    dispatch_action(&mut c, RemoteAction::CancelLinkMode);
    assert_eq!(c.display.active_view, ViewMode::Local);
    assert!(c.link_mode.is_none());
}

#[test]
fn refresh_only_when_idle() {
    let mut c = ctx();
    assert!(matches!(dispatch_action(&mut c, RemoteAction::Refresh), Some(HandlerEffect::Fetch { .. })));
    assert!(c.display.remote_loading);
    assert_eq!(toast_of(&c), (ToastLevel::Info, "Refreshing remote issues...".to_string()));
    assert!(dispatch_action(&mut c, RemoteAction::Refresh).is_none());
}

#[test]
fn switching_provider_resets_the_lists() {
    let mut c = ctx();
    c.local_nav.selected_index = 2;
    c.remote_nav.selected_ids.insert("1".into());
    match dispatch_action(&mut c, RemoteAction::SwitchProvider) {
        Some(HandlerEffect::Fetch { provider, .. }) => assert_eq!(provider, Platform::Linear),
        other => panic!("unexpected {other:?}"),
    }
    assert_eq!(c.config.provider, Platform::Linear);
    assert_eq!(c.local_nav.selected_index, 0);
    assert!(c.remote_nav.selected_ids.is_empty());
    assert!(c.remote_issues.is_empty());
    assert_eq!(toast_of(&c), (ToastLevel::Info, "Switched to linear".to_string()));
}

#[test]
fn filter_modal_applies_its_limit() {
    let mut c = ctx();
    dispatch_action(&mut c, RemoteAction::ShowFilterModal);
    assert_eq!(c.filter_modal.unwrap().limit, 100);
    c.filter_modal = Some(FilterState { limit: 30 });
    match dispatch_action(&mut c, RemoteAction::FilterEnter) {
        Some(HandlerEffect::Fetch { query, .. }) => assert_eq!(query.limit, 30),
        other => panic!("unexpected {other:?}"),
    }
    assert_eq!(c.config.active_filters.limit, 30);
    assert!(c.filter_modal.is_none());
    assert_eq!(toast_of(&c), (ToastLevel::Info, "Applying settings...".to_string()));
    c.filter_modal = Some(FilterState { limit: 20 });
    dispatch_action(&mut c, RemoteAction::FilterClear);
    assert_eq!(c.filter_modal.unwrap().limit, 100);
}

#[test]
fn help_scroll_stops_at_the_last_line() {
    let mut c = ctx();
    dispatch_action(&mut c, RemoteAction::ShowHelp);
    dispatch_action(&mut c, RemoteAction::ScrollHelpToBottom);
    assert_eq!(c.visibility.help_scroll, 29);
    dispatch_action(&mut c, RemoteAction::ScrollHelpDown);
    assert_eq!(c.visibility.help_scroll, 29);
    dispatch_action(&mut c, RemoteAction::ScrollHelpUp);
    assert_eq!(c.visibility.help_scroll, 28);
    dispatch_action(&mut c, RemoteAction::HideHelp);
    assert!(!c.visibility.show_help);
    assert_eq!(c.visibility.help_scroll, 0);
}

#[test]
fn keys_go_through_the_key_map() {
    let mut c = ctx();
    assert!(handle_key_event(&mut c, KeyCode::Char('?'), KeyModifiers::NONE).is_none());
    assert!(c.visibility.show_help);
    handle_key_event(&mut c, KeyCode::Esc, KeyModifiers::NONE);
    assert!(!c.visibility.show_help);
    handle_key_event(&mut c, KeyCode::Char('/'), KeyModifiers::NONE);
    assert!(c.search.focused);
    assert!(matches!(
        handle_key_event(&mut c, KeyCode::Enter, KeyModifiers::NONE),
        Some(HandlerEffect::TriggerSearch)
    ));
    assert!(!c.search.focused);
    handle_key_event(&mut c, KeyCode::Char('q'), KeyModifiers::NONE);
    assert!(c.display.should_exit);
}

#[test]
fn adopt_asks_for_the_selected_issue() {
    let mut c = ctx();
    c.display.active_view = ViewMode::Remote;
    c.remote_nav.selected_index = 1;
    match dispatch_action(&mut c, RemoteAction::Adopt) {
        Some(HandlerEffect::Adopt { issues }) => {
            assert_eq!(issues.len(), 1);
            assert_eq!(issues[0].id, "2");
        }
        other => panic!("unexpected {other:?}"),
    }
    c.remote_nav.selected_ids.insert("3".into());
    c.remote_nav.selected_ids.insert("1".into());
    match dispatch_action(&mut c, RemoteAction::Adopt) {
        Some(HandlerEffect::Adopt { issues }) => {
            let ids: Vec<&str> = issues.iter().map(|i| i.id.as_str()).collect();
            assert_eq!(ids, vec!["1", "3"]);
        }
        other => panic!("unexpected {other:?}"),
    }
    adopt_finished(&mut c, Ok((2, vec![ticket("j-9", None)])));
    assert_eq!(toast_of(&c), (ToastLevel::Info, "Adopted 2 issues".to_string()));
    assert!(c.remote_nav.selected_ids.is_empty());
    assert_eq!(c.local_tickets.len(), 1);
    adopt_finished(&mut c, Err(JanusError::Other("disk full".into())));
    assert_eq!(toast_of(&c), (ToastLevel::Error, "Adopt failed: disk full".to_string()));
    let mut c = ctx();
    c.remote_nav.selected_index = 7;
    assert!(dispatch_action(&mut c, RemoteAction::Adopt).is_none());
    assert_eq!(toast_of(&c), (ToastLevel::Error, "No issue to adopt".to_string()));
}

#[test]
fn fetch_results_are_reported() {
    let mut c = ctx();
    c.display.remote_loading = true;
    let page = PaginatedResult { items: vec![issue("7", "")], has_more: true, total_count: None };
    fetch_finished(&mut c, false, FetchResult::Success(page));
    assert_eq!(c.remote_issues.len(), 1);
    assert!(!c.display.remote_loading);
    assert_eq!(toast_of(&c), (ToastLevel::Info, "Loaded 1 issues (more available)".to_string()));
    let page = PaginatedResult { items: vec![], has_more: false, total_count: Some(0) };
    fetch_finished(&mut c, true, FetchResult::Success(page));
    assert_eq!(toast_of(&c), (ToastLevel::Info, "Found 0 matches".to_string()));
    fetch_finished(&mut c, false, FetchResult::Error("FetchError".into(), "boom".into()));
    assert_eq!(c.last_error, Some(("FetchError".to_string(), "boom".to_string())));
    assert_eq!(toast_of(&c), (ToastLevel::Error, "Failed to fetch remote issues: boom".to_string()));
}

#[test]
fn push_results_are_summed_up() {
    let gh = |n: u64| RemoteRef::GitHub { owner: "o".into(), repo: "r".into(), issue_number: n };
    let mut c = ctx();
    c.local_nav.selected_ids.insert("j-2".into());
    let effect = push_finished(
        &mut c,
        vec![PushResult { ticket_id: "j-2".into(), remote_ref: gh(5) }],
        vec![],
        vec![ticket("j-2", Some("github:o/r/5"))],
        Platform::GitHub,
        RemoteQuery::new(),
    );
    assert!(matches!(effect, HandlerEffect::Fetch { provider: Platform::GitHub, .. }));
    assert_eq!(toast_of(&c), (ToastLevel::Info, "Pushed j-2 -> github:o/r/5".to_string()));
    assert!(c.local_nav.selected_ids.is_empty());
    let err = PushError::Network { ticket_id: "j-3".into(), message: "offline".into() };
    push_finished(
        &mut c,
        vec![PushResult { ticket_id: "j-1".into(), remote_ref: gh(1) }],
        vec![err],
        vec![],
        Platform::GitHub,
        RemoteQuery::new(),
    );
    assert_eq!(toast_of(&c), (ToastLevel::Warning, "Pushed j-1, failed: j-3".to_string()));
    assert_eq!(c.last_error, Some(("Push Errors".to_string(), "j-3: offline".to_string())));
    let err = PushError::Network { ticket_id: "j-4".into(), message: "offline".into() };
    push_finished(&mut c, vec![], vec![err], vec![], Platform::GitHub, RemoteQuery::new());
    assert_eq!(toast_of(&c), (ToastLevel::Error, "Push failed for j-4: offline".to_string()));
}

#[test]
fn link_unlink_and_apply_results() {
    let mut c = ctx();
    link_finished(&mut c, "j-2", "9", Ok(vec![]));
    assert_eq!(toast_of(&c), (ToastLevel::Info, "Linked j-2 to 9".to_string()));
    assert!(c.local_tickets.is_empty());
    link_finished(&mut c, "j-2", "9", Err(JanusError::Other("nope".into())));
    assert_eq!(toast_of(&c), (ToastLevel::Error, "Link failed: nope".to_string()));

    let mut c = ctx();
    unlink_finished(&mut c, 2, vec![], vec![]);
    assert_eq!(toast_of(&c), (ToastLevel::Info, "Unlinked 2 ticket(s)".to_string()));
    unlink_finished(&mut c, 1, vec![("j-1".into(), "x".into())], vec![]);
    assert_eq!(toast_of(&c), (ToastLevel::Warning, "Unlinked 1, failed 1 (see logs)".to_string()));
    let mut c = ctx();
    unlink_finished(&mut c, 0, vec![("j-1".into(), "locked".into())], vec![]);
    assert_eq!(toast_of(&c), (ToastLevel::Error, "Failed to unlink: locked".to_string()));
    assert_eq!(c.local_tickets.len(), 3);
    unlink_finished(&mut c, 0, vec![("a".into(), "x".into()), ("b".into(), "y".into())], vec![]);
    assert_eq!(toast_of(&c), (ToastLevel::Error, "Failed to unlink 2 ticket(s) (see logs)".to_string()));

    let mut c = ctx();
    let r = sync_apply_finished(&mut c, 2, vec!["e1".into()], vec![], Platform::Linear, RemoteQuery::new());
    assert!(matches!(r, Some(HandlerEffect::Fetch { provider: Platform::Linear, .. })));
    assert_eq!(toast_of(&c), (ToastLevel::Info, "Applied 2 change(s)".to_string()));
    assert_eq!(c.last_error, Some(("SyncApplyError".to_string(), "e1".to_string())));
    let mut c = ctx();
    assert!(sync_apply_finished(&mut c, 0, vec!["e".into()], vec![], Platform::GitHub, RemoteQuery::new()).is_none());
    assert_eq!(toast_of(&c), (ToastLevel::Error, "Failed to apply changes".to_string()));
}

#[test]
fn sync_fetch_builds_the_review() {
    let mut c = ctx();
    let mut t = ticket("j-1", Some("github:o/r/1"));
    t.title = Some("Old".into());
    let mut i = issue("1", "");
    i.title = "New".into();
    sync_fetch_finished(
        &mut c,
        vec![
            ("j-1".to_string(), Ok((t, i))),
            ("j-3".to_string(), Err(JanusError::Other("gone".into()))),
        ],
    );
    let p = c.sync_preview.as_ref().expect("a review");
    assert_eq!(p.changes.len(), 1);
    assert_eq!(p.changes[0].change.field_name, "Title");
    assert_eq!(p.changes[0].remote_ref, "github:o/r/1");
    assert_eq!(toast_of(&c), (ToastLevel::Info, "Found 1 change(s) to review".to_string()));
    assert_eq!(
        c.last_error,
        Some(("SyncError".to_string(), "Failed to fetch remote for j-3: gone".to_string()))
    );
    let mut c = ctx();
    sync_fetch_finished(&mut c, vec![]);
    assert!(c.sync_preview.is_none());
    assert_eq!(toast_of(&c), (ToastLevel::Info, "No differences found between local and remote".to_string()));
}

#[test]
fn remote_search_queries() {
    let config = FilterConfigData::default();
    let (p, q) = search_request(&config, "bug");
    assert_eq!(p, Platform::GitHub);
    assert_eq!(q.search_text, Some("bug".to_string()));
    let (_, q) = search_request(&config, "");
    assert_eq!(q.search_text, None);
    assert!(remote_search_due(ViewMode::Remote, "a", ""));
    assert!(!remote_search_due(ViewMode::Remote, "a", "a"));
    assert!(!remote_search_due(ViewMode::Local, "a", ""));
}

#[test]
fn help_text_lists_the_shortcuts() {
    let lines = build_help_lines();
    assert_eq!(lines.len(), 30);
    assert_eq!(help_content_line_count(), 30);
    assert_eq!(lines[0], "Navigation:");
    assert_eq!(lines[1], format!("  {:<18} {}", "j / ↓", "Move down"));
    assert_eq!(lines[6], "");
    assert_eq!(build_help_text(), lines.join("\n"));
}
