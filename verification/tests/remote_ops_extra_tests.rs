use janus::error::JanusError;
use janus::remote::RemoteQuery;
use janus::tui::remote::filter_modal::FilterState;
use janus::tui::remote::operations::{extract_issue_id_from_remote_ref, remote_ref_from_url_parts};
use janus::tui::remote::sync_preview::{
    SyncChange, SyncChangeWithContext, SyncDecision, SyncDirection, SyncPreviewState,
};
use janus::remote::RemoteRef;
use janus::tui::keys::{KeyCode, KeyModifiers};
use janus::tui::remote::detail::linked_ticket_for_issue;
use janus::tui::remote::operations::{
    linked_remote_ref, push_title, split_push_results, PushError, PushResult,
};
use janus::tui::state::Pane;
use janus::tui::view::handlers::context::{BrowserEdit, ViewHandlerContext};
use janus::tui::view::handlers::list::{handle_detail, handle_list};
use janus::tui::view::handlers::HandleResult;
use janus::types::TicketMetadata;

fn linked(id: Option<&str>, remote: Option<&str>) -> TicketMetadata {
    TicketMetadata {
        id: id.map(|s| s.to_string()),
        remote: remote.map(|s| s.to_string()),
        ..Default::default()
    }
}

#[test]
fn linked_ticket_found_by_issue_id() {
    let tickets = vec![
        linked(Some("j-1"), None),
        linked(None, Some("github:o/r/42")),
        linked(Some("j-3"), Some("github:o/r/7")),
        linked(Some("j-4"), Some("github:o/r/42")),
        linked(Some("j-5"), Some("github:o/r/42")),
    ];
    assert_eq!(linked_ticket_for_issue("42", &tickets), Some("j-4".to_string()));
    assert_eq!(linked_ticket_for_issue("7", &tickets), Some("j-3".to_string()));
    assert_eq!(linked_ticket_for_issue("99", &tickets), None);
}

#[test]
fn linked_ticket_for_linear_reference() {
    let tickets = vec![linked(Some("j-9"), Some("linear:acme/ENG-12"))];
    assert_eq!(linked_ticket_for_issue("ENG-12", &tickets), Some("j-9".to_string()));
    assert_eq!(linked_ticket_for_issue("acme", &tickets), None);
}

#[test]
fn push_title_refuses_linked_ticket() {
    let t = linked(Some("j-1"), Some("github:o/r/1"));
    match push_title("j-1", &t) {
        Err(PushError::AlreadyLinked { ticket_id }) => assert_eq!(ticket_id, "j-1"),
        other => panic!("unexpected {other:?}"),
    }
}

#[test]
fn push_title_defaults_to_untitled() {
    let t = linked(Some("j-1"), None);
    assert_eq!(push_title("j-1", &t).unwrap(), "Untitled");
    let t = TicketMetadata { title: Some("Fix it".to_string()), ..Default::default() };
    assert_eq!(push_title("j-1", &t).unwrap(), "Fix it");
}

#[test]
fn split_push_results_keeps_order() {
    let ok = |id: &str, n: u64| {
        Ok(PushResult {
            ticket_id: id.to_string(),
            remote_ref: RemoteRef::GitHub { owner: "o".to_string(), repo: "r".to_string(), issue_number: n },
        })
    };
    let results = vec![
        ok("j-1", 1),
        Err(PushError::AlreadyLinked { ticket_id: "j-2".to_string() }),
        ok("j-3", 3),
        Err(PushError::Network { ticket_id: "j-4".to_string(), message: "down".to_string() }),
    ];
    let (pushed, failed) = split_push_results(results);
    assert_eq!(pushed.iter().map(|p| p.ticket_id.as_str()).collect::<Vec<_>>(), vec!["j-1", "j-3"]);
    assert_eq!(failed.iter().map(|e| e.ticket_id()).collect::<Vec<_>>(), vec!["j-2", "j-4"]);
}

#[test]
fn linked_remote_ref_requires_link() {
    assert_eq!(linked_remote_ref(&linked(Some("j-1"), Some("github:o/r/5"))).unwrap(), "github:o/r/5");
    match linked_remote_ref(&linked(Some("j-1"), None)) {
        Err(JanusError::Other(m)) => assert_eq!(m, "Ticket is not linked to a remote issue"),
        other => panic!("unexpected {other:?}"),
    }
}

fn pane_ctx(pane: Pane) -> ViewHandlerContext {
    ViewHandlerContext {
        search_query: String::new(),
        should_exit: false,
        needs_reload: false,
        active_pane: pane,
        is_triage_mode: false,
        filtered_tickets: vec![],
        list_height: 10,
        selected_index: 0,
        scroll_offset: 0,
        detail_scroll_offset: 0,
        max_detail_scroll: 0,
        edit: BrowserEdit::Closed,
    }
}

#[test]
fn list_and_detail_tab_targets() {
    let mut ctx = pane_ctx(Pane::List);
    let (res, _) = handle_list(&mut ctx, KeyCode::Tab, KeyModifiers::NONE);
    assert_eq!(res, HandleResult::Handled);
    assert_eq!(ctx.active_pane, Pane::Detail);
    let (res, _) = handle_detail(&mut ctx, KeyCode::Tab, KeyModifiers::NONE);
    assert_eq!(res, HandleResult::Handled);
    assert_eq!(ctx.active_pane, Pane::List);
    let (res, _) = handle_detail(&mut ctx, KeyCode::Char('z'), KeyModifiers::NONE);
    assert_eq!(res, HandleResult::NotHandled);
}

#[test]
fn reference_text_names_its_issue() {
    let gh = RemoteRef::GitHub { owner: "acme".to_string(), repo: "app".to_string(), issue_number: 42 };
    assert_eq!(extract_issue_id_from_remote_ref(&gh.to_string()), Some("42".to_string()));
    let lin = RemoteRef::Linear { org: "acme".to_string(), issue_id: "ENG-7".to_string() };
    assert_eq!(extract_issue_id_from_remote_ref(&lin.to_string()), Some("ENG-7".to_string()));
}

#[test]
fn sync_toggle_twice_and_accept_all() {
    let change = |f: &str| SyncChangeWithContext {
        ticket_id: "j-1".to_string(),
        remote_ref: "github:o/r/1".to_string(),
        change: SyncChange {
            field_name: f.to_string(),
            local_value: "a".to_string(),
            remote_value: "b".to_string(),
            direction: SyncDirection::RemoteToLocal,
        },
        decision: None,
    };
    let mut p = SyncPreviewState::new(vec![change("Title"), change("Status")]);
    p.toggle_decision(0);
    assert_eq!(p.changes[0].decision, Some(SyncDecision::Accept));
    p.toggle_decision(0);
    assert_eq!(p.changes[0].decision, Some(SyncDecision::Skip));
    p.toggle_decision(0);
    p.toggle_decision(0);
    assert_eq!(p.changes[0].decision, Some(SyncDecision::Skip));
    let mut q = SyncPreviewState::new(vec![change("Title"), change("Status")]);
    q.accept_all();
    assert!(!q.has_more());
    let accepted: Vec<&str> = q.accepted_changes().iter().map(|c| c.change.field_name.as_str()).collect();
    assert_eq!(accepted, vec!["Title", "Status"]);
    let mut past_end = SyncPreviewState::new(vec![change("Title")]);
    past_end.current_change_index = 5;
    past_end.accept_all();
    assert_eq!(past_end.current_change_index, 1);
    assert_eq!(past_end.changes[0].decision, None);
}

#[test]
fn filter_settings_roundtrip() {
    let mut base = RemoteQuery::new();
    base.limit = 30;
    base.search_text = Some("bug".to_string());
    let applied = FilterState::from_query(&base).to_query(&base);
    assert_eq!(applied.limit, 30);
    assert_eq!(applied.search_text.as_deref(), Some("bug"));
}

#[test]
fn sync_current_change_mut_edits_in_place() {
    let change = SyncChangeWithContext {
        ticket_id: "j-1".to_string(),
        remote_ref: "github:o/r/1".to_string(),
        change: SyncChange {
            field_name: "Title".to_string(),
            local_value: "a".to_string(),
            remote_value: "b".to_string(),
            direction: SyncDirection::RemoteToLocal,
        },
        decision: None,
    };
    let mut p = SyncPreviewState::new(vec![change]);
    if let Some(c) = p.current_change_mut() {
        c.decision = Some(SyncDecision::Skip);
    }
    assert_eq!(p.changes[0].decision, Some(SyncDecision::Skip));
    p.current_change_index = 1;
    assert!(p.current_change_mut().is_none());
}

#[test]
fn update_title_replaces_first_heading() {
    let content = "---\nid: j-1\n---\n# Old title\n\nBody\n# Second\n";
    let updated = janus::tui::remote::operations::update_title_in_content(content, "New title");
    assert_eq!(updated, "---\nid: j-1\n---\n# New title\n\nBody\n# Second\n");
}

#[test]
fn reference_from_url_parts() {
    let parts = Ok((Some("github.com".to_string()), Some(vec!["o".to_string(), "r".to_string(), "issues".to_string(), "7".to_string()])));
    match remote_ref_from_url_parts("7", parts).unwrap() {
        RemoteRef::GitHub { owner, repo, issue_number } => {
            assert_eq!(owner, "o");
            assert_eq!(repo, "r");
            assert_eq!(issue_number, 7);
        }
        other => panic!("unexpected {other:?}"),
    }
    match remote_ref_from_url_parts("7", Ok((None, None))) {
        Err(JanusError::InvalidRemoteRef(id, reason)) => {
            assert_eq!(id, "7");
            assert_eq!(reason, "URL has no host");
        }
        other => panic!("unexpected {other:?}"),
    }
    match remote_ref_from_url_parts("x", Err("relative URL without a base".to_string())) {
        Err(JanusError::InvalidRemoteRef(_, reason)) => assert_eq!(reason, "invalid URL: relative URL without a base"),
        other => panic!("unexpected {other:?}"),
    }
}
