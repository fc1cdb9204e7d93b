use janus::tui::remote::operations::{check_link_conflicts, get_linked_ticket_ids};
use janus::types::{TicketMetadata, TicketPriority, TicketStatus};

fn create_test_ticket(id: &str, remote: Option<&str>) -> TicketMetadata {
    TicketMetadata {
        id: Some(id.to_string()),
        remote: remote.map(|s| s.to_string()),
        status: Some(TicketStatus::New),
        priority: Some(TicketPriority::P2),
        title: Some(format!("Ticket {id}")),
        ..Default::default()
    }
}

#[test]
fn test_hashset_linked_ids_optimization() {
    let tickets = vec![
        create_test_ticket("j-1", Some("github:owner/repo/1")),
        create_test_ticket("j-2", None),
        create_test_ticket("j-3", Some("linear:acme/ENG-123")),
    ];
    let linked_ids = get_linked_ticket_ids(&tickets);
    assert_eq!(linked_ids.len(), 2);
    assert!(linked_ids.contains("j-1"));
    assert!(linked_ids.contains("j-3"));
    assert!(!linked_ids.contains("j-2"));
}

#[test]
fn test_filter_selected_ids_using_hashset() {
    let tickets = vec![
        create_test_ticket("j-1", Some("github:owner/repo/1")),
        create_test_ticket("j-2", None),
        create_test_ticket("j-3", Some("linear:acme/ENG-123")),
    ];
    let selected_ids = ["j-1", "j-2", "j-3", "j-4"];
    let linked_ids = get_linked_ticket_ids(&tickets);
    let already_linked: Vec<String> =
        check_link_conflicts(&selected_ids, &linked_ids).into_iter().map(|s| s.to_string()).collect();
    assert_eq!(already_linked.len(), 2);
    assert!(already_linked.contains(&String::from("j-1")));
    assert!(already_linked.contains(&String::from("j-3")));
    assert!(!already_linked.contains(&String::from("j-2")));
    assert!(!already_linked.contains(&String::from("j-4")));
}

#[test]
fn test_performance_hashset_vs_iterative() {
    let tickets: Vec<_> = (0..100)
        .map(|i| {
            let remote = if i % 2 == 0 { Some(format!("remote:{i}")) } else { None };
            create_test_ticket(&format!("j-{i}"), remote.as_deref())
        })
        .collect();
    let selected_ids: Vec<String> = (0..50).map(|i| format!("j-{i}")).collect();
    let selected: Vec<&str> = selected_ids.iter().map(|s| s.as_str()).collect();
    let linked_ids = get_linked_ticket_ids(&tickets);
    let already_linked_hash: Vec<String> =
        check_link_conflicts(&selected, &linked_ids).into_iter().map(|s| s.to_string()).collect();
    let already_linked_iter: Vec<String> = selected_ids
        .iter()
        .filter(|id| tickets.iter().any(|t| t.id.as_ref() == Some(id) && t.remote.is_some()))
        .cloned()
        .collect();
    assert_eq!(
        already_linked_hash, already_linked_iter,
        "HashSet and iterative approaches should produce identical results"
    );
}
