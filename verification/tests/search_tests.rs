use std::sync::Arc;

use janus::tui::search::{
    calculate_debounce_ms, compute_title_highlights, filter_tickets, is_semantic_search,
    merge_search_results, strip_semantic_modifier, FilteredTicket, SearchResult,
};
use janus::types::{TicketMetadata, TicketPriority, TicketStatus, TicketType};
use janus::utils::{parse_priority_filter, strip_priority_shorthand};

fn make_ticket(id: &str, title: &str, priority: u8) -> TicketMetadata {
    TicketMetadata {
        id: Some(id.to_string()),
        title: Some(title.to_string()),
        status: Some(TicketStatus::New),
        priority: Some(match priority {
            0 => TicketPriority::P0,
            1 => TicketPriority::P1,
            2 => TicketPriority::P2,
            3 => TicketPriority::P3,
            _ => TicketPriority::P4,
        }),
        ticket_type: Some(TicketType::Task),
        ..Default::default()
    }
}

#[test]
fn test_empty_query_returns_all() {
    let tickets = vec![make_ticket("j-a1b2", "Fix bug", 0), make_ticket("j-c3d4", "Add feature", 2)];
    let results = filter_tickets(&tickets, "");
    assert_eq!(results.len(), 2);
}

#[test]
fn test_fuzzy_match_title() {
    let tickets = vec![
        make_ticket("j-a1b2", "Fix bug in parser", 2),
        make_ticket("j-c3d4", "Add new feature", 2),
    ];
    let results = filter_tickets(&tickets, "bug");
    assert_eq!(results.len(), 1);
    assert_eq!(results[0].ticket.id, Some("j-a1b2".to_string()));
}

#[test]
fn test_priority_filter() {
    let tickets = vec![
        make_ticket("j-a1b2", "Critical fix", 0),
        make_ticket("j-c3d4", "Normal task", 2),
        make_ticket("j-e5f6", "Low priority", 4),
    ];
    let results = filter_tickets(&tickets, "p0");
    assert_eq!(results.len(), 1);
    assert_eq!(results[0].ticket.id, Some("j-a1b2".to_string()));
}

#[test]
fn test_priority_filter_with_query() {
    let tickets = vec![
        make_ticket("j-a1b2", "Critical fix", 0),
        make_ticket("j-c3d4", "Another critical", 0),
        make_ticket("j-e5f6", "Low priority fix", 4),
    ];
    let results = filter_tickets(&tickets, "p0 fix");
    assert_eq!(results.len(), 1);
    assert_eq!(results[0].ticket.id, Some("j-a1b2".to_string()));
}

#[test]
fn test_fuzzy_match_id() {
    let tickets = vec![make_ticket("j-a1b2", "Fix bug", 2), make_ticket("j-c3d4", "Add feature", 2)];
    let results = filter_tickets(&tickets, "a1b2");
    assert_eq!(results.len(), 1);
    assert_eq!(results[0].ticket.id, Some("j-a1b2".to_string()));
}

#[test]
fn test_parse_priority_filter() {
    assert_eq!(parse_priority_filter("p0"), Some(0));
    assert_eq!(parse_priority_filter("P1"), Some(1));
    assert_eq!(parse_priority_filter("fix p2 bug"), Some(2));
    assert_eq!(parse_priority_filter("no priority"), None);
    assert_eq!(parse_priority_filter("p5"), None);
}

#[test]
fn test_strip_priority_shorthand() {
    assert_eq!(strip_priority_shorthand("p0"), "");
    assert_eq!(strip_priority_shorthand("p0 fix bug"), "fix bug");
    assert_eq!(strip_priority_shorthand("fix p1 bug"), "fix  bug");
    assert_eq!(strip_priority_shorthand("no priority"), "no priority");
}

#[test]
fn test_calculate_debounce_ms() {
    assert_eq!(calculate_debounce_ms(0), 10);
    assert_eq!(calculate_debounce_ms(50), 10);
    assert_eq!(calculate_debounce_ms(100), 10);
    assert_eq!(calculate_debounce_ms(101), 50);
    assert_eq!(calculate_debounce_ms(500), 50);
    assert_eq!(calculate_debounce_ms(501), 100);
    assert_eq!(calculate_debounce_ms(1000), 100);
    assert_eq!(calculate_debounce_ms(1001), 150);
    assert_eq!(calculate_debounce_ms(10000), 150);
}

#[test]
fn test_compute_title_highlights_empty_query() {
    let tickets = vec![
        make_ticket("j-a1b2", "Fix authentication bug", 0),
        make_ticket("j-c3d4", "Add new feature", 2),
    ];
    let results = compute_title_highlights(&tickets, "");
    assert_eq!(results.len(), 2);
    assert_eq!(results[0].title_indices, Vec::<usize>::new());
    assert_eq!(results[1].title_indices, Vec::<usize>::new());
}

#[test]
fn test_compute_title_highlights_with_match() {
    let tickets = vec![
        make_ticket("j-a1b2", "Fix authentication", 0),
        make_ticket("j-c3d4", "Add new feature", 2),
        make_ticket("j-e5f6", "Update authentication module", 0),
    ];
    let results = compute_title_highlights(&tickets, "auth");
    assert_eq!(results.len(), 3);
    assert!(!results[0].title_indices.is_empty());
    assert!(results[1].title_indices.is_empty());
    assert!(!results[2].title_indices.is_empty());
}

#[test]
fn test_compute_title_highlights_priority_shorthand() {
    let tickets = vec![make_ticket("j-a1b2", "Fix critical bug", 0), make_ticket("j-c3d4", "Add feature", 2)];
    let results = compute_title_highlights(&tickets, "p0");
    assert_eq!(results.len(), 2);
    assert!(results[0].title_indices.is_empty());
    assert!(results[1].title_indices.is_empty());
    let results = compute_title_highlights(&tickets, "p0 bug");
    assert_eq!(results.len(), 2);
    assert!(!results[0].title_indices.is_empty());
    assert!(results[1].title_indices.is_empty());
}

#[test]
fn test_is_semantic_search() {
    assert!(is_semantic_search("~query"));
    assert!(is_semantic_search("~ query"));
    assert!(!is_semantic_search("query"));
    assert!(!is_semantic_search("query~"));
    assert!(!is_semantic_search(""));
}

#[test]
fn test_strip_semantic_modifier() {
    assert_eq!(strip_semantic_modifier("~query"), "query");
    assert_eq!(strip_semantic_modifier("~ query"), "query");
    assert_eq!(strip_semantic_modifier("query"), "query");
    assert_eq!(strip_semantic_modifier("~"), "");
}

#[test]
fn test_merge_search_results() {
    let fuzzy = vec![FilteredTicket {
        ticket: Arc::new(TicketMetadata {
            id: Some("ticket-1".to_string()),
            title: Some("First Ticket".to_string()),
            ..Default::default()
        }),
        score: 100,
        title_indices: vec![],
        is_semantic: false,
    }];
    let semantic = vec![
        SearchResult {
            ticket: TicketMetadata {
                id: Some("ticket-1".to_string()),
                title: Some("First Ticket".to_string()),
                ..Default::default()
            },
        },
        SearchResult {
            ticket: TicketMetadata {
                id: Some("ticket-2".to_string()),
                title: Some("Second Ticket".to_string()),
                ..Default::default()
            },
        },
    ];
    let merged = merge_search_results(fuzzy, semantic);
    assert_eq!(merged.len(), 2);
    assert_eq!(merged[0].ticket.id.as_ref().unwrap(), "ticket-1");
    assert!(!merged[0].is_semantic);
    assert_eq!(merged[1].ticket.id.as_ref().unwrap(), "ticket-2");
    assert!(merged[1].is_semantic);
}

#[test]
fn test_is_semantic_search_edge_cases() {
    assert!(is_semantic_search("~"));
    assert!(is_semantic_search("~ "));
    assert!(is_semantic_search("~a very long query with many words to test edge cases"));
    assert!(is_semantic_search("~!@#$%^&*()"));
    assert!(is_semantic_search("~query-with-dashes"));
    assert!(is_semantic_search("~query_with_underscores"));
    assert!(is_semantic_search("~~query"));
    assert!(is_semantic_search("~query~more"));
    assert!(is_semantic_search("~~~"));
}

#[test]
fn test_strip_semantic_modifier_edge_cases() {
    assert_eq!(strip_semantic_modifier("~"), "");
    assert_eq!(strip_semantic_modifier("~   "), "");
    assert_eq!(strip_semantic_modifier("~  query"), "query");
    assert_eq!(strip_semantic_modifier("query without prefix"), "query without prefix");
    assert_eq!(strip_semantic_modifier(""), "");
    assert_eq!(strip_semantic_modifier("~~query"), "~query");
    assert_eq!(strip_semantic_modifier("~query~more"), "query~more");
}

#[test]
fn filtered_results_are_ordered_by_score() {
    let tickets = vec![
        make_ticket("j-0001", "xx bug yy", 2),
        make_ticket("j-0002", "bug", 2),
        make_ticket("j-0003", "nothing", 2),
    ];
    let results = filter_tickets(&tickets, "bug");
    assert_eq!(results.len(), 2);
    for pair in results.windows(2) {
        assert!(pair[0].score >= pair[1].score);
    }
}
