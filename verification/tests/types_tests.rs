use std::str::FromStr;

use janus::error::JanusError;
use janus::types::{
    janus_root_from, plans_dir, tickets_items_dir, validate_field_name, TicketField, TicketMetadata,
    TicketPriority, TicketStatus, TicketType, VALID_TICKET_FIELDS,
};

#[test]
fn test_ticket_status_is_terminal() {
    assert!(TicketStatus::Complete.is_terminal());
    assert!(TicketStatus::Cancelled.is_terminal());
    assert!(!TicketStatus::New.is_terminal());
    assert!(!TicketStatus::Next.is_terminal());
    assert!(!TicketStatus::InProgress.is_terminal());
}

#[test]
fn test_ticket_status_is_not_started() {
    assert!(TicketStatus::New.is_not_started());
    assert!(TicketStatus::Next.is_not_started());
    assert!(!TicketStatus::InProgress.is_not_started());
    assert!(!TicketStatus::Complete.is_not_started());
    assert!(!TicketStatus::Cancelled.is_not_started());
}

#[test]
fn test_ticket_status_from_str_case_insensitive() {
    assert_eq!("new".parse::<TicketStatus>().unwrap(), TicketStatus::New);
    assert_eq!("in_progress".parse::<TicketStatus>().unwrap(), TicketStatus::InProgress);
    assert_eq!("NEW".parse::<TicketStatus>().unwrap(), TicketStatus::New);
    assert_eq!("NEXT".parse::<TicketStatus>().unwrap(), TicketStatus::Next);
    assert_eq!("IN_PROGRESS".parse::<TicketStatus>().unwrap(), TicketStatus::InProgress);
    assert_eq!("COMPLETE".parse::<TicketStatus>().unwrap(), TicketStatus::Complete);
    assert_eq!("CANCELLED".parse::<TicketStatus>().unwrap(), TicketStatus::Cancelled);
    assert_eq!("New".parse::<TicketStatus>().unwrap(), TicketStatus::New);
    assert_eq!("Next".parse::<TicketStatus>().unwrap(), TicketStatus::Next);
    assert_eq!("In_Progress".parse::<TicketStatus>().unwrap(), TicketStatus::InProgress);
    assert!("invalid".parse::<TicketStatus>().is_err());
    assert!("".parse::<TicketStatus>().is_err());
}

#[test]
fn test_ticket_type_from_str_case_insensitive() {
    assert_eq!("bug".parse::<TicketType>().unwrap(), TicketType::Bug);
    assert_eq!("feature".parse::<TicketType>().unwrap(), TicketType::Feature);
    assert_eq!("task".parse::<TicketType>().unwrap(), TicketType::Task);
    assert_eq!("epic".parse::<TicketType>().unwrap(), TicketType::Epic);
    assert_eq!("chore".parse::<TicketType>().unwrap(), TicketType::Chore);
    assert_eq!("BUG".parse::<TicketType>().unwrap(), TicketType::Bug);
    assert_eq!("FEATURE".parse::<TicketType>().unwrap(), TicketType::Feature);
    assert_eq!("TASK".parse::<TicketType>().unwrap(), TicketType::Task);
    assert_eq!("EPIC".parse::<TicketType>().unwrap(), TicketType::Epic);
    assert_eq!("CHORE".parse::<TicketType>().unwrap(), TicketType::Chore);
    assert_eq!("Bug".parse::<TicketType>().unwrap(), TicketType::Bug);
    assert_eq!("Feature".parse::<TicketType>().unwrap(), TicketType::Feature);
    assert_eq!("Task".parse::<TicketType>().unwrap(), TicketType::Task);
    assert!("invalid".parse::<TicketType>().is_err());
    assert!("".parse::<TicketType>().is_err());
}

#[test]
fn test_ticket_priority_from_str() {
    assert_eq!("0".parse::<TicketPriority>().unwrap(), TicketPriority::P0);
    assert_eq!("1".parse::<TicketPriority>().unwrap(), TicketPriority::P1);
    assert_eq!("2".parse::<TicketPriority>().unwrap(), TicketPriority::P2);
    assert_eq!("3".parse::<TicketPriority>().unwrap(), TicketPriority::P3);
    assert_eq!("4".parse::<TicketPriority>().unwrap(), TicketPriority::P4);
    assert!("5".parse::<TicketPriority>().is_err());
    assert!("-1".parse::<TicketPriority>().is_err());
    assert!("p0".parse::<TicketPriority>().is_err());
    assert!("P0".parse::<TicketPriority>().is_err());
    assert!("".parse::<TicketPriority>().is_err());
}

#[test]
fn test_spawning_metadata_fields_in_valid_fields() {
    assert!(VALID_TICKET_FIELDS.contains(&"spawned-from"));
    assert!(VALID_TICKET_FIELDS.contains(&"spawn-context"));
    assert!(VALID_TICKET_FIELDS.contains(&"depth"));
}

#[test]
fn test_ticket_metadata_default_spawning_fields_none() {
    let metadata = TicketMetadata::default();
    assert!(metadata.spawned_from.is_none());
    assert!(metadata.spawn_context.is_none());
    assert!(metadata.depth.is_none());
}

#[test]
fn test_validate_field_name_valid() {
    assert!(validate_field_name("status", "update").is_ok());
    assert!(validate_field_name("priority", "update").is_ok());
    assert!(validate_field_name("type", "update").is_ok());
}

#[test]
fn test_validate_field_name_invalid() {
    let result = validate_field_name("unknown_field", "update");
    assert!(result.is_err());
    match result.unwrap_err() {
        JanusError::InvalidField { field, valid_fields: _ } => {
            assert_eq!(field, "unknown_field");
        }
        _ => panic!("Expected InvalidField error"),
    }
}

#[test]
fn test_validate_field_name_immutable_id() {
    let result = validate_field_name("id", "update");
    assert!(result.is_err());
    match result.unwrap_err() {
        JanusError::Other(msg) => {
            assert!(msg.contains("cannot update immutable field 'id'"));
        }
        _ => panic!("Expected Other error for immutable field"),
    }
}

#[test]
fn test_validate_field_name_immutable_uuid() {
    let result = validate_field_name("uuid", "update");
    assert!(result.is_err());
    match result.unwrap_err() {
        JanusError::Other(msg) => {
            assert!(msg.contains("cannot update immutable field 'uuid'"));
        }
        _ => panic!("Expected Other error for immutable field"),
    }
}

#[test]
fn test_validate_field_name_remove_immutable() {
    let result = validate_field_name("id", "remove");
    assert!(result.is_err());
    match result.unwrap_err() {
        JanusError::Other(msg) => {
            assert!(msg.contains("cannot remove immutable field 'id'"));
        }
        _ => panic!("Expected Other error for immutable field"),
    }
}

#[test]
fn test_ticket_field_from_str_valid() {
    assert_eq!(TicketField::from_str("id").unwrap(), TicketField::Id);
    assert_eq!(TicketField::from_str("uuid").unwrap(), TicketField::Uuid);
    assert_eq!(TicketField::from_str("status").unwrap(), TicketField::Status);
    assert_eq!(TicketField::from_str("deps").unwrap(), TicketField::Deps);
    assert_eq!(TicketField::from_str("type").unwrap(), TicketField::Type);
    assert_eq!(TicketField::from_str("spawned-from").unwrap(), TicketField::SpawnedFrom);
    assert_eq!(TicketField::from_str("spawn-context").unwrap(), TicketField::SpawnContext);
}

#[test]
fn test_ticket_field_from_str_invalid() {
    assert!(TicketField::from_str("invalid").is_err());
    assert!(TicketField::from_str("").is_err());
    assert!(TicketField::from_str("ID").is_err());
}

#[test]
fn test_ticket_field_is_immutable() {
    assert!(TicketField::Id.is_immutable());
    assert!(TicketField::Uuid.is_immutable());
    assert!(!TicketField::Status.is_immutable());
    assert!(!TicketField::Priority.is_immutable());
    assert!(!TicketField::SpawnedFrom.is_immutable());
}

#[test]
fn test_ticket_field_as_str() {
    assert_eq!(TicketField::Id.as_str(), "id");
    assert_eq!(TicketField::Uuid.as_str(), "uuid");
    assert_eq!(TicketField::Status.as_str(), "status");
    assert_eq!(TicketField::SpawnedFrom.as_str(), "spawned-from");
    assert_eq!(TicketField::SpawnContext.as_str(), "spawn-context");
}

#[test]
fn test_ticket_field_display() {
    assert_eq!(TicketField::Id.to_string(), "id");
    assert_eq!(TicketField::SpawnedFrom.to_string(), "spawned-from");
}

#[test]
fn test_validate_field_name_uses_strict_enum() {
    let valid_fields = TicketField::all();
    assert!(!valid_fields.is_empty());
    for field in valid_fields {
        if !field.is_immutable() {
            assert!(
                validate_field_name(field.as_str(), "update").is_ok(),
                "Valid mutable field '{}' should be accepted",
                field.as_str()
            );
        } else {
            let result = validate_field_name(field.as_str(), "update");
            assert!(result.is_err(), "Immutable field '{}' should be rejected for update", field.as_str());
        }
    }
}

#[test]
fn tickets_and_plans_dirs_join_root() {
    assert_eq!(tickets_items_dir(".janus"), ".janus/items");
    assert_eq!(plans_dir("/custom/path/.janus"), "/custom/path/.janus/plans");
}

#[test]
fn priority_numbers_and_names() {
    assert_eq!(TicketPriority::P0.as_num(), 0);
    assert_eq!(TicketPriority::P4.as_num(), 4);
    assert_eq!(TicketStatus::InProgress.as_str(), "in_progress");
    assert_eq!(TicketType::Chore.as_str(), "chore");
}

#[test]
fn test_janus_root_default() {
    assert_eq!(janus_root_from(None), ".janus");
}

#[test]
fn test_janus_root_with_env_var() {
    assert_eq!(janus_root_from(Some("/custom/path/.janus".to_string())), "/custom/path/.janus");
}

#[test]
fn test_tickets_items_dir_default() {
    assert_eq!(tickets_items_dir(&janus_root_from(None)), ".janus/items");
}

#[test]
fn test_tickets_items_dir_with_env_var() {
    let root = janus_root_from(Some("/custom/path/.janus".to_string()));
    assert_eq!(tickets_items_dir(&root), "/custom/path/.janus/items");
}

#[test]
fn test_plans_dir_default() {
    assert_eq!(plans_dir(&janus_root_from(None)), ".janus/plans");
}

#[test]
fn test_plans_dir_with_env_var() {
    let root = janus_root_from(Some("/custom/path/.janus".to_string()));
    assert_eq!(plans_dir(&root), "/custom/path/.janus/plans");
}

#[test]
fn invalid_field_lists_every_field_name() {
    match validate_field_name("nope", "update") {
        Err(JanusError::InvalidField { field, valid_fields }) => {
            assert_eq!(field, "nope");
            let expected: Vec<String> = VALID_TICKET_FIELDS.iter().map(|s| s.to_string()).collect();
            assert_eq!(valid_fields, expected);
        }
        other => panic!("unexpected {other:?}"),
    }
}
