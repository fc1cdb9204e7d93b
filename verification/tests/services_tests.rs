use janus::error::{IoErrorKind, JanusError};
use janus::tui::remote::error_toast::ToastLevel;
use janus::tui::services::edit::TicketEditService;
use janus::tui::services::external_editor::{EditorReport, EditorSession, EditorStep, ExternalEditor};
use janus::tui::services::validator::TicketFormValidator;
use janus::types::{TicketPriority, TicketStatus, TicketType};

const MISSING: &str = "/tmp/janus_nonexistent_ticket_file_12345.md";

/// Runs an editor session to its end with the given outcomes, and gives
/// its result with the steps asked for, in order.
fn run_session(
    path: &str,
    exists: bool,
    suspended: Result<(), String>,
    edited: Result<(), JanusError>,
    restored: Option<String>,
) -> (Result<(), JanusError>, Vec<&'static str>) {
    let (mut session, mut step) = EditorSession::new(path.to_string());
    let mut suspended = Some(suspended);
    let mut edited = Some(edited);
    let mut restored = Some(restored);
    let mut steps = Vec::new();
    loop {
        let report = match step {
            EditorStep::CheckFile => {
                steps.push("check");
                EditorReport::FileChecked(exists)
            }
            EditorStep::Suspend => {
                steps.push("suspend");
                EditorReport::Suspended(suspended.take().unwrap())
            }
            EditorStep::Launch => {
                steps.push("launch");
                EditorReport::Edited(edited.take().unwrap())
            }
            EditorStep::Restore => {
                steps.push("restore");
                EditorReport::Restored(restored.take().unwrap())
            }
            EditorStep::Done(r) => return (r, steps),
        };
        step = session.advance(report);
    }
}

fn open_missing() -> Result<(), JanusError> {
    let (r, steps) = run_session(MISSING, false, Ok(()), Ok(()), None);
    assert_eq!(steps, vec!["check"]);
    r
}

#[test]
fn test_validation_success() {
    let result =
        TicketFormValidator::validate("Test Title", TicketStatus::New, TicketType::Task, TicketPriority::P2, "Body");
    assert!(result.is_valid);
    assert!(result.error.is_none());
}

#[test]
fn test_validation_empty_title() {
    let result = TicketFormValidator::validate("", TicketStatus::New, TicketType::Task, TicketPriority::P2, "Body");
    assert!(!result.is_valid);
    assert_eq!(result.error, Some("Title cannot be empty".to_string()));
}

#[test]
fn test_validation_whitespace_title() {
    let result = TicketFormValidator::validate("   ", TicketStatus::New, TicketType::Task, TicketPriority::P2, "Body");
    assert!(!result.is_valid);
    assert_eq!(result.error, Some("Title cannot be empty".to_string()));
}

#[test]
fn test_validation_with_body() {
    let result = TicketFormValidator::validate(
        "Title",
        TicketStatus::InProgress,
        TicketType::Feature,
        TicketPriority::P1,
        "Multi\nline\nbody",
    );
    assert!(result.is_valid);
}

#[test]
fn test_is_new_ticket() {
    assert!(TicketEditService::is_new_ticket(None));
    assert!(!TicketEditService::is_new_ticket(Some("j-1234")));
}

#[test]
fn test_open_ticket_file_nonexistent_path_returns_error() {
    let result = open_missing();
    assert!(result.is_err());
    let err = result.unwrap_err();
    assert!(matches!(err, JanusError::FileNotFound(_)), "expected FileNotFound, got: {err:?}");
}

#[test]
fn test_open_ticket_file_nonexistent_path_includes_path_in_message() {
    let err = open_missing().unwrap_err();
    let msg = err.to_string();
    assert!(
        msg.contains("janus_nonexistent_ticket_file_12345.md"),
        "error message should include the file path, got: {msg}"
    );
}

#[test]
fn test_error_to_toast_editor_not_found_code_127() {
    let toast = ExternalEditor::error_to_toast(&JanusError::EditorFailed(127));
    assert_eq!(toast.level, ToastLevel::Error);
    assert!(toast.message.contains("$EDITOR"), "got: {}", toast.message);
}

#[test]
fn test_error_to_toast_editor_permission_denied_code_126() {
    let toast = ExternalEditor::error_to_toast(&JanusError::EditorFailed(126));
    assert_eq!(toast.level, ToastLevel::Error);
    assert!(toast.message.contains("$EDITOR"), "got: {}", toast.message);
}

#[test]
fn test_error_to_toast_editor_nonzero_exit() {
    let toast = ExternalEditor::error_to_toast(&JanusError::EditorFailed(1));
    assert_eq!(toast.level, ToastLevel::Warning);
    assert!(toast.message.contains("code 1"), "got: {}", toast.message);
}

#[test]
fn test_error_to_toast_editor_nonzero_exit_other_code() {
    let toast = ExternalEditor::error_to_toast(&JanusError::EditorFailed(42));
    assert_eq!(toast.level, ToastLevel::Warning);
    assert!(toast.message.contains("code 42"), "got: {}", toast.message);
}

#[test]
fn test_error_to_toast_file_not_found() {
    let msg = "Ticket file not found: /path/to/ticket.md".to_string();
    let toast = ExternalEditor::error_to_toast(&JanusError::FileNotFound(msg.clone()));
    assert_eq!(toast.level, ToastLevel::Error);
    assert_eq!(toast.message, msg);
}

#[test]
fn test_error_to_toast_io_not_found() {
    let err = JanusError::Io(IoErrorKind::NotFound, "editor binary not found".to_string());
    let toast = ExternalEditor::error_to_toast(&err);
    assert_eq!(toast.level, ToastLevel::Error);
    assert!(toast.message.contains("$EDITOR"), "got: {}", toast.message);
}

#[test]
fn test_error_to_toast_io_permission_denied() {
    let err = JanusError::Io(IoErrorKind::PermissionDenied, "access denied".to_string());
    let toast = ExternalEditor::error_to_toast(&err);
    assert_eq!(toast.level, ToastLevel::Error);
    assert!(toast.message.contains("$EDITOR"), "got: {}", toast.message);
}

#[test]
fn test_error_to_toast_tui_error() {
    let msg = "Failed to suspend terminal: some error".to_string();
    let toast = ExternalEditor::error_to_toast(&JanusError::TuiError(msg.clone()));
    assert_eq!(toast.level, ToastLevel::Error);
    assert_eq!(toast.message, msg);
}

#[test]
fn editor_error_takes_priority_over_restore_error() {
    let (r, steps) = run_session(
        "t.md",
        true,
        Ok(()),
        Err(JanusError::EditorFailed(3)),
        Some("clear screen: broken".to_string()),
    );
    assert!(matches!(r, Err(JanusError::EditorFailed(3))));
    assert_eq!(steps, vec!["check", "suspend", "launch", "restore"]);
}

#[test]
fn restore_failure_is_reported_after_a_clean_edit() {
    let (r, _) = run_session("t.md", true, Ok(()), Ok(()), Some("hide cursor: broken".to_string()));
    match r {
        Err(JanusError::TuiError(m)) => assert_eq!(m, "Failed to fully restore terminal: hide cursor: broken"),
        other => panic!("unexpected: {other:?}"),
    }
    let (ok, steps) = run_session("t.md", true, Ok(()), Ok(()), None);
    assert!(ok.is_ok());
    assert_eq!(steps, vec!["check", "suspend", "launch", "restore"]);
}

#[test]
fn suspend_failure_stops_before_the_editor() {
    let (r, steps) = run_session("t.md", true, Err("no tty".to_string()), Ok(()), None);
    assert_eq!(steps, vec!["check", "suspend"]);
    match r {
        Err(JanusError::TuiError(m)) => assert_eq!(m, "Failed to suspend terminal: no tty"),
        other => panic!("unexpected: {other:?}"),
    }
}

#[test]
fn other_io_errors_show_their_text() {
    let toast = ExternalEditor::error_to_toast(&JanusError::Io(IoErrorKind::Other, "disk full".to_string()));
    assert_eq!(toast.level, ToastLevel::Error);
    assert_eq!(toast.message, "I/O error: disk full");
    let toast = ExternalEditor::error_to_toast(&JanusError::EditorFailed(-2));
    assert_eq!(toast.message, "Editor exited with error (code -2)");
}
