//! Opening a ticket file in the user's editor while the interface is
//! suspended, and the toast that reports a failure.
//!
//! The file check, the terminal handling and the editor process are the
//! caller's. An `EditorSession` decides which of them comes next, from what
//! the caller reports of the last one: the file is checked, the terminal
//! suspended, the editor run and the terminal restored, in that order; a
//! missing file or a failed suspension ends it at once.
use vstd::prelude::*;

use crate::error::{error_text, signed_decimal, signed_decimal_string, IoErrorKind, JanusError};
use crate::text::concat;
use crate::tui::remote::error_toast::{Toast, ToastLevel};

verus! {

/// Message for a ticket file that does not exist.
pub open spec fn missing_file_message(path: Seq<char>) -> Seq<char> {
    "Ticket file not found: "@ + path
}

/// Message for a terminal that could not be suspended.
pub open spec fn suspend_failure_message(detail: Seq<char>) -> Seq<char> {
    "Failed to suspend terminal: "@ + detail
}

/// Message for a terminal that could not be fully restored.
pub open spec fn restore_failure_message(detail: Seq<char>) -> Seq<char> {
    "Failed to fully restore terminal: "@ + detail
}

/// `r` is what the editor's result and the restoration's result come to.
pub open spec fn edit_outcome(
    r: Result<(), JanusError>,
    edited: Result<(), JanusError>,
    restored: Option<String>,
) -> bool {
    match edited {
        Err(e) => r == Err::<(), JanusError>(e),
        Ok(_) => match restored {
            Some(detail) => r matches Err(JanusError::TuiError(m)) && m@
                == restore_failure_message(detail@),
            None => r is Ok,
        },
    }
}

/// Message of a toast that suggests setting the editor variable.
pub open spec fn editor_hint() -> Seq<char> {
    "Editor failed to launch. Set $EDITOR environment variable."@
}

/// Severity of the toast that reports `err`.
pub open spec fn toast_level_for(err: JanusError) -> ToastLevel {
    match err {
        JanusError::EditorFailed(code) => if code == 127 || code == 126 {
            ToastLevel::Error
        } else {
            ToastLevel::Warning
        },
        _ => ToastLevel::Error,
    }
}

/// Message of the toast that reports `err`.
pub open spec fn toast_message_for(err: JanusError) -> Seq<char> {
    match err {
        JanusError::EditorFailed(code) => if code == 127 || code == 126 {
            editor_hint()
        } else {
            "Editor exited with error (code "@ + signed_decimal(code as int) + ")"@
        },
        JanusError::FileNotFound(msg) => msg@,
        JanusError::Io(kind, _) => if kind == IoErrorKind::NotFound || kind
            == IoErrorKind::PermissionDenied {
            editor_hint()
        } else {
            error_text(err)
        },
        JanusError::TuiError(msg) => msg@,
        _ => error_text(err),
    }
}

/// A step of opening a ticket file in the editor, for the caller to carry
/// out and report on.
#[derive(Debug)]
pub enum EditorStep {
    /// Check whether the ticket file exists.
    CheckFile,
    /// Suspend the terminal interface.
    Suspend,
    /// Run the editor on the file and wait for it.
    Launch,
    /// Restore the terminal interface.
    Restore,
    /// Opening is over, with this result.
    Done(Result<(), JanusError>),
}

/// What the caller reports of the step it carried out.
#[derive(Debug)]
pub enum EditorReport {
    /// Whether the ticket file exists.
    FileChecked(bool),
    /// How suspending the terminal went (the failure's text).
    Suspended(Result<(), String>),
    /// How the editor ended.
    Edited(Result<(), JanusError>),
    /// What failed while restoring the terminal, if anything.
    Restored(Option<String>),
}

/// Where opening a ticket file stands.
#[derive(Debug)]
pub enum EditorStage {
    /// Waiting for the file check.
    Checking,
    /// Waiting for the terminal to be suspended.
    Suspending,
    /// Waiting for the editor to end.
    Editing,
    /// The editor ended with this result; waiting for the terminal to be
    /// restored.
    Restoring(Result<(), JanusError>),
    /// Opening is over.
    Finished,
}

/// `report` is the report of the step that `stage` waits for.
pub open spec fn report_fits(stage: EditorStage, report: EditorReport) -> bool {
    match stage {
        EditorStage::Checking => report is FileChecked,
        EditorStage::Suspending => report is Suspended,
        EditorStage::Editing => report is Edited,
        EditorStage::Restoring(_) => report is Restored,
        EditorStage::Finished => false,
    }
}

/// From `stage`, with `report` on the step it waited for, opening the file
/// at `path` goes on to `next` and asks for `step`: an existing file has the
/// terminal suspended, a missing one ends with `FileNotFound`; a suspended
/// terminal has the editor run, a failed suspension ends with `TuiError`;
/// once the editor ended, whatever its result, the terminal is restored;
/// after that the result is the editor's error, else a restoration failure,
/// else success.
pub open spec fn editor_advanced(
    path: Seq<char>,
    stage: EditorStage,
    report: EditorReport,
    next: EditorStage,
    step: EditorStep,
) -> bool {
    match report {
        EditorReport::FileChecked(exists) => if exists {
            next is Suspending && step is Suspend
        } else {
            next is Finished && (step matches EditorStep::Done(Err(JanusError::FileNotFound(m)))
                && m@ == missing_file_message(path))
        },
        EditorReport::Suspended(suspended) => match suspended {
            Ok(_) => next is Editing && step is Launch,
            Err(detail) => next is Finished && (step matches EditorStep::Done(
                Err(JanusError::TuiError(m)),
            ) && m@ == suspend_failure_message(detail@)),
        },
        EditorReport::Edited(edited) => next == EditorStage::Restoring(edited) && step is Restore,
        EditorReport::Restored(restored) => next is Finished && (step matches EditorStep::Done(r)
            && edit_outcome(r, stage->Restoring_0, restored)),
    }
}

/// Opening one ticket file in the editor.
#[derive(Debug)]
pub struct EditorSession {
    /// The ticket file.
    pub path: String,
    /// Where opening it stands.
    pub stage: EditorStage,
}

impl EditorSession {
    /// Starts opening the ticket file `path`: its existence is checked first.
    pub fn new(path: String) -> (r: (EditorSession, EditorStep))
        ensures
            r.0.path == path,
            r.0.stage is Checking,
            r.1 is CheckFile,
    {
        (EditorSession { path, stage: EditorStage::Checking }, EditorStep::CheckFile)
    }

    /// Takes the report on the step asked for last and gives the next one
    /// (see `editor_advanced`).
    pub fn advance(&mut self, report: EditorReport) -> (step: EditorStep)
        requires
            report_fits(old(self).stage, report),
        ensures
            final(self).path == old(self).path,
            editor_advanced(old(self).path@, old(self).stage, report, final(self).stage, step),
    {
        let mut stage = EditorStage::Finished;
        std::mem::swap(&mut stage, &mut self.stage);
        match report {
            EditorReport::FileChecked(exists) => {
                if exists {
                    self.stage = EditorStage::Suspending;
                    EditorStep::Suspend
                } else {
                    EditorStep::Done(
                        Err(JanusError::FileNotFound(concat("Ticket file not found: ", self.path.as_str()))),
                    )
                }
            },
            EditorReport::Suspended(suspended) => match suspended {
                Ok(()) => {
                    self.stage = EditorStage::Editing;
                    EditorStep::Launch
                },
                Err(detail) => EditorStep::Done(
                    Err(JanusError::TuiError(concat("Failed to suspend terminal: ", detail.as_str()))),
                ),
            },
            EditorReport::Edited(edited) => {
                self.stage = EditorStage::Restoring(edited);
                EditorStep::Restore
            },
            EditorReport::Restored(restored) => match stage {
                EditorStage::Restoring(edited) => EditorStep::Done(ExternalEditor::edit_result(edited, restored)),
                _ => EditorStep::Done(Ok(())),
            },
        }
    }
}

/// Opens ticket files in the external editor.
pub struct ExternalEditor;

impl ExternalEditor {
    /// What the editor's result and the restoration's result come to: the
    /// editor's error first, then a restoration failure, else success.
    pub fn edit_result(edited: Result<(), JanusError>, restored: Option<String>) -> (r: Result<
        (),
        JanusError,
    >)
        ensures
            edit_outcome(r, edited, restored),
    {
        match edited {
            Err(e) => Err(e),
            Ok(()) => match restored {
                Some(detail) => Err(
                    JanusError::TuiError(
                        concat("Failed to fully restore terminal: ", detail.as_str()),
                    ),
                ),
                None => Ok(()),
            },
        }
    }

    /// The toast that reports an error met while opening the editor: a
    /// missing or unlaunchable editor suggests setting `$EDITOR`; another
    /// non-zero exit is a warning with the code; a missing file or a
    /// terminal failure shows its own message; anything else its text.
    pub fn error_to_toast(err: &JanusError) -> (r: Toast)
        ensures
            r.level == toast_level_for(*err),
            r.message@ == toast_message_for(*err),
    {
        match err {
            JanusError::EditorFailed(code) => {
                if *code == 127 || *code == 126 {
                    Toast::error("Editor failed to launch. Set $EDITOR environment variable.")
                } else {
                    let d = signed_decimal_string(*code);
                    let a = concat("Editor exited with error (code ", d.as_str());
                    let msg = concat(a.as_str(), ")");
                    Toast::new(msg, ToastLevel::Warning)
                }
            },
            JanusError::FileNotFound(msg) => Toast::error(msg.as_str()),
            JanusError::Io(kind, _) => {
                match kind {
                    IoErrorKind::NotFound | IoErrorKind::PermissionDenied => Toast::error(
                        "Editor failed to launch. Set $EDITOR environment variable.",
                    ),
                    IoErrorKind::Other => {
                        let msg = err.to_string();
                        Toast::new(msg, ToastLevel::Error)
                    },
                }
            },
            JanusError::TuiError(msg) => Toast::error(msg.as_str()),
            _ => {
                let msg = err.to_string();
                Toast::new(msg, ToastLevel::Error)
            },
        }
    }
}

} // verus!
