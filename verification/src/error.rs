//! Error type shared by the library.
use vstd::prelude::*;

use crate::text::{concat, decimal, decimal_string, owned};

verus! {

/// Errors reported by the library.
#[derive(Debug, Clone)]
pub enum JanusError {
    /// A status string that names no ticket status.
    InvalidStatus(String),
    /// A type string that names no ticket type.
    InvalidTicketType(String),
    /// An entity-type string that names no entity type.
    InvalidEntityType(String),
    /// A priority string that names no priority.
    InvalidPriority(String),
    /// A field name that names no ticket field.
    InvalidField { field: String, valid_fields: Vec<String> },
    /// Any other failure, with its message.
    Other(String),
    /// A rejected ticket-id prefix, with the reason.
    InvalidPrefix(String, String),
    /// A remote reference that could not be built for an issue, with the reason.
    InvalidRemoteRef(String, String),
    /// A ticket title that is empty.
    EmptyTitle,
    /// A file that does not exist.
    FileNotFound(String),
    /// A terminal-handling failure.
    TuiError(String),
    /// The external editor exited with this status code.
    EditorFailed(i32),
    /// Authentication with a remote provider failed.
    Auth(String),
    /// A remote provider's API reported an error.
    Api(String),
    /// A remote provider asked to retry after this many seconds.
    RateLimited(u64),
    /// An HTTP transport failure.
    Http(String),
    /// A configuration problem.
    Config(String),
    /// No ticket has this id.
    TicketNotFound(String),
    /// The ticket is not linked to a remote issue.
    NotLinked,
    /// The ticket is already linked to a remote issue.
    AlreadyLinked(String),
    /// An input/output failure of this kind, with its message.
    Io(IoErrorKind, String),
}

/// The kinds of input/output failure that the library tells apart.
#[derive(Debug, Clone, Copy, PartialEq, Eq, Structural)]
pub enum IoErrorKind {
    /// The file or program was not found.
    NotFound,
    /// Access was refused.
    PermissionDenied,
    /// Any other kind.
    Other,
}

/// Decimal rendering of a signed number.
pub open spec fn signed_decimal(n: int) -> Seq<char> {
    if n < 0 {
        seq!['-'] + decimal((-n) as nat)
    } else {
        decimal(n as nat)
    }
}

/// The message of an error.
pub open spec fn error_text(e: JanusError) -> Seq<char> {
    match e {
        JanusError::InvalidStatus(s) => "invalid status: "@ + s@,
        JanusError::InvalidTicketType(s) => "invalid ticket type: "@ + s@,
        JanusError::InvalidEntityType(s) => "invalid entity type: "@ + s@,
        JanusError::InvalidPriority(s) => "invalid priority: "@ + s@,
        JanusError::InvalidField { field, valid_fields } => "invalid field: "@ + field@,
        JanusError::Other(msg) => msg@,
        JanusError::InvalidPrefix(_, msg) => msg@,
        JanusError::InvalidRemoteRef(id, msg) => "invalid remote reference for "@ + id@ + ": "@
            + msg@,
        JanusError::EmptyTitle => "title cannot be empty"@,
        JanusError::FileNotFound(msg) => msg@,
        JanusError::TuiError(msg) => msg@,
        JanusError::EditorFailed(code) => "editor exited with status "@ + signed_decimal(
            code as int,
        ),
        JanusError::Auth(msg) => "authentication failed: "@ + msg@,
        JanusError::Api(msg) => "API error: "@ + msg@,
        JanusError::RateLimited(secs) => "rate limited, retry after "@ + decimal(secs as nat)
            + "s"@,
        JanusError::Http(msg) => "HTTP error: "@ + msg@,
        JanusError::Config(msg) => "configuration error: "@ + msg@,
        JanusError::TicketNotFound(id) => "ticket not found: "@ + id@,
        JanusError::NotLinked => "ticket is not linked to a remote issue"@,
        JanusError::AlreadyLinked(id) => "ticket is already linked to a remote issue: "@ + id@,
        JanusError::Io(_, msg) => "I/O error: "@ + msg@,
    }
}

/// Decimal rendering of a signed 32-bit number.
pub fn signed_decimal_string(n: i32) -> (s: String)
    ensures
        s@ == signed_decimal(n as int),
{
    if n < 0 {
        let m: i64 = n as i64;
        let abs: u64 = (-m) as u64;
        proof {
            reveal_strlit("-");
        }
        concat("-", decimal_string(abs).as_str())
    } else {
        decimal_string(n as u64)
    }
}

impl JanusError {
    /// The error's message.
    pub fn to_string(&self) -> (s: String)
        ensures
            s@ == error_text(*self),
    {
        match self {
            JanusError::InvalidStatus(s) => concat("invalid status: ", s.as_str()),
            JanusError::InvalidTicketType(s) => concat("invalid ticket type: ", s.as_str()),
            JanusError::InvalidEntityType(s) => concat("invalid entity type: ", s.as_str()),
            JanusError::InvalidPriority(s) => concat("invalid priority: ", s.as_str()),
            JanusError::InvalidField { field, .. } => concat("invalid field: ", field.as_str()),
            JanusError::Other(msg) => owned(msg.as_str()),
            JanusError::InvalidPrefix(_, msg) => owned(msg.as_str()),
            JanusError::InvalidRemoteRef(id, msg) => {
                let a = concat("invalid remote reference for ", id.as_str());
                let b = concat(a.as_str(), ": ");
                concat(b.as_str(), msg.as_str())
            },
            JanusError::EmptyTitle => owned("title cannot be empty"),
            JanusError::FileNotFound(msg) => owned(msg.as_str()),
            JanusError::TuiError(msg) => owned(msg.as_str()),
            JanusError::EditorFailed(code) => {
                let d = signed_decimal_string(*code);
                concat("editor exited with status ", d.as_str())
            },
            JanusError::Auth(msg) => concat("authentication failed: ", msg.as_str()),
            JanusError::Api(msg) => concat("API error: ", msg.as_str()),
            JanusError::RateLimited(secs) => {
                let d = decimal_string(*secs);
                let a = concat("rate limited, retry after ", d.as_str());
                concat(a.as_str(), "s")
            },
            JanusError::Http(msg) => concat("HTTP error: ", msg.as_str()),
            JanusError::Config(msg) => concat("configuration error: ", msg.as_str()),
            JanusError::TicketNotFound(id) => concat("ticket not found: ", id.as_str()),
            JanusError::NotLinked => owned("ticket is not linked to a remote issue"),
            JanusError::AlreadyLinked(id) => concat(
                "ticket is already linked to a remote issue: ",
                id.as_str(),
            ),
            JanusError::Io(_, msg) => concat("I/O error: ", msg.as_str()),
        }
    }
}

} // verus!
