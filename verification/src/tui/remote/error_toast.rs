//! Toast notifications: a short message with a severity and the moment it
//! was raised.
use vstd::prelude::*;

use std::time::Instant;

use crate::text::owned;

verus! {

#[verifier::external_type_specification]
#[verifier::external_body]
pub struct ExInstant(Instant);

/// `Instant::now`: the current moment (nothing is stated of it).
#[verifier::external_body]
fn now() -> Instant {
    Instant::now()
}

/// A notification shown for a while at the bottom of the screen.
#[derive(Debug)]
pub struct Toast {
    pub message: String,
    pub level: ToastLevel,
    pub timestamp: Instant,
}

/// Severity of a toast.
#[derive(Debug, Clone, Copy, PartialEq, Eq, Structural)]
pub enum ToastLevel {
    Info,
    Warning,
    Error,
}

impl Clone for Toast {
    fn clone(&self) -> (r: Self)
        ensures
            r.message@ == self.message@,
            r.level == self.level,
            r.timestamp == self.timestamp,
    {
        Toast { message: self.message.clone(), level: self.level, timestamp: self.timestamp }
    }
}

impl Toast {
    /// A toast raised now.
    pub fn new(message: String, level: ToastLevel) -> (r: Toast)
        ensures
            r.message == message,
            r.level == level,
    {
        Toast { message, level, timestamp: now() }
    }

    /// An informational toast.
    pub fn info(message: &str) -> (r: Toast)
        ensures
            r.message@ == message@,
            r.level == ToastLevel::Info,
    {
        Toast::new(owned(message), ToastLevel::Info)
    }

    /// A warning toast.
    pub fn warning(message: &str) -> (r: Toast)
        ensures
            r.message@ == message@,
            r.level == ToastLevel::Warning,
    {
        Toast::new(owned(message), ToastLevel::Warning)
    }

    /// An error toast.
    pub fn error(message: &str) -> (r: Toast)
        ensures
            r.message@ == message@,
            r.level == ToastLevel::Error,
    {
        Toast::new(owned(message), ToastLevel::Error)
    }
}

} // verus!
