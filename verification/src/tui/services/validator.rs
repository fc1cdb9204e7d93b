//! Validation of the ticket edit form.
use vstd::prelude::*;

use crate::text::{all_whitespace, is_blank, owned};
use crate::types::{TicketPriority, TicketStatus, TicketType};

verus! {

/// Outcome of validating a form.
#[derive(Debug, Clone)]
pub struct ValidationResult {
    /// Whether validation passed.
    pub is_valid: bool,
    /// The message when validation failed.
    pub error: Option<String>,
}

impl ValidationResult {
    /// A passed validation.
    pub fn success() -> (r: Self)
        ensures
            r.is_valid,
            r.error is None,
    {
        ValidationResult { is_valid: true, error: None }
    }

    /// A failed validation with `message`.
    pub fn failure(message: String) -> (r: Self)
        ensures
            !r.is_valid,
            r.error == Some(message),
    {
        ValidationResult { is_valid: false, error: Some(message) }
    }
}

/// Message for a title that is empty once trimmed.
pub open spec fn empty_title_message() -> Seq<char> {
    "Title cannot be empty"@
}

/// Validator for the ticket edit form.
pub struct TicketFormValidator;

impl TicketFormValidator {
    /// Validates the form: the title must hold something besides
    /// whitespace; the other fields always pass.
    pub fn validate(
        title: &str,
        _status: TicketStatus,
        _ticket_type: TicketType,
        _priority: TicketPriority,
        _body: &str,
    ) -> (r: ValidationResult)
        ensures
            r.is_valid <==> !all_whitespace(title@),
            r.is_valid ==> r.error is None,
            !r.is_valid ==> (r.error matches Some(m) && m@ == empty_title_message()),
    {
        if is_blank(title) {
            return ValidationResult::failure(owned("Title cannot be empty"));
        }
        ValidationResult::success()
    }
}

} // verus!
