//! Services behind the ticket edit form: validation, saving and the
//! external editor.
pub mod validator;
pub mod edit;
pub mod external_editor;
