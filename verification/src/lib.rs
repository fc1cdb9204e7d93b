//! Plain-text issue tracking: ticket types, identifiers, search and the
//! state machines behind the terminal user interfaces.
pub mod text;
pub mod error;
pub mod hooks;
pub mod types;
pub mod utils;
pub mod remote;
pub mod tui;
