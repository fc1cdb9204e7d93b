//! The issue browser: a searchable ticket list with a detail pane.
pub mod handlers;
pub mod model;
pub mod browser;
