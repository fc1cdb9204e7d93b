//! The remote interface: local tickets beside the issues of a remote
//! platform, with linking, pushing, adopting and syncing between them.
pub mod state;
pub mod sync_preview;
pub mod link_mode;
pub mod filter_modal;
pub mod error_toast;
pub mod confirm_modal;
pub mod shortcuts;
pub mod help;
pub mod filter;
pub mod model;
pub mod handlers;
pub mod operations;
pub mod detail;
