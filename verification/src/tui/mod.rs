//! The logic behind the terminal user interfaces: search, state, reducers
//! and view models.
pub mod keys;
pub mod navigation;
pub mod search;
pub mod search_orchestrator;
pub mod components;
pub mod remote;
pub mod analytics;
pub mod repository;
pub mod state;
pub mod view;
pub mod services;
pub mod screen_base;
