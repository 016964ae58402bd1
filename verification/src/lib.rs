//! A desktop file search: the server's search sessions and answers, and the
//! window's search bar, completions, result list and key bindings.
pub mod text;
pub mod sort;
pub mod search_mode;
pub mod search_result_store;
pub mod session;
pub mod protocol;
pub mod server;
pub mod cli;
pub mod cache_debug;
pub mod completion;
pub mod query_highlighter;
pub mod search_status;
pub mod backend;
pub mod app;
pub mod component;
pub mod components;
pub mod scope;
pub mod ui;
