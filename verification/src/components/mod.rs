//! The first version of the window's parts.
pub mod search_bar;
