//! What the first version of the search bar reports.
use vstd::prelude::*;

verus! {

/// What a frame of the search bar reports.
pub struct SearchBarOutput {
    pub events: Vec<SearchBarEvent>,
}

/// What happened in the search bar.
pub enum SearchBarEvent {
    /// Start search with raw query string
    StartSearch(String),
}

} // verus!
