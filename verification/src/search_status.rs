//! The window's view of the current search.
use vstd::prelude::*;
use crate::session::{SearchErrorKind, SearchStatus as ServerStatus};

verus! {

/// The current search, as the window tracks it.
pub enum SearchStatus {
    Idle,
    Working(WorkingSearchStatus),
    Failed(SearchErrorKind),
}

/// A search the server is running, and the last status it reported.
pub struct WorkingSearchStatus {
    pub session_id: u128,
    pub status: Option<ServerStatus>,
}

impl WorkingSearchStatus {
    /// A search just started: no status reported yet.
    pub fn new(id: u128) -> (w: Self)
        ensures
            w.session_id == id,
            w.status is None,
    {
        Self { session_id: id, status: None }
    }
}

impl Default for SearchStatus {
    fn default() -> (s: Self)
        ensures
            s is Idle,
    {
        SearchStatus::Idle
    }
}

} // verus!
