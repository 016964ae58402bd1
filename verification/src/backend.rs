//! The GUI's side of a search: what it asks the server, and the decisions of the
//! task that polls a running search for its status and results.
use vstd::prelude::*;
use crate::session::{FetchResults, SearchErrorKind, SearchStatus};

verus! {

/// A search as the GUI puts it to the backend.
pub struct SearchRequest {
    pub root_directories: Vec<String>,
    pub query: String,
    regular_expressions: Vec<String>,
    keywords: Vec<String>,
}

/// How a search ended.
pub enum SearchResult {
    Success,
    /// Search failed message with reason
    Failed(String),
}

/// What a status poll of a running search told.
#[derive(Debug, Clone, Copy, PartialEq, Eq, Structural)]
pub enum PolledStatus {
    /// The search is still running
    InProgress,
    /// The search has found all it will find
    Completed,
    /// The search failed or was cancelled, or the server answered with an error
    Ended,
}

/// What a fetch of results told.
#[derive(Debug, Clone, Copy, PartialEq, Eq, Structural)]
pub enum FetchOutcome {
    /// `count` results came, and whether more may follow
    Fetched { count: usize, has_more: bool },
    /// The server answered with a search-level error (the session is gone, ...)
    SearchError,
}

/// What the poller does next.
#[derive(Debug, Clone, Copy, PartialEq, Eq, Structural)]
pub enum PollStep {
    /// Stop polling
    Stop,
    /// Fetch up to `limit` results from `offset`
    Fetch { offset: usize, limit: usize },
    /// Wait for the next poll interval, then poll the status again
    Continue,
}

/// The state of the task that polls a running search: it polls the status at
/// each interval, fetches the results that are not fetched yet, and stops when
/// the search ends or has completed with every result fetched.
pub struct SearchPoller {
    pub offset: usize,
    pub all_results_fetched: bool,
    pub search_completed: bool,
    pub batch_limit: usize,
}

impl SearchPoller {
    /// A poller that fetches results in batches of `batch_limit`.
    pub fn new(batch_limit: usize) -> (p: Self)
        ensures
            p.offset == 0,
            !p.all_results_fetched,
            !p.search_completed,
            p.batch_limit == batch_limit,
    {
        SearchPoller { offset: 0, all_results_fetched: false, search_completed: false, batch_limit }
    }

    /// The step after a status poll.
    pub fn on_status(&mut self, status: PolledStatus) -> (step: PollStep)
        ensures
            final(self).offset == old(self).offset,
            final(self).all_results_fetched == old(self).all_results_fetched,
            final(self).batch_limit == old(self).batch_limit,
            status == PolledStatus::Ended ==> step == PollStep::Stop
                && final(self).search_completed == old(self).search_completed,
            status != PolledStatus::Ended ==> {
                &&& final(self).search_completed == (status == PolledStatus::Completed)
                &&& step == if !old(self).all_results_fetched {
                    PollStep::Fetch { offset: old(self).offset, limit: old(self).batch_limit }
                } else if status == PolledStatus::Completed {
                    PollStep::Stop
                } else {
                    PollStep::Continue
                }
            },
    {
        match status {
            PolledStatus::Ended => PollStep::Stop,
            _ => {
                self.search_completed = status == PolledStatus::Completed;
                if !self.all_results_fetched {
                    PollStep::Fetch { offset: self.offset, limit: self.batch_limit }
                } else if self.search_completed {
                    PollStep::Stop
                } else {
                    PollStep::Continue
                }
            },
        }
    }

    /// The step after a fetch of results.
    pub fn on_fetch(&mut self, outcome: FetchOutcome) -> (step: PollStep)
        requires
            outcome matches FetchOutcome::Fetched { count, .. } ==> old(self).offset + count <= usize::MAX,
        ensures
            final(self).batch_limit == old(self).batch_limit,
            final(self).search_completed == old(self).search_completed,
            outcome matches FetchOutcome::SearchError ==> step == PollStep::Stop
                && final(self).offset == old(self).offset
                && final(self).all_results_fetched == old(self).all_results_fetched,
            outcome matches FetchOutcome::Fetched { count, has_more } ==> {
                &&& final(self).offset == old(self).offset + count
                &&& final(self).all_results_fetched == (old(self).all_results_fetched || !has_more)
                &&& step == if final(self).search_completed && final(self).all_results_fetched {
                    PollStep::Stop
                } else {
                    PollStep::Continue
                }
            },
    {
        match outcome {
            FetchOutcome::Fetched { count, has_more } => {
                self.offset = self.offset + count;
                if !has_more {
                    self.all_results_fetched = true;
                }
                if self.search_completed && self.all_results_fetched {
                    PollStep::Stop
                } else {
                    PollStep::Continue
                }
            },
            FetchOutcome::SearchError => PollStep::Stop,
        }
    }
}

/// What a status answer tells the poller: a search in progress or complete
/// goes on; a failed or cancelled search, or an error, ends the polling.
pub fn polled_status(answer: &Result<SearchStatus, SearchErrorKind>) -> (p: PolledStatus)
    ensures
        p == match answer {
            Ok(SearchStatus::InProgress { .. }) => PolledStatus::InProgress,
            Ok(SearchStatus::Completed { .. }) => PolledStatus::Completed,
            _ => PolledStatus::Ended,
        },
{
    match answer {
        Ok(SearchStatus::InProgress { .. }) => PolledStatus::InProgress,
        Ok(SearchStatus::Completed { .. }) => PolledStatus::Completed,
        _ => PolledStatus::Ended,
    }
}

/// What a fetch answer tells the poller: how many results came and whether
/// more may follow, or a search-level error.
pub fn fetch_outcome(answer: &Result<FetchResults, SearchErrorKind>) -> (o: FetchOutcome)
    ensures
        match answer {
            Ok(f) => o == FetchOutcome::Fetched { count: f.hits@.len() as usize, has_more: f.has_more },
            Err(_) => o == FetchOutcome::SearchError,
        },
{
    match answer {
        Ok(f) => FetchOutcome::Fetched { count: f.hits.len(), has_more: f.has_more },
        Err(_) => FetchOutcome::SearchError,
    }
}

} // verus!
