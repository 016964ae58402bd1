//! The messages between the GUI and the search server.
use vstd::prelude::*;
use crate::search_mode::SearchMode;
use crate::session::{FetchResults, SearchErrorKind, SearchStatus};

verus! {

/// A search to start.
pub struct SearchRequest {
    pub query: String,
    pub search_mode: SearchMode,
}

/// A page of results to fetch.
#[derive(Debug, Clone, Copy, PartialEq, Eq, Structural)]
pub struct FetchSearchResultsRequest {
    pub session_id: u128,
    pub offset: usize,
    pub limit: usize,
}

/// What the GUI asks of the server.
pub enum Request {
    Ping,
    StartSearch(SearchRequest),
    SearchStatus(u128),
    FetchSearchResults(FetchSearchResultsRequest),
    CancelSearch(u128),
}

/// What the server answers; the answers about a session carry its id.
pub enum Response {
    Ping(String),
    StartSearch(Result<u128, SearchErrorKind>),
    SearchStatus((u128, Result<SearchStatus, SearchErrorKind>)),
    FetchSearchResults((u128, Result<FetchResults, SearchErrorKind>)),
    CancelSearch((u128, Result<(), SearchErrorKind>)),
}

/// Why a call to the server failed.
#[derive(Debug, Clone, Copy, PartialEq, Eq, Structural)]
pub enum RpcFailure {
    /// The client was shut down
    Shutdown,
    /// Any other failure of the call
    Other,
}

/// What the backend thread reports to the window.
pub enum BackendEvent {
    /// The backend successfully connected to the socket
    Connected,
    /// The backend failed to connect (fatal error)
    ConnectionFailed(String),
    /// A response to a specific RPC request
    RpcResponse(Response),
    RpcFailure(RpcFailure),
}

} // verus!
