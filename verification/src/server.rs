//! The search server's answers to its clients, over the session manager.
use vstd::prelude::*;
use vstd::string::*;
use crate::protocol::{FetchSearchResultsRequest, SearchRequest};
use crate::search_result_store::SearchHit;
use crate::session::{FetchResults, SearchErrorKind, SearchSession, SearchStatus, SessionManager, ValidationErrorKind, more_after, page};

verus! {

broadcast use vstd::string::group_string_axioms;

/// Why the search engine could not run a query.
pub enum QuerySearchError {
    /// The query does not parse
    ParseError(String),
    /// The query parses but is not valid
    ValidationError(String),
    /// The engine failed while running the query
    ExecutionError(String),
}

/// The error a client sees for an engine error: a query that does not parse
/// or is not valid is an invalid query, with the engine's message; a failure
/// while running it marks the search failed.
pub open spec fn spec_error_kind(e: QuerySearchError) -> SearchErrorKind {
    match e {
        QuerySearchError::ParseError(msg) => SearchErrorKind::InvalidQuery(ValidationErrorKind::InvalidRange { reason: msg }),
        QuerySearchError::ValidationError(msg) => SearchErrorKind::InvalidQuery(ValidationErrorKind::InvalidRange { reason: msg }),
        QuerySearchError::ExecutionError(_) => SearchErrorKind::OperateOnAlreadyFailedSearch,
    }
}

/// The error a client sees for an engine error.
pub fn error_kind(e: QuerySearchError) -> (k: SearchErrorKind)
    ensures
        k == spec_error_kind(e),
{
    match e {
        QuerySearchError::ParseError(msg) => SearchErrorKind::InvalidQuery(ValidationErrorKind::InvalidRange { reason: msg }),
        QuerySearchError::ValidationError(msg) => SearchErrorKind::InvalidQuery(ValidationErrorKind::InvalidRange { reason: msg }),
        QuerySearchError::ExecutionError(_) => SearchErrorKind::OperateOnAlreadyFailedSearch,
    }
}

/// Start a search: an empty query is refused as invalid; otherwise a session is
/// made for it, and its id is the answer. The search itself then runs in the
/// background and reports through `finish_search`.
pub fn start_search(sessions: &mut SessionManager, req: &SearchRequest) -> (r: Result<u128, SearchErrorKind>)
    ensures
        final(sessions).timeout_secs() == old(sessions).timeout_secs(),
        req.query@.len() == 0 ==> {
            &&& r matches Err(SearchErrorKind::InvalidQuery(ValidationErrorKind::EmptyValue))
            &&& final(sessions)@ == old(sessions)@
        },
        req.query@.len() > 0 ==> (r matches Ok(id) && {
            &&& exists|s: SearchSession, now: u64| SessionManager::fresh(s, id) && s.last_accessed == now
                && final(sessions)@ == #[trigger] SessionManager::unexpired(old(sessions)@.insert(id, s), now, old(sessions).timeout_secs())
            &&& old(sessions).timeout_secs() > 0 ==> final(sessions)@.contains_key(id)
            &&& forall|k: u128| #[trigger] final(sessions)@.contains_key(k) ==> old(sessions)@.insert(id, final(sessions)@[k]).contains_key(k)
            &&& forall|k: u128| #[trigger] final(sessions)@.contains_key(k) && k != id ==> final(sessions)@[k] == old(sessions)@[k]
            &&& final(sessions)@.contains_key(id) ==> {
                &&& final(sessions)@[id].session_id == id
                &&& final(sessions)@[id].results@.len() == 0
                &&& final(sessions)@[id].status == (SearchStatus::InProgress { found_so_far: 0 })
                &&& final(sessions)@[id].task_handle is None
            }
        }),
{
    if req.query.as_str().is_empty() {
        return Err(SearchErrorKind::InvalidQuery(ValidationErrorKind::EmptyValue));
    }
    let session_id = sessions.create_async_session();
    Ok(session_id)
}

/// Record how a background search ended: its results are appended and the
/// search marked complete, or it is marked failed with the client's error.
pub fn finish_search(sessions: &mut SessionManager, session_id: u128, result: Result<Vec<SearchHit>, QuerySearchError>)
    ensures
        final(sessions).timeout_secs() == old(sessions).timeout_secs(),
        !old(sessions)@.contains_key(session_id) ==> final(sessions)@ == old(sessions)@,
        old(sessions)@.contains_key(session_id) ==> {
            let s = old(sessions)@[session_id];
            let t = final(sessions)@[session_id];
            &&& SessionManager::others_kept(old(sessions)@, final(sessions)@, session_id)
            &&& t.session_id == s.session_id
            &&& t.task_handle == s.task_handle
            &&& t.created_at == s.created_at
            &&& t.last_accessed == s.last_accessed
            &&& match result {
                Ok(hits) => {
                    &&& t.results@ == s.results@ + hits@
                    &&& t.status == (SearchStatus::Completed { total_count: (s.results@.len() + hits@.len()) as u64 })
                },
                Err(e) => {
                    &&& t.results@ == s.results@
                    &&& t.status == SearchStatus::Failed(spec_error_kind(e))
                },
            }
        },
{
    match result {
        Ok(hits) => {
            sessions.append_results(session_id, hits);
            sessions.mark_completed(session_id);
        },
        Err(e) => {
            let kind = error_kind(e);
            sessions.mark_failed(session_id, kind);
        },
    }
}

/// The status of a search, with its id; an unknown session is an error.
pub fn search_status(sessions: &mut SessionManager, session_id: u128) -> (r: (u128, Result<SearchStatus, SearchErrorKind>))
    ensures
        final(sessions).timeout_secs() == old(sessions).timeout_secs(),
        r.0 == session_id,
        !old(sessions)@.contains_key(session_id) ==> {
            &&& r.1 matches Err(SearchErrorKind::SessionNotExists)
            &&& final(sessions)@ == old(sessions)@
        },
        old(sessions)@.contains_key(session_id) ==> {
            &&& r.1 == Ok::<SearchStatus, SearchErrorKind>(old(sessions)@[session_id].status)
            &&& SessionManager::others_kept(old(sessions)@, final(sessions)@, session_id)
            &&& SessionManager::touched(old(sessions)@[session_id], final(sessions)@[session_id])
        },
{
    let res = match sessions.get_status(session_id) {
        Some(status) => Ok(status),
        None => Err(SearchErrorKind::SessionNotExists),
    };
    (session_id, res)
}

/// A page of a search's results, with its id; an unknown session is an error.
pub fn fetch_search_results(sessions: &mut SessionManager, req: FetchSearchResultsRequest) -> (r: (u128, Result<FetchResults, SearchErrorKind>))
    requires
        req.offset + req.limit <= usize::MAX,
    ensures
        final(sessions).timeout_secs() == old(sessions).timeout_secs(),
        r.0 == req.session_id,
        !old(sessions)@.contains_key(req.session_id) ==> {
            &&& r.1 matches Err(SearchErrorKind::SessionNotExists)
            &&& final(sessions)@ == old(sessions)@
        },
        old(sessions)@.contains_key(req.session_id) ==> {
            let s = old(sessions)@[req.session_id];
            let hits = page(s.results@, req.offset as nat, req.limit as nat);
            &&& SessionManager::others_kept(old(sessions)@, final(sessions)@, req.session_id)
            &&& SessionManager::touched(s, final(sessions)@[req.session_id])
            &&& r.1 matches Ok(f) && {
                &&& f.session_id == req.session_id
                &&& f.offset == req.offset as u64
                &&& f.hits@ == hits
                &&& f.has_more == more_after(s.status, req.offset + hits.len())
            }
        },
{
    let res = match sessions.fetch_results(req.session_id, req.offset, req.limit) {
        Some(f) => Ok(f),
        None => Err(SearchErrorKind::SessionNotExists),
    };
    (req.session_id, res)
}

/// Cancel a search, with its id; an unknown session is an error.
pub fn cancel_search(sessions: &mut SessionManager, session_id: u128) -> (r: (u128, Result<(), SearchErrorKind>))
    ensures
        final(sessions).timeout_secs() == old(sessions).timeout_secs(),
        r.0 == session_id,
        !old(sessions)@.contains_key(session_id) ==> {
            &&& r.1 matches Err(SearchErrorKind::SessionNotExists)
            &&& final(sessions)@ == old(sessions)@
        },
        old(sessions)@.contains_key(session_id) ==> {
            let s = old(sessions)@[session_id];
            let t = final(sessions)@[session_id];
            &&& r.1 is Ok
            &&& SessionManager::others_kept(old(sessions)@, final(sessions)@, session_id)
            &&& t.status == SearchStatus::Cancelled
            &&& t.task_handle is None
            &&& t.session_id == s.session_id
            &&& t.results@ == s.results@
        },
{
    let res = if sessions.cancel_session(session_id) {
        Ok(())
    } else {
        Err(SearchErrorKind::SessionNotExists)
    };
    (session_id, res)
}

/// The answer to a ping.
pub fn ping() -> (s: String)
    ensures
        s@ == "Pong"@,
{
    String::from_str("Pong")
}

} // verus!
