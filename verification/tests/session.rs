use unnamed::protocol::{FetchSearchResultsRequest, SearchRequest};
use unnamed::search_mode::SearchMode;
use unnamed::search_result_store::SearchHit;
use unnamed::server::{
    cancel_search, error_kind, fetch_search_results, finish_search, ping, search_status, start_search,
    QuerySearchError,
};
use unnamed::session::{SearchErrorKind, SearchStatus, SessionManager, ValidationErrorKind};

fn score_key(score: f32) -> u32 {
    score.to_bits()
}

fn create_mock_hit(path: &str, score: f32) -> SearchHit {
    SearchHit {
        file_path: path.to_string(),
        score: Some(score_key(score)),
        preview: "test snippet".to_string(),
        file_size: 1024,
        access_time: 0,
        modified_time: 0,
        create_time: 0,
    }
}

#[test]
fn test_async_session() {
    let mut manager = SessionManager::new(300);

    let session_id = manager.create_async_session();

    // initial state
    let result = manager.fetch_results(session_id, 0, 10).unwrap();
    assert_eq!(result.hits.len(), 0);
    assert!(result.has_more); // still running

    // append results
    manager.append_results(session_id, vec![
        create_mock_hit("/path/1.txt", 0.9),
        create_mock_hit("/path/2.txt", 0.8),
    ]);

    // fetch what is there
    let result = manager.fetch_results(session_id, 0, 10).unwrap();
    assert_eq!(result.hits.len(), 2);
    assert!(result.has_more); // still running

    // mark complete
    manager.mark_completed(session_id);

    let result = manager.fetch_results(session_id, 0, 10).unwrap();
    assert_eq!(result.hits.len(), 2);
    assert!(!result.has_more); // done
}

#[test]
fn test_offset_pagination() {
    let mut manager = SessionManager::new(300);

    let session_id = manager.create_async_session();

    // append 25 results
    let hits: Vec<SearchHit> = (0..25)
        .map(|i| create_mock_hit(&format!("/path/{}.txt", i), 1.0 - i as f32 * 0.01))
        .collect();
    manager.append_results(session_id, hits);
    manager.mark_completed(session_id);

    // first page (0-9)
    let result = manager.fetch_results(session_id, 0, 10).unwrap();
    assert_eq!(result.hits.len(), 10);
    assert_eq!(result.offset, 0);
    assert!(result.has_more);

    // second page (10-19)
    let result = manager.fetch_results(session_id, 10, 10).unwrap();
    assert_eq!(result.hits.len(), 10);
    assert_eq!(result.offset, 10);
    assert!(result.has_more);

    // third page (20-24)
    let result = manager.fetch_results(session_id, 20, 10).unwrap();
    assert_eq!(result.hits.len(), 5);
    assert_eq!(result.offset, 20);
    assert!(!result.has_more); // no more
}

#[test]
fn test_session_cancel() {
    let mut manager = SessionManager::new(300);

    let session_id = manager.create_async_session();
    manager.append_results(session_id, vec![create_mock_hit("/path/1.txt", 0.9)]);

    assert!(manager.cancel_session(session_id));

    let status = manager.get_status(session_id).unwrap();
    assert!(matches!(status, SearchStatus::Cancelled));
}

#[test]
fn pages_read_in_order_cover_all_results() {
    let mut manager = SessionManager::new(300);
    let id = manager.create_async_session();
    let hits: Vec<SearchHit> = (0..7).map(|i| create_mock_hit(&format!("/p/{}", i), 0.5)).collect();
    manager.append_results(id, hits);
    manager.mark_completed(id);
    let mut read: Vec<String> = Vec::new();
    let mut offset = 0;
    loop {
        let page = manager.fetch_results(id, offset, 3).unwrap();
        offset += page.hits.len();
        read.extend(page.hits.into_iter().map(|h| h.file_path));
        if !page.has_more {
            break;
        }
    }
    let expected: Vec<String> = (0..7).map(|i| format!("/p/{}", i)).collect();
    assert_eq!(read, expected);
}

#[test]
fn appended_results_are_the_next_page() {
    let mut manager = SessionManager::new(300);
    let id = manager.create_async_session();
    manager.append_results(id, vec![create_mock_hit("/a", 0.1), create_mock_hit("/b", 0.2)]);
    manager.append_results(id, vec![create_mock_hit("/c", 0.3)]);
    let page = manager.fetch_results(id, 2, 1).unwrap();
    assert_eq!(page.hits.len(), 1);
    assert_eq!(page.hits[0].file_path, "/c");
    match manager.get_status(id).unwrap() {
        SearchStatus::InProgress { found_so_far } => assert_eq!(found_so_far, 3),
        _ => panic!("expected a running search"),
    }
}

#[test]
fn unknown_session_is_reported() {
    let mut manager = SessionManager::new(300);
    assert!(manager.fetch_results(42, 0, 10).is_none());
    assert!(manager.get_status(42).is_none());
    assert!(!manager.cancel_session(42));
    assert!(!manager.session_exists(42));
    let (id, r) = search_status(&mut manager, 42);
    assert_eq!(id, 42);
    assert!(matches!(r, Err(SearchErrorKind::SessionNotExists)));
    let (_, r) = fetch_search_results(&mut manager, FetchSearchResultsRequest { session_id: 42, offset: 0, limit: 5 });
    assert!(matches!(r, Err(SearchErrorKind::SessionNotExists)));
    let (_, r) = cancel_search(&mut manager, 42);
    assert!(matches!(r, Err(SearchErrorKind::SessionNotExists)));
}

#[test]
fn created_sessions_get_distinct_ids() {
    let mut manager = SessionManager::new(300);
    let a = manager.create_async_session();
    let b = manager.create_async_session();
    assert_ne!(a, b);
    assert!(manager.session_exists(a));
    assert!(manager.session_exists(b));
    assert_eq!(manager.active_sessions_count(), 2);
    assert!(manager.remove_session(a));
    assert!(!manager.session_exists(a));
    assert_eq!(manager.active_sessions_count(), 1);
}

#[test]
fn expired_sessions_are_dropped() {
    let mut manager = SessionManager::new(0);
    let _ = manager.create_async_session();
    assert_eq!(manager.active_sessions_count(), 0);
}

#[test]
fn empty_query_is_refused() {
    let mut manager = SessionManager::new(300);
    let r = start_search(&mut manager, &SearchRequest { query: String::new(), search_mode: SearchMode::Rule });
    assert!(matches!(r, Err(SearchErrorKind::InvalidQuery(ValidationErrorKind::EmptyValue))));
    assert_eq!(manager.active_sessions_count(), 0);
}

#[test]
fn search_lifecycle_through_the_server() {
    let mut manager = SessionManager::new(300);
    let id = start_search(&mut manager, &SearchRequest { query: "ext:rs".to_string(), search_mode: SearchMode::Rule }).unwrap();
    let (_, st) = search_status(&mut manager, id);
    assert!(matches!(st, Ok(SearchStatus::InProgress { found_so_far: 0 })));
    finish_search(&mut manager, id, Ok(vec![create_mock_hit("/x", 0.7), create_mock_hit("/y", 0.6)]));
    let (_, st) = search_status(&mut manager, id);
    assert!(matches!(st, Ok(SearchStatus::Completed { total_count: 2 })));
    let (rid, page) = fetch_search_results(&mut manager, FetchSearchResultsRequest { session_id: id, offset: 1, limit: 10 });
    assert_eq!(rid, id);
    let page = page.unwrap();
    assert_eq!(page.hits.len(), 1);
    assert_eq!(page.hits[0].file_path, "/y");
    assert!(!page.has_more);
    let (_, c) = cancel_search(&mut manager, id);
    assert!(c.is_ok());
    let (_, st) = search_status(&mut manager, id);
    assert!(matches!(st, Ok(SearchStatus::Cancelled)));
}

#[test]
fn failed_search_reports_its_error() {
    let mut manager = SessionManager::new(300);
    let id = manager.create_async_session();
    finish_search(&mut manager, id, Err(QuerySearchError::ParseError("bad".to_string())));
    match manager.get_status(id).unwrap() {
        SearchStatus::Failed(SearchErrorKind::InvalidQuery(ValidationErrorKind::InvalidRange { reason })) => assert_eq!(reason, "bad"),
        _ => panic!("expected an invalid query"),
    }
    let id2 = manager.create_async_session();
    finish_search(&mut manager, id2, Err(QuerySearchError::ExecutionError("io".to_string())));
    assert!(matches!(
        manager.get_status(id2).unwrap(),
        SearchStatus::Failed(SearchErrorKind::OperateOnAlreadyFailedSearch)
    ));
    let page = manager.fetch_results(id2, 0, 10).unwrap();
    assert!(!page.has_more);
}

#[test]
fn engine_errors_map_to_client_errors() {
    assert!(matches!(
        error_kind(QuerySearchError::ValidationError("v".to_string())),
        SearchErrorKind::InvalidQuery(ValidationErrorKind::InvalidRange { reason }) if reason == "v"
    ));
    assert!(matches!(
        error_kind(QuerySearchError::ExecutionError("e".to_string())),
        SearchErrorKind::OperateOnAlreadyFailedSearch
    ));
}

#[test]
fn ping_answers_pong() {
    assert_eq!(ping(), "Pong");
}
