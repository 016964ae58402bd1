use unnamed::app::scope::Scope;
use unnamed::app::state::{current_scope, BackendAction, Focus, GlobalAction, State};
use unnamed::backend::{fetch_outcome, polled_status, FetchOutcome, PolledStatus};
use unnamed::app::user_command::UserCommand;
use unnamed::component::search_result_viewer::SearchResultViewer;
use unnamed::component::status_widget::{build_display, StatusIcon, StatusMessage, StatusPrefix};
use unnamed::protocol::{BackendEvent, Request, Response, RpcFailure};
use unnamed::search_mode::SearchMode;
use unnamed::search_result_store::SearchHit;
use unnamed::search_status::{SearchStatus, WorkingSearchStatus};
use unnamed::session::{FetchResults, SearchErrorKind, SearchStatus as ServerStatus, ValidationErrorKind};
use unnamed::sort::{SortConfig, SortDirection, SortMode};

fn hit(path: &str) -> SearchHit {
    SearchHit {
        file_path: path.to_string(),
        score: None,
        preview: String::new(),
        file_size: 0,
        access_time: 0,
        modified_time: 0,
        create_time: 0,
    }
}

#[test]
fn connecting_pings_and_a_pong_brings_the_server_online() {
    let mut s = State::default();
    assert!(matches!(s.handle_backend_event(BackendEvent::Connected), BackendAction::Send(Request::Ping)));
    assert!(!s.server_online);
    assert!(matches!(s.handle_backend_event(BackendEvent::RpcResponse(Response::Ping("Pong".to_string()))), BackendAction::Nothing));
    assert!(s.server_online);
    s.handle_backend_event(BackendEvent::RpcFailure(RpcFailure::Other));
    assert!(s.server_online);
    s.handle_backend_event(BackendEvent::RpcFailure(RpcFailure::Shutdown));
    assert!(!s.server_online);
}

#[test]
fn a_search_runs_reports_and_ends() {
    let mut s = State::default();
    s.handle_backend_event(BackendEvent::RpcResponse(Response::StartSearch(Ok(7))));
    assert!(matches!(s.search_status, SearchStatus::Working(WorkingSearchStatus { session_id: 7, status: None })));
    s.handle_backend_event(BackendEvent::RpcResponse(Response::SearchStatus((7, Ok(ServerStatus::InProgress { found_so_far: 3 })))));
    assert!(matches!(
        s.search_status,
        SearchStatus::Working(WorkingSearchStatus { session_id: 7, status: Some(ServerStatus::InProgress { found_so_far: 3 }) })
    ));
    let a = s.handle_backend_event(BackendEvent::RpcResponse(Response::FetchSearchResults((
        7,
        Ok(FetchResults { session_id: 7, offset: 0, hits: vec![hit("/a"), hit("/b")], has_more: true }),
    ))));
    match a {
        BackendAction::ShowResults(hits) => assert_eq!(hits.len(), 2),
        _ => panic!("expected results"),
    }
    s.handle_backend_event(BackendEvent::RpcResponse(Response::SearchStatus((7, Ok(ServerStatus::Cancelled)))));
    assert!(matches!(s.search_status, SearchStatus::Idle));
}

#[test]
fn errors_mark_the_search_failed() {
    let mut s = State::default();
    s.handle_backend_event(BackendEvent::RpcResponse(Response::StartSearch(Err(SearchErrorKind::InvalidQuery(ValidationErrorKind::EmptyValue)))));
    assert!(matches!(&s.search_status, SearchStatus::Failed(SearchErrorKind::InvalidQuery(ValidationErrorKind::EmptyValue))));
    // a status report without a running search changes nothing
    s.handle_backend_event(BackendEvent::RpcResponse(Response::SearchStatus((1, Ok(ServerStatus::Completed { total_count: 1 })))));
    assert!(matches!(s.search_status, SearchStatus::Failed(_)));
    s.handle_backend_event(BackendEvent::RpcResponse(Response::CancelSearch((1, Ok(())))));
    assert!(matches!(s.search_status, SearchStatus::Idle));
    assert!(s.unwrap_sresult_safe::<u8>(Err(SearchErrorKind::SessionNotExists)).is_none());
    assert!(matches!(s.search_status, SearchStatus::Failed(SearchErrorKind::SessionNotExists)));
    assert_eq!(s.unwrap_sresult_safe::<u8>(Ok(4)), Some(4));
}

#[test]
fn global_commands() {
    let mut s = State::default();
    let mut v = SearchResultViewer::default();
    assert_eq!(s.handle_user_command(&mut v, UserCommand::QuitApplication), GlobalAction::CloseWindow);
    assert_eq!(s.handle_user_command(&mut v, UserCommand::ToggleFullScreen), GlobalAction::ToggleFullScreen);
    assert_eq!(s.handle_user_command(&mut v, UserCommand::ToggleSearchMode), GlobalAction::Nothing);
    assert_eq!(s.search_mode, SearchMode::Rule);
    assert!(s.request_search_focus);
    assert_eq!(v.search_mode(), SearchMode::Rule);
    s.handle_user_command(&mut v, UserCommand::ToggleSearchMode);
    assert_eq!(s.search_mode, SearchMode::Natural);
    assert_eq!(s.handle_user_command(&mut v, UserCommand::NextItem), GlobalAction::Nothing);
    s.change_sort_config(&mut v, SortConfig::new(SortMode::FilePath, SortDirection::Ascending));
    assert_eq!(s.sort_config.mode, SortMode::FilePath);
}

#[test]
fn searches_go_out_only_while_online() {
    let mut s = State::default();
    assert!(s.search_request("q".to_string()).is_none());
    s.server_online = true;
    match s.search_request("q".to_string()) {
        Some(Request::StartSearch(req)) => {
            assert_eq!(req.query, "q");
            assert_eq!(req.search_mode, SearchMode::Natural);
        }
        _ => panic!("expected a search request"),
    }
}

#[test]
fn status_line() {
    let d = build_display(true, &SearchStatus::Idle);
    assert!(matches!(d.message, StatusMessage::Ready));
    assert_eq!(d.prefix, StatusPrefix::Plain);
    assert!(matches!(build_display(false, &SearchStatus::Idle).message, StatusMessage::Offline));
    let w = SearchStatus::Working(WorkingSearchStatus { session_id: 1, status: Some(ServerStatus::InProgress { found_so_far: 4 }) });
    let d = build_display(true, &w);
    assert!(matches!(d.message, StatusMessage::Searching { found_so_far: 4 }));
    assert_eq!(d.prefix, StatusPrefix::Spinner);
    let w = SearchStatus::Working(WorkingSearchStatus { session_id: 1, status: Some(ServerStatus::Completed { total_count: 9 }) });
    let d = build_display(true, &w);
    assert!(matches!(d.message, StatusMessage::Results { total_count: 9 }));
    assert_eq!(d.prefix, StatusPrefix::Icon(StatusIcon::Success));
    let d = build_display(true, &SearchStatus::Working(WorkingSearchStatus::new(2)));
    assert!(matches!(d.message, StatusMessage::Initializing));
    let d = build_display(true, &SearchStatus::Failed(SearchErrorKind::SessionNotExists));
    assert!(matches!(d.message, StatusMessage::Error(SearchErrorKind::SessionNotExists)));
    assert_eq!(d.prefix, StatusPrefix::Icon(StatusIcon::Error));
}

#[test]
fn focus_decides_the_scope() {
    assert_eq!(current_scope(Focus::SearchBar { completion_in_use: true }), Scope::SearchBarCompletion);
    assert_eq!(current_scope(Focus::SearchBar { completion_in_use: false }), Scope::SearchBar);
    assert_eq!(current_scope(Focus::Other), Scope::Main);
    assert_eq!(current_scope(Focus::Nowhere), Scope::Global);
}

#[test]
fn poll_answers_classified() {
    assert_eq!(polled_status(&Ok(ServerStatus::InProgress { found_so_far: 1 })), PolledStatus::InProgress);
    assert_eq!(polled_status(&Ok(ServerStatus::Completed { total_count: 1 })), PolledStatus::Completed);
    assert_eq!(polled_status(&Ok(ServerStatus::Cancelled)), PolledStatus::Ended);
    assert_eq!(polled_status(&Err(SearchErrorKind::SessionNotExists)), PolledStatus::Ended);
    let page = FetchResults { session_id: 1, offset: 0, hits: vec![hit("/a")], has_more: false };
    assert_eq!(fetch_outcome(&Ok(page)), FetchOutcome::Fetched { count: 1, has_more: false });
    assert_eq!(fetch_outcome(&Err(SearchErrorKind::SessionNotExists)), FetchOutcome::SearchError);
}
