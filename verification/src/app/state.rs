//! The window's state, and its answers to the backend's events and to the
//! global commands.
use vstd::prelude::*;
use crate::app::scope::Scope;
use crate::app::user_command::UserCommand;
use crate::component::search_result_viewer::{SearchResultViewer, sort_after_mode_change};
use crate::protocol::{BackendEvent, Request, Response, RpcFailure, SearchRequest};
use crate::search_mode::SearchMode;
use crate::search_result_store::SearchHit;
use crate::search_status::{SearchStatus, WorkingSearchStatus};
use crate::session::{SearchErrorKind, SearchStatus as ServerStatus};
use crate::sort::SortConfig;

verus! {

/// The window's state.
pub struct State {
    pub request_search_focus: bool,
    pub search_status: SearchStatus,
    pub server_online: bool,
    /// Whether in Expand Mode
    pub expand: bool,
    pub search_mode: SearchMode,
    pub sort_config: SortConfig,
}

/// What the window does after a backend event.
pub enum BackendAction {
    Nothing,
    /// Send this request to the server
    Send(Request),
    /// Hand these results to the result list
    ShowResults(Vec<SearchHit>),
}

/// What the window does after a global command.
#[derive(Debug, Clone, Copy, PartialEq, Eq, Structural)]
pub enum GlobalAction {
    Nothing,
    CloseWindow,
    ToggleFullScreen,
}

/// Which widget has the keyboard focus.
#[derive(Debug, Clone, Copy, PartialEq, Eq, Structural)]
pub enum Focus {
    /// The search bar, and whether its completion popup is in use
    SearchBar { completion_in_use: bool },
    /// Another widget
    Other,
    /// None
    Nowhere,
}

/// The scope of the key bindings for the focus: the search bar's (its popup's,
/// when that is in use), the main view's for another widget, the global one
/// without a focus.
pub fn current_scope(focus: Focus) -> (s: Scope)
    ensures
        s == match focus {
            Focus::SearchBar { completion_in_use } => if completion_in_use {
                Scope::SearchBarCompletion
            } else {
                Scope::SearchBar
            },
            Focus::Other => Scope::Main,
            Focus::Nowhere => Scope::Global,
        },
{
    match focus {
        Focus::SearchBar { completion_in_use } => if completion_in_use {
            Scope::SearchBarCompletion
        } else {
            Scope::SearchBar
        },
        Focus::Other => Scope::Main,
        Focus::Nowhere => Scope::Global,
    }
}

/// The search status after a status report `st` of the server.
pub open spec fn status_after_report(old: SearchStatus, st: ServerStatus) -> SearchStatus {
    match st {
        ServerStatus::Failed(err) => SearchStatus::Failed(err),
        ServerStatus::Cancelled => SearchStatus::Idle,
        _ => match old {
            SearchStatus::Working(ss) => SearchStatus::Working(WorkingSearchStatus { session_id: ss.session_id, status: Some(st) }),
            _ => old,
        },
    }
}

/// The search status after a backend event.
pub open spec fn status_after_event(old: SearchStatus, event: BackendEvent) -> SearchStatus {
    match event {
        BackendEvent::RpcResponse(response) => match response {
            Response::Ping(_) => old,
            Response::StartSearch(r) => match r {
                Ok(id) => SearchStatus::Working(WorkingSearchStatus { session_id: id, status: None }),
                Err(e) => SearchStatus::Failed(e),
            },
            Response::SearchStatus((_, r)) => match r {
                Ok(st) => status_after_report(old, st),
                Err(e) => SearchStatus::Failed(e),
            },
            Response::FetchSearchResults((_, r)) => match r {
                Ok(_) => old,
                Err(e) => SearchStatus::Failed(e),
            },
            Response::CancelSearch(_) => SearchStatus::Idle,
        },
        _ => old,
    }
}

/// Whether the server counts as online after a backend event: a ping answer
/// brings it online, a shut-down client takes it offline.
pub open spec fn online_after_event(old: bool, event: BackendEvent) -> bool {
    match event {
        BackendEvent::RpcResponse(Response::Ping(_)) => true,
        BackendEvent::RpcFailure(RpcFailure::Shutdown) => false,
        _ => old,
    }
}

impl State {
    /// Take a backend event: track the server's state and the search's, and
    /// say what to do next (ping a server just connected to, show fetched
    /// results).
    pub fn handle_backend_event(&mut self, event: BackendEvent) -> (a: BackendAction)
        ensures
            final(self).search_status == status_after_event(old(self).search_status, event),
            final(self).server_online == online_after_event(old(self).server_online, event),
            final(self).request_search_focus == old(self).request_search_focus,
            final(self).expand == old(self).expand,
            final(self).search_mode == old(self).search_mode,
            final(self).sort_config == old(self).sort_config,
            event is Connected ==> a matches BackendAction::Send(Request::Ping),
            event matches BackendEvent::RpcResponse(Response::FetchSearchResults((_, Ok(res))))
                ==> (a matches BackendAction::ShowResults(hits) && hits@ == res.hits@),
            !(event is Connected) && !(event matches BackendEvent::RpcResponse(Response::FetchSearchResults((_, Ok(_)))))
                ==> a is Nothing,
    {
        match event {
            BackendEvent::Connected => BackendAction::Send(Request::Ping),
            BackendEvent::RpcFailure(failure) => {
                match failure {
                    RpcFailure::Shutdown => {
                        self.server_online = false;
                    },
                    RpcFailure::Other => {},
                }
                BackendAction::Nothing
            },
            BackendEvent::ConnectionFailed(_) => BackendAction::Nothing,
            BackendEvent::RpcResponse(response) => match response {
                Response::Ping(_) => {
                    self.server_online = true;
                    BackendAction::Nothing
                },
                Response::StartSearch(session_id) => {
                    match self.unwrap_sresult_safe(session_id) {
                        Some(session_id) => {
                            self.search_status = SearchStatus::Working(WorkingSearchStatus::new(session_id));
                        },
                        None => {},
                    }
                    BackendAction::Nothing
                },
                Response::SearchStatus((_, search_status)) => {
                    match self.unwrap_sresult_safe(search_status) {
                        Some(status) => {
                            self.take_status_report(status);
                        },
                        None => {},
                    }
                    BackendAction::Nothing
                },
                Response::FetchSearchResults((_, fetch_result)) => {
                    match self.unwrap_sresult_safe(fetch_result) {
                        Some(res) => BackendAction::ShowResults(res.hits),
                        None => BackendAction::Nothing,
                    }
                },
                Response::CancelSearch(_) => {
                    self.search_status = SearchStatus::Idle;
                    BackendAction::Nothing
                },
            },
        }
    }

    fn take_status_report(&mut self, status: ServerStatus)
        ensures
            final(self).search_status == status_after_report(old(self).search_status, status),
            final(self).server_online == old(self).server_online,
            final(self).request_search_focus == old(self).request_search_focus,
            final(self).expand == old(self).expand,
            final(self).search_mode == old(self).search_mode,
            final(self).sort_config == old(self).sort_config,
    {
        match status {
            ServerStatus::Failed(err) => {
                self.search_status = SearchStatus::Failed(err);
            },
            ServerStatus::Cancelled => {
                self.search_status = SearchStatus::Idle;
            },
            _ => {
                let id = match &self.search_status {
                    SearchStatus::Working(ss) => Some(ss.session_id),
                    _ => None,
                };
                match id {
                    Some(session_id) => {
                        self.search_status = SearchStatus::Working(WorkingSearchStatus { session_id, status: Some(status) });
                    },
                    None => {},
                }
            },
        }
    }

    /// The value of a successful answer; a failed one marks the search failed
    /// with its error.
    pub fn unwrap_sresult_safe<T>(&mut self, result: Result<T, SearchErrorKind>) -> (r: Option<T>)
        ensures
            match result {
                Ok(v) => r == Some(v) && final(self).search_status == old(self).search_status,
                Err(e) => r is None && final(self).search_status == SearchStatus::Failed(e),
            },
            final(self).server_online == old(self).server_online,
            final(self).request_search_focus == old(self).request_search_focus,
            final(self).expand == old(self).expand,
            final(self).search_mode == old(self).search_mode,
            final(self).sort_config == old(self).sort_config,
    {
        match result {
            Ok(v) => Some(v),
            Err(err) => {
                self.search_status = SearchStatus::Failed(err);
                None
            },
        }
    }

    /// Sort the results by another configuration.
    pub fn change_sort_config(&mut self, viewer: &mut SearchResultViewer, config: SortConfig)
        requires
            old(viewer).wf(),
        ensures
            final(viewer).wf(),
            final(viewer)@ == (crate::component::search_result_viewer::SearchResultViewerView {
                sort_config: config,
                ..old(viewer)@
            }),
            final(self).sort_config == config,
            final(self).search_mode == old(self).search_mode,
            final(self).search_status == old(self).search_status,
            final(self).server_online == old(self).server_online,
            final(self).request_search_focus == old(self).request_search_focus,
            final(self).expand == old(self).expand,
    {
        viewer.set_sort_config(config);
        self.sort_config = config;
    }

    /// Switch the search mode, in the result list too, and give the focus back
    /// to the search bar.
    pub fn change_search_mode(&mut self, viewer: &mut SearchResultViewer, mode: SearchMode)
        requires
            old(viewer).wf(),
        ensures
            final(viewer).wf(),
            final(viewer)@ == (crate::component::search_result_viewer::SearchResultViewerView {
                search_mode: mode,
                sort_config: sort_after_mode_change(mode, old(viewer)@.sort_config),
                ..old(viewer)@
            }),
            final(self).search_mode == mode,
            final(self).request_search_focus,
            final(self).sort_config == old(self).sort_config,
            final(self).search_status == old(self).search_status,
            final(self).server_online == old(self).server_online,
            final(self).expand == old(self).expand,
    {
        viewer.set_search_mode(mode);
        self.search_mode = mode;
        self.request_search_focus = true;
    }

    /// Take a command of the global scope: quit, toggle full screen, or switch
    /// to the next search mode; the others do nothing here.
    pub fn handle_user_command(&mut self, viewer: &mut SearchResultViewer, cmd: UserCommand) -> (a: GlobalAction)
        requires
            old(viewer).wf(),
        ensures
            final(viewer).wf(),
            cmd == UserCommand::QuitApplication ==> a == GlobalAction::CloseWindow,
            cmd == UserCommand::ToggleFullScreen ==> a == GlobalAction::ToggleFullScreen,
            cmd != UserCommand::QuitApplication && cmd != UserCommand::ToggleFullScreen ==> a == GlobalAction::Nothing,
            cmd == UserCommand::ToggleSearchMode ==> {
                let mode = old(self).search_mode.spec_next();
                &&& final(self).search_mode == mode
                &&& final(self).request_search_focus
                &&& final(viewer)@ == (crate::component::search_result_viewer::SearchResultViewerView {
                    search_mode: mode,
                    sort_config: sort_after_mode_change(mode, old(viewer)@.sort_config),
                    ..old(viewer)@
                })
            },
            cmd != UserCommand::ToggleSearchMode ==> {
                &&& final(self).search_mode == old(self).search_mode
                &&& final(self).request_search_focus == old(self).request_search_focus
                &&& final(viewer)@ == old(viewer)@
            },
            final(self).sort_config == old(self).sort_config,
            final(self).search_status == old(self).search_status,
            final(self).server_online == old(self).server_online,
            final(self).expand == old(self).expand,
    {
        match cmd {
            UserCommand::QuitApplication => GlobalAction::CloseWindow,
            UserCommand::ToggleFullScreen => GlobalAction::ToggleFullScreen,
            UserCommand::ToggleSearchMode => {
                let mode = self.search_mode.next();
                self.change_search_mode(viewer, mode);
                GlobalAction::Nothing
            },
            _ => GlobalAction::Nothing,
        }
    }

    /// The request that a search bar's request to search becomes: none while
    /// the server is offline.
    pub fn search_request(&self, query: String) -> (r: Option<Request>)
        ensures
            !self.server_online ==> r is None,
            self.server_online ==> (r matches Some(Request::StartSearch(req))
                && req.query == query && req.search_mode == self.search_mode),
    {
        if !self.server_online {
            return None;
        }
        Some(Request::StartSearch(SearchRequest { query, search_mode: self.search_mode }))
    }
}

impl Default for State {
    fn default() -> (s: Self)
        ensures
            !s.request_search_focus,
            s.search_status is Idle,
            !s.server_online,
            !s.expand,
            s.search_mode == SearchMode::Natural,
            s.sort_config == SortConfig::spec_default(),
    {
        State {
            request_search_focus: false,
            search_status: SearchStatus::default(),
            server_online: false,
            expand: false,
            search_mode: SearchMode::default(),
            sort_config: SortConfig::default(),
        }
    }
}

} // verus!
