//! What the status line of the status bar shows for the server and the search.
use vstd::prelude::*;
use crate::search_status::SearchStatus;
use crate::session::{SearchErrorKind, SearchStatus as ServerStatus};

verus! {

/// The status line's message; the window words it.
pub enum StatusMessage {
    Ready,
    Offline,
    Initializing,
    Searching { found_so_far: u64 },
    Results { total_count: u64 },
    Cancelled,
    SearchFailed,
    Error(SearchErrorKind),
}

/// The symbol drawn before the message.
#[derive(Debug, Clone, Copy, PartialEq, Eq, Structural)]
pub enum StatusIcon {
    Success,
    Error,
    Cancelled,
}

/// What goes before the message.
#[derive(Debug, Clone, Copy, PartialEq, Eq, Structural)]
pub enum StatusPrefix {
    /// Nothing before the message
    Plain,
    Spinner,
    Icon(StatusIcon),
}

/// The visual state of the status line.
pub struct StatusDisplay {
    pub message: StatusMessage,
    pub prefix: StatusPrefix,
}

/// What the status line shows: with no search, whether the server is online;
/// while a search runs, its last reported status (a spinner while it is in
/// progress); when it failed, its error.
pub open spec fn spec_display(server_online: bool, status: SearchStatus) -> StatusDisplay {
    match status {
        SearchStatus::Idle => StatusDisplay {
            message: if server_online { StatusMessage::Ready } else { StatusMessage::Offline },
            prefix: StatusPrefix::Plain,
        },
        SearchStatus::Working(working) => match working.status {
            None => StatusDisplay { message: StatusMessage::Initializing, prefix: StatusPrefix::Spinner },
            Some(ServerStatus::InProgress { found_so_far }) => StatusDisplay {
                message: StatusMessage::Searching { found_so_far },
                prefix: StatusPrefix::Spinner,
            },
            Some(ServerStatus::Completed { total_count }) => StatusDisplay {
                message: StatusMessage::Results { total_count },
                prefix: StatusPrefix::Icon(StatusIcon::Success),
            },
            Some(ServerStatus::Cancelled) => StatusDisplay {
                message: StatusMessage::Cancelled,
                prefix: StatusPrefix::Icon(StatusIcon::Cancelled),
            },
            Some(ServerStatus::Failed(_)) => StatusDisplay {
                message: StatusMessage::SearchFailed,
                prefix: StatusPrefix::Icon(StatusIcon::Error),
            },
        },
        SearchStatus::Failed(err) => StatusDisplay {
            message: StatusMessage::Error(err),
            prefix: StatusPrefix::Icon(StatusIcon::Error),
        },
    }
}

/// What the status line shows.
pub fn build_display(server_online: bool, search_status: &SearchStatus) -> (d: StatusDisplay)
    ensures
        d == spec_display(server_online, *search_status),
{
    match search_status {
        SearchStatus::Idle => StatusDisplay {
            message: if server_online { StatusMessage::Ready } else { StatusMessage::Offline },
            prefix: StatusPrefix::Plain,
        },
        SearchStatus::Working(working) => match &working.status {
            None => StatusDisplay { message: StatusMessage::Initializing, prefix: StatusPrefix::Spinner },
            Some(ServerStatus::InProgress { found_so_far }) => StatusDisplay {
                message: StatusMessage::Searching { found_so_far: *found_so_far },
                prefix: StatusPrefix::Spinner,
            },
            Some(ServerStatus::Completed { total_count }) => StatusDisplay {
                message: StatusMessage::Results { total_count: *total_count },
                prefix: StatusPrefix::Icon(StatusIcon::Success),
            },
            Some(ServerStatus::Cancelled) => StatusDisplay {
                message: StatusMessage::Cancelled,
                prefix: StatusPrefix::Icon(StatusIcon::Cancelled),
            },
            Some(ServerStatus::Failed(_)) => StatusDisplay {
                message: StatusMessage::SearchFailed,
                prefix: StatusPrefix::Icon(StatusIcon::Error),
            },
        },
        SearchStatus::Failed(err) => StatusDisplay {
            message: StatusMessage::Error(err.clone()),
            prefix: StatusPrefix::Icon(StatusIcon::Error),
        },
    }
}

/// The status line keeps redrawing exactly while it shows the spinner, that is
/// while a search runs and has not reported that it completed, failed or was
/// cancelled.
pub proof fn lemma_spinner_while_running(server_online: bool, status: SearchStatus)
    ensures
        (spec_display(server_online, status).prefix == StatusPrefix::Spinner) <==> (status matches SearchStatus::Working(w)
            && (w.status is None || w.status matches Some(ServerStatus::InProgress { .. }))),
{
}

} // verus!
