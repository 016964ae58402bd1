//! The parts of the window that hold state of their own: the search bar and the
//! result list.
pub mod search_bar;
pub mod search_result_viewer;
pub mod status_widget;
pub mod status_bar;
