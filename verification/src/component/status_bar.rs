//! The status bar's decisions: the sort mode menu and the search mode button.
use vstd::prelude::*;
use crate::search_mode::SearchMode;
use crate::sort::{SortConfig, SortMode};

verus! {

/// Events emitted by the status bar
pub enum StatusBarEvent {
    ChangeSortConfig(SortConfig),
    ChangeSearchMode(SearchMode),
}

/// The event after a sort mode was picked in the menu: a mode other than the
/// current one becomes the sort mode, in the current direction; the current
/// one changes nothing.
pub fn sort_mode_picked(config: &SortConfig, selected: SortMode) -> (e: Option<StatusBarEvent>)
    ensures
        selected == config.mode ==> e is None,
        selected != config.mode ==> (e matches Some(StatusBarEvent::ChangeSortConfig(c))
            && c.mode == selected && c.direction == config.direction),
{
    if selected != config.mode {
        Some(StatusBarEvent::ChangeSortConfig(SortConfig { mode: selected, direction: config.direction }))
    } else {
        None
    }
}

/// The event after a click on the search mode button: the next mode.
pub fn search_mode_clicked(current: SearchMode) -> (e: StatusBarEvent)
    ensures
        e matches StatusBarEvent::ChangeSearchMode(m) && m == current.spec_next(),
{
    StatusBarEvent::ChangeSearchMode(current.next())
}

/// The number of columns of the sort mode menu, when a column holds `rows`
/// entries (at least one): enough columns for every mode.
pub fn menu_columns(rows: usize) -> (c: usize)
    ensures
        ({
            let n = SortMode::spec_all().len() as int;
            let r = if rows > 0 { rows as int } else { 1 };
            c == n / r + (if n % r == 0 { 0int } else { 1int })
        }),
{
    let n = SortMode::all().len();
    let r = if rows > 0 { rows } else { 1 };
    n / r + if n % r == 0 { 0 } else { 1 }
}

} // verus!
