//! The application's scopes, commands and sort modes.
pub mod scope;
pub mod user_command;
pub mod state;
pub mod key;

use vstd::prelude::*;

verus! {

/// The sort modes of the first version of the application.
#[derive(Debug, Clone, Copy, PartialEq, Eq, Structural)]
pub enum SortMode {
    Alphabetical,
    ReverseAlphabetical,
    AccessedTime,
    CreatedTime,
    ModifiedTime,
    Extension,
    /// Sort by AI relevance score
    Relevance,
}

impl Default for SortMode {
    fn default() -> (m: Self)
        ensures
            m == SortMode::Alphabetical,
    {
        SortMode::Alphabetical
    }
}

/// What the window can do on this platform.
pub struct Ability {
    /// Whether the window can be moved to the center of the screen
    pub recenter: bool,
}

impl Default for Ability {
    fn default() -> (a: Self)
        ensures
            !a.recenter,
    {
        Ability { recenter: false }
    }
}

} // verus!
