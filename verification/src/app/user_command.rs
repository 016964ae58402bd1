//! Commands a key binding can trigger.
use vstd::prelude::*;

verus! {

/// A command a key binding triggers.
#[derive(Debug, Clone, Copy, PartialEq, Eq, Structural)]
pub enum UserCommand {
    QuitApplication,
    ToggleFullScreen,
    ToggleSearchMode,

    NextItem,
    PrevItem,

    CancelCompletion,
    ApplyCompletion,

    StartSearch,

    /// Do nothing. Can be used to clear a default binding.
    NoOp,
}

} // verus!
