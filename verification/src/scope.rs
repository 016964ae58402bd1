//! The key binding scopes and commands of the first version of the application.
use vstd::prelude::*;

verus! {

/// Where a key binding applies.
#[derive(Debug, Clone, Copy, PartialEq, Eq, Hash, Structural)]
pub enum Scope {
    Global,
    Main,
    /// Main -> SearchBar
    SearchbarMain,
}

/// A command a key binding triggers.
#[derive(Debug, Clone, Copy, PartialEq, Eq, Structural)]
pub enum UserCommand {
    QuitApplication,
    NextItem,
    PrevItem,
}

} // verus!
