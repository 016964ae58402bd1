//! Key binding scopes.
use vstd::prelude::*;

verus! {

/// Where a key binding applies.
#[derive(Debug, Clone, Copy, PartialEq, Eq, Hash, Structural)]
pub enum Scope {
    Global,
    Main,
    SearchBar,
    SearchBarCompletion,
}

impl Default for Scope {
    fn default() -> (s: Self)
        ensures
            s == Scope::Global,
    {
        Scope::Global
    }
}

impl Scope {
    /// The scopes from `self` out to `Global`, the order in which a key event bubbles.
    pub open spec fn spec_hierarchy(self) -> Seq<Scope> {
        match self {
            Scope::SearchBarCompletion => seq![Scope::SearchBarCompletion, Scope::SearchBar, Scope::Main, Scope::Global],
            Scope::SearchBar => seq![Scope::SearchBar, Scope::Main, Scope::Global],
            Scope::Main => seq![Scope::Main, Scope::Global],
            Scope::Global => seq![Scope::Global],
        }
    }

    /// Returns scopes from most specific (self) to least specific (Global)
    /// This defines the "bubbling" order for key events
    pub fn hierarchy(&self) -> (v: Vec<Scope>)
        ensures
            v@ == self.spec_hierarchy(),
    {
        let v = match self {
            Scope::SearchBarCompletion => vec![
                Scope::SearchBarCompletion,
                Scope::SearchBar,
                Scope::Main,
                Scope::Global,
            ],
            Scope::SearchBar => vec![Scope::SearchBar, Scope::Main, Scope::Global],
            Scope::Main => vec![Scope::Main, Scope::Global],
            Scope::Global => vec![Scope::Global],
        };
        assert(v@ =~= self.spec_hierarchy());
        v
    }
}

/// Every hierarchy starts at its own scope, ends at `Global`, and holds each scope once.
pub proof fn lemma_hierarchy_shape(s: Scope)
    ensures
        s.spec_hierarchy().len() > 0,
        s.spec_hierarchy()[0] == s,
        s.spec_hierarchy().last() == Scope::Global,
        s.spec_hierarchy().no_duplicates(),
{
}

/// A scope's hierarchy is the scope followed by the hierarchy of its parent.
pub proof fn lemma_hierarchy_nested(s: Scope)
    requires
        s != Scope::Global,
    ensures
        s.spec_hierarchy().drop_first() == s.spec_hierarchy()[1].spec_hierarchy(),
{
    assert(s.spec_hierarchy().drop_first() =~= s.spec_hierarchy()[1].spec_hierarchy());
}

} // verus!
