//! The two ways a query is read: as natural language, or as rules.
use vstd::prelude::*;

verus! {

/// How the server reads a query.
#[derive(Debug, Clone, Copy, PartialEq, Eq, Structural)]
pub enum SearchMode {
    /// Semantic search on the meaning of the query
    Natural,
    /// Search by the query language's rules (fields, operators, groups)
    Rule,
}

impl Default for SearchMode {
    fn default() -> (m: Self)
        ensures
            m == SearchMode::Natural,
    {
        SearchMode::Natural
    }
}

impl SearchMode {
    /// The modes in the order the mode button cycles through them.
    pub open spec fn spec_all() -> Seq<SearchMode> {
        seq![SearchMode::Natural, SearchMode::Rule]
    }

    /// The mode after `self` in the cycle.
    pub open spec fn spec_next(self) -> SearchMode {
        match self {
            SearchMode::Natural => SearchMode::Rule,
            SearchMode::Rule => SearchMode::Natural,
        }
    }

    /// The modes in the order the mode button cycles through them.
    pub fn all() -> (v: Vec<SearchMode>)
        ensures
            v@ == Self::spec_all(),
    {
        let v = vec![SearchMode::Natural, SearchMode::Rule];
        assert(v@ =~= Self::spec_all());
        v
    }

    /// The mode that follows `self` when the user toggles the mode: the next
    /// one in `all()`, wrapping around at the end.
    pub fn next(self) -> (m: SearchMode)
        ensures
            m == self.spec_next(),
    {
        match self {
            SearchMode::Natural => SearchMode::Rule,
            SearchMode::Rule => SearchMode::Natural,
        }
    }
}

/// Toggling the mode twice gives the mode back, and toggling always changes it.
pub proof fn lemma_next_cycles(m: SearchMode)
    ensures
        m.spec_next().spec_next() == m,
        m.spec_next() != m,
{
}

/// The next mode is the one after `m` in the list of all modes, wrapping around
/// at the end.
pub proof fn lemma_next_follows_all(i: int)
    requires
        0 <= i < SearchMode::spec_all().len(),
    ensures
        SearchMode::spec_all()[i].spec_next()
            == SearchMode::spec_all()[(i + 1) % (SearchMode::spec_all().len() as int)],
{
    let all = SearchMode::spec_all();
    assert(all.len() == 2);
    if i == 0 {
        assert((i + 1) % 2 == 1);
    } else {
        assert((i + 1) % 2 == 0);
    }
}

} // verus!
