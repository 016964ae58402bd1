//! Search results are stored in arrival order (pushing is O(1) per result) and
//! shown in the order of a sort configuration. Changing the configuration marks
//! the order stale; it is rebuilt, once, when the results are next read.
pub mod order;
pub mod sorting;

use vstd::prelude::*;
use crate::sort::{SortConfig, SortDirection, SortMode};
use order::{components_of, key_views, lower_ascii, lowered_name, path_components, HitKey, HitKeyView, PathComponent};
use sorting::{is_sorted_order, sorted_order};

verus! {

/// One search result.
#[derive(Debug)]
pub struct SearchHit {
    pub file_path: String,
    /// An order key of the relevance score: a higher score has a larger key
    pub score: Option<u32>,
    pub preview: String,
    pub file_size: u64,
    pub access_time: u64,
    pub modified_time: u64,
    pub create_time: u64,
}

/// What the order reads of a hit.
pub open spec fn key_of(h: SearchHit) -> HitKeyView {
    HitKeyView {
        components: path_components(h.file_path@),
        score: h.score,
        access_time: h.access_time,
        modified_time: h.modified_time,
        create_time: h.create_time,
    }
}

/// What the order reads of each of the hits.
pub open spec fn keys_of(hits: Seq<SearchHit>) -> Seq<HitKeyView> {
    hits.map_values(|h: SearchHit| key_of(h))
}

/// The order key of a hit, computed once.
fn key_for(hit: &SearchHit) -> (k: HitKey)
    ensures
        k.wf(),
        k@ == key_of(*hit),
{
    let components = components_of(hit.file_path.as_str());
    let ghost cv = components@.map_values(|c: PathComponent| c@);
    let n = components.len();
    let name = if n > 0 {
        match &components[n - 1] {
            PathComponent::Normal(s) => Some(lower_ascii(s)),
            _ => None,
        }
    } else {
        None
    };
    proof {
        if n > 0 {
            assert(cv.last() == components@[n - 1]@);
        }
    }
    HitKey {
        name,
        components,
        score: hit.score,
        access_time: hit.access_time,
        modified_time: hit.modified_time,
        create_time: hit.create_time,
    }
}

/// The results and the sort configuration, as a user of the store sees them.
pub struct SearchResultStoreView {
    pub results: Seq<SearchHit>,
    pub sort_config: SortConfig,
}

/// Search results in arrival order, with their order under a sort configuration.
pub struct SearchResultStore {
    /// All results in arrival order (append-only)
    results: Vec<SearchHit>,
    /// The order key of each result
    keys: Vec<HitKey>,
    sorted_indices: Vec<usize>,
    sort_config: SortConfig,
    /// Whether sorted_indices needs rebuilding
    dirty: bool,
}

impl View for SearchResultStore {
    type V = SearchResultStoreView;

    closed spec fn view(&self) -> SearchResultStoreView {
        SearchResultStoreView { results: self.results@, sort_config: self.sort_config }
    }
}

impl SearchResultStore {
    /// The keys match the results, and a clean order is the sorted order.
    pub closed spec fn wf(&self) -> bool {
        &&& self.keys@.len() == self.results@.len()
        &&& forall|i: int| 0 <= i < self.keys@.len() ==> (#[trigger] self.keys@[i]).wf()
        &&& key_views(self.keys@) == keys_of(self.results@)
        &&& !self.dirty ==> is_sorted_order(keys_of(self.results@), self.sort_config, self.sorted_indices@)
    }

    /// The order last built; it is the sorted order after any call that reads
    /// the results in order.
    pub closed spec fn shown_order(&self) -> Seq<usize> {
        self.sorted_indices@
    }

    /// An empty store with the given sort configuration.
    pub fn with_sort_config(sort_config: SortConfig) -> (s: Self)
        ensures
            s.wf(),
            s@.results.len() == 0,
            s@.sort_config == sort_config,
    {
        let s = Self {
            results: Vec::new(),
            keys: Vec::new(),
            sorted_indices: Vec::new(),
            sort_config,
            dirty: false,
        };
        proof {
            assert(key_views(s.keys@) =~= keys_of(s.results@));
        }
        s
    }

    /// Append results in arrival order.
    pub fn extend(&mut self, hits: Vec<SearchHit>)
        requires
            old(self).wf(),
        ensures
            final(self).wf(),
            final(self)@.results == old(self)@.results + hits@,
            final(self)@.sort_config == old(self)@.sort_config,
    {
        let ghost old_results = self.results@;
        let ghost added = hits@;
        let mut hits = hits;
        let mut new_keys: Vec<HitKey> = Vec::new();
        let mut i: usize = 0;
        while i < hits.len()
            invariant
                0 <= i <= hits@.len(),
                hits@ == added,
                new_keys@.len() == i,
                forall|j: int| 0 <= j < i ==> (#[trigger] new_keys@[j]).wf(),
                key_views(new_keys@) == keys_of(hits@.take(i as int)),
            decreases hits@.len() - i,
        {
            let k = key_for(&hits[i]);
            let ghost prev = new_keys@;
            new_keys.push(k);
            proof {
                assert forall|j: int| 0 <= j < i + 1 implies key_views(new_keys@)[j] == keys_of(hits@.take(i + 1))[j] by {
                    if j < i {
                        assert(key_views(prev)[j] == keys_of(hits@.take(i as int))[j]);
                        assert(new_keys@[j] == prev[j]);
                    }
                }
                assert(key_views(new_keys@) =~= keys_of(hits@.take(i + 1)));
            }
            i = i + 1;
        }
        proof {
            assert(hits@.take(hits@.len() as int) =~= hits@);
        }
        let ghost old_keys = self.keys@;
        let ghost nk = new_keys@;
        self.results.append(&mut hits);
        self.keys.append(&mut new_keys);
        self.dirty = true;
        proof {
            let ol = old_keys.len() as int;
            assert forall|j: int| 0 <= j < self.keys@.len() implies key_views(self.keys@)[j] == keys_of(self.results@)[j] by {
                if j < ol {
                    assert(key_views(old_keys)[j] == keys_of(old_results)[j]);
                    assert(self.keys@[j] == old_keys[j]);
                    assert(self.results@[j] == old_results[j]);
                } else {
                    assert(key_views(nk)[j - ol] == keys_of(added)[j - ol]);
                    assert(self.keys@[j] == nk[j - ol]);
                    assert(self.results@[j] == added[j - ol]);
                }
            }
            assert(key_views(self.keys@) =~= keys_of(self.results@));
        }
    }

    /// Drop all results.
    pub fn clear(&mut self)
        requires
            old(self).wf(),
        ensures
            final(self).wf(),
            final(self)@.results.len() == 0,
            final(self)@.sort_config == old(self)@.sort_config,
    {
        self.results.clear();
        self.keys.clear();
        self.sorted_indices.clear();
        self.dirty = false;
        proof {
            assert(key_views(self.keys@) =~= keys_of(self.results@));
        }
    }

    pub fn sort_config(&self) -> (c: &SortConfig)
        ensures
            *c == self@.sort_config,
    {
        &self.sort_config
    }

    /// Use another sort configuration.
    pub fn set_sort_config(&mut self, config: SortConfig)
        requires
            old(self).wf(),
        ensures
            final(self).wf(),
            final(self)@.results == old(self)@.results,
            final(self)@.sort_config == config,
    {
        if self.sort_config != config {
            self.sort_config = config;
            self.dirty = true;
        }
    }

    /// Toggle direction for current mode
    pub fn toggle_direction(&mut self)
        requires
            old(self).wf(),
        ensures
            final(self).wf(),
            final(self)@.results == old(self)@.results,
            final(self)@.sort_config.mode == old(self)@.sort_config.mode,
            final(self)@.sort_config.direction == old(self)@.sort_config.direction.spec_toggle(),
    {
        self.sort_config.direction = self.sort_config.direction.toggle();
        self.dirty = true;
    }

    /// Toggle direction if same mode, otherwise switch to mode with default direction
    pub fn toggle_or_set_mode(&mut self, mode: SortMode)
        requires
            old(self).wf(),
        ensures
            final(self).wf(),
            final(self)@.results == old(self)@.results,
            final(self)@.sort_config == old(self)@.sort_config.spec_toggle_or_set(mode),
    {
        let old_config = self.sort_config;
        self.sort_config.toggle_or_set(mode);
        if self.sort_config != old_config {
            self.dirty = true;
        }
    }

    pub fn len(&self) -> (n: usize)
        requires
            self.wf(),
        ensures
            n == self@.results.len(),
    {
        self.results.len()
    }

    pub fn is_empty(&self) -> (b: bool)
        requires
            self.wf(),
        ensures
            b == (self@.results.len() == 0),
    {
        self.results.len() == 0
    }

    fn ensure_sorted(&mut self)
        requires
            old(self).wf(),
        ensures
            final(self).wf(),
            final(self)@ == old(self)@,
            !final(self).dirty,
    {
        if !self.dirty {
            return;
        }
        let order = sorted_order(&self.keys, &self.sort_config);
        self.sorted_indices = order;
        self.dirty = false;
    }

    /// Get item at sorted position (for table display)
    pub fn get_sorted(&mut self, index: usize) -> (r: Option<&SearchHit>)
        requires
            old(self).wf(),
        ensures
            final(self).wf(),
            final(self)@ == old(self)@,
            is_sorted_order(keys_of(final(self)@.results), final(self)@.sort_config, final(self).shown_order()),
            index < final(self)@.results.len() ==> r == Some(&final(self)@.results[final(self).shown_order()[index as int] as int]),
            index >= final(self)@.results.len() ==> r is None,
    {
        self.ensure_sorted();
        if index < self.sorted_indices.len() {
            let idx = self.sorted_indices[index];
            Some(&self.results[idx])
        } else {
            None
        }
    }

    /// Get the original index of the item at sorted position
    pub fn get_original_index(&mut self, sorted_index: usize) -> (r: Option<usize>)
        requires
            old(self).wf(),
        ensures
            final(self).wf(),
            final(self)@ == old(self)@,
            is_sorted_order(keys_of(final(self)@.results), final(self)@.sort_config, final(self).shown_order()),
            sorted_index < final(self)@.results.len() ==> r == Some(final(self).shown_order()[sorted_index as int]),
            sorted_index >= final(self)@.results.len() ==> r is None,
    {
        self.ensure_sorted();
        if sorted_index < self.sorted_indices.len() {
            Some(self.sorted_indices[sorted_index])
        } else {
            None
        }
    }

    /// Collect sorted results as a Vec (useful for snapshots)
    pub fn sorted_results(&mut self) -> (v: Vec<&SearchHit>)
        requires
            old(self).wf(),
        ensures
            final(self).wf(),
            final(self)@ == old(self)@,
            is_sorted_order(keys_of(final(self)@.results), final(self)@.sort_config, final(self).shown_order()),
            v@.len() == final(self)@.results.len(),
            forall|p: int| 0 <= p < v@.len() ==> *v@[p] == final(self)@.results[final(self).shown_order()[p] as int],
    {
        self.ensure_sorted();
        let mut v: Vec<&SearchHit> = Vec::new();
        let n = self.sorted_indices.len();
        let mut p: usize = 0;
        while p < n
            invariant
                0 <= p <= n == self.sorted_indices@.len() == self.results@.len(),
                self.wf(),
                !self.dirty,
                v@.len() == p,
                forall|q: int| 0 <= q < p ==> *v@[q] == self.results@[self.sorted_indices@[q] as int],
            decreases n - p,
        {
            let idx = self.sorted_indices[p];
            v.push(&self.results[idx]);
            p = p + 1;
        }
        v
    }
}

impl Default for SearchResultStore {
    fn default() -> (s: Self)
        ensures
            s.wf(),
            s@.results.len() == 0,
            s@.sort_config == SortConfig::spec_default(),
    {
        Self::with_sort_config(SortConfig::default())
    }
}

/// Sorting by a time stamp orders the hits by that time stamp and nothing
/// else. Of two hits in a sorted order, the one shown first has an access
/// (modified, created) time no later than the other's when the sort is by
/// access (modified, created) time ascending, and no earlier when descending;
/// hits whose time stamps are equal keep their arrival order, whatever their
/// other fields hold.
pub proof fn lemma_time_sorts_follow_their_time_stamp(
    hits: Seq<SearchHit>,
    config: SortConfig,
    order: Seq<usize>,
    p: int,
    q: int,
)
    requires
        is_sorted_order(keys_of(hits), config, order),
        0 <= p < q < order.len(),
    ensures
        config.mode == SortMode::AccessedTime && config.direction == SortDirection::Ascending
            ==> hits[order[p] as int].access_time <= hits[order[q] as int].access_time,
        config.mode == SortMode::AccessedTime && config.direction == SortDirection::Descending
            ==> hits[order[p] as int].access_time >= hits[order[q] as int].access_time,
        config.mode == SortMode::AccessedTime && hits[order[p] as int].access_time == hits[order[q] as int].access_time
            ==> order[p] < order[q],
        config.mode == SortMode::ModifiedTime && config.direction == SortDirection::Ascending
            ==> hits[order[p] as int].modified_time <= hits[order[q] as int].modified_time,
        config.mode == SortMode::ModifiedTime && config.direction == SortDirection::Descending
            ==> hits[order[p] as int].modified_time >= hits[order[q] as int].modified_time,
        config.mode == SortMode::ModifiedTime && hits[order[p] as int].modified_time == hits[order[q] as int].modified_time
            ==> order[p] < order[q],
        config.mode == SortMode::CreatedTime && config.direction == SortDirection::Ascending
            ==> hits[order[p] as int].create_time <= hits[order[q] as int].create_time,
        config.mode == SortMode::CreatedTime && config.direction == SortDirection::Descending
            ==> hits[order[p] as int].create_time >= hits[order[q] as int].create_time,
        config.mode == SortMode::CreatedTime && hits[order[p] as int].create_time == hits[order[q] as int].create_time
            ==> order[p] < order[q],
{
    let keys = keys_of(hits);
    let i = order[p];
    let j = order[q];
    assert(sorting::before(keys, config, order[p], order[q]));
    assert(keys[i as int] == key_of(hits[i as int]));
    assert(keys[j as int] == key_of(hits[j as int]));
}

/// Sorting by score puts the hits without a score below every hit with one,
/// and the scored hits in the order of their scores: of two hits in a sorted
/// order, the one shown first has the lower score (or none) when ascending,
/// and the higher score (or the other has none) when descending.
pub proof fn lemma_score_sort_follows_the_scores(
    hits: Seq<SearchHit>,
    config: SortConfig,
    order: Seq<usize>,
    p: int,
    q: int,
)
    requires
        is_sorted_order(keys_of(hits), config, order),
        0 <= p < q < order.len(),
        config.mode == SortMode::Score,
    ensures
        config.direction == SortDirection::Ascending ==> {
            &&& hits[order[p] as int].score is Some ==> hits[order[q] as int].score is Some
            &&& hits[order[p] as int].score matches Some(x)
                ==> (hits[order[q] as int].score matches Some(y) ==> x <= y)
        },
        config.direction == SortDirection::Descending ==> {
            &&& hits[order[q] as int].score is Some ==> hits[order[p] as int].score is Some
            &&& hits[order[p] as int].score matches Some(x)
                ==> (hits[order[q] as int].score matches Some(y) ==> x >= y)
        },
{
    let keys = keys_of(hits);
    let i = order[p];
    let j = order[q];
    assert(sorting::before(keys, config, order[p], order[q]));
    assert(keys[i as int] == key_of(hits[i as int]));
    assert(keys[j as int] == key_of(hits[j as int]));
    order::lemma_score_keys_in_order(keys[i as int], keys[j as int], config);
}

} // verus!
