//! The list of search results: the sorted results, the selected one, and how the
//! search mode bears on the sort.
use vstd::prelude::*;
use crate::app::user_command::UserCommand;
use crate::search_mode::SearchMode;
use crate::search_result_store::{SearchHit, SearchResultStore, keys_of};
use crate::search_result_store::sorting::is_sorted_order;
use crate::sort::{SortConfig, SortMode};
use crate::search_result_store::order::{components_of, file_name_of, path_components, PathComponent};
use crate::text::text_of_chars;

verus! {

/// The state behind the result list.
pub struct SearchResultViewer {
    store: SearchResultStore,
    search_mode: SearchMode,
    selected_index: Option<usize>,
    show_preview: bool,
}

/// What the result list is drawn from; it takes nothing.
pub struct SearchResultViewerProps {}

/// What a frame of the result list reports.
pub struct SearchResultViewerOutput {
    pub events: Vec<SearchResultViewerEvent>,
}

/// What happened in the result list.
pub enum SearchResultViewerEvent {
    /// The user selected the result at this path
    FileSelected(String),
}

/// The result list as its users see it.
pub struct SearchResultViewerView {
    pub results: Seq<SearchHit>,
    pub sort_config: SortConfig,
    pub search_mode: SearchMode,
    pub selected_index: Option<usize>,
    pub show_preview: bool,
}

impl View for SearchResultViewer {
    type V = SearchResultViewerView;

    closed spec fn view(&self) -> SearchResultViewerView {
        SearchResultViewerView {
            results: self.store@.results,
            sort_config: self.store@.sort_config,
            search_mode: self.search_mode,
            selected_index: self.selected_index,
            show_preview: self.show_preview,
        }
    }
}

/// The sort configuration after the search mode becomes `mode`: a switch to
/// natural search while the results are sorted by score sorts them by path
/// instead (as `SortConfig::toggle_or_set` sets a new mode); otherwise the sort
/// stays.
pub open spec fn sort_after_mode_change(mode: SearchMode, config: SortConfig) -> SortConfig {
    if mode == SearchMode::Natural && config.mode == SortMode::Score {
        config.spec_toggle_or_set(SortMode::FilePath)
    } else {
        config
    }
}

impl SearchResultViewer {
    pub closed spec fn wf(&self) -> bool {
        self.store.wf()
    }

    /// The order of the results as the list shows them.
    pub closed spec fn shown_order(&self) -> Seq<usize> {
        self.store.shown_order()
    }

    /// Append results as they arrive.
    pub fn recieve_items(&mut self, items: Vec<SearchHit>)
        requires
            old(self).wf(),
        ensures
            final(self).wf(),
            final(self)@ == (SearchResultViewerView { results: old(self)@.results + items@, ..old(self)@ }),
    {
        self.store.extend(items);
    }

    /// Drop all results and the selection.
    pub fn clear_items(&mut self)
        requires
            old(self).wf(),
        ensures
            final(self).wf(),
            final(self)@ == (SearchResultViewerView { results: Seq::empty(), selected_index: None, ..old(self)@ }),
    {
        self.store.clear();
        self.selected_index = None;
        proof {
            assert(self@.results =~= Seq::<SearchHit>::empty());
        }
    }

    /// Sort by another configuration.
    pub fn set_sort_config(&mut self, config: SortConfig)
        requires
            old(self).wf(),
        ensures
            final(self).wf(),
            final(self)@ == (SearchResultViewerView { sort_config: config, ..old(self)@ }),
    {
        self.store.set_sort_config(config);
    }

    /// Switch the search mode; under natural search a sort by score gives way
    /// to a sort by path.
    pub fn set_search_mode(&mut self, mode: SearchMode)
        requires
            old(self).wf(),
        ensures
            final(self).wf(),
            final(self)@ == (SearchResultViewerView {
                search_mode: mode,
                sort_config: sort_after_mode_change(mode, old(self)@.sort_config),
                ..old(self)@
            }),
    {
        self.search_mode = mode;
        if self.search_mode == SearchMode::Natural && self.store.sort_config().mode == SortMode::Score {
            self.store.toggle_or_set_mode(SortMode::FilePath);
        }
    }

    /// Whether the list takes the command: it takes moving to the next or the
    /// previous item.
    pub fn handle_user_command(&self, cmd: &UserCommand) -> (b: bool)
        ensures
            b == (*cmd == UserCommand::NextItem || *cmd == UserCommand::PrevItem),
    {
        match cmd {
            UserCommand::NextItem => true,
            UserCommand::PrevItem => true,
            _ => false,
        }
    }

    /// The search mode the list shows results for.
    pub fn search_mode(&self) -> (m: SearchMode)
        ensures
            m == self@.search_mode,
    {
        self.search_mode
    }

    /// The position, in sorted order, of the selected result.
    pub fn selected_index(&self) -> (i: Option<usize>)
        ensures
            i == self@.selected_index,
    {
        self.selected_index
    }

    /// Whether the preview panel is shown.
    pub fn show_preview(&self) -> (b: bool)
        ensures
            b == self@.show_preview,
    {
        self.show_preview
    }

    /// The number of results.
    pub fn len(&self) -> (n: usize)
        requires
            self.wf(),
        ensures
            n == self@.results.len(),
    {
        self.store.len()
    }

    /// The result at a position of the sorted order.
    pub fn get_sorted(&mut self, index: usize) -> (r: Option<&SearchHit>)
        requires
            old(self).wf(),
        ensures
            final(self).wf(),
            final(self)@ == old(self)@,
            is_sorted_order(keys_of(final(self)@.results), final(self)@.sort_config, final(self).shown_order()),
            index < final(self)@.results.len() ==> r == Some(&final(self)@.results[final(self).shown_order()[index as int] as int]),
            index >= final(self)@.results.len() ==> r is None,
    {
        self.store.get_sorted(index)
    }

    /// A click on the card at a position of the sorted order: the card becomes
    /// the selection, and the list reports the file selected. A position past
    /// the end changes nothing.
    pub fn select_card(&mut self, index: usize) -> (e: Option<SearchResultViewerEvent>)
        requires
            old(self).wf(),
        ensures
            final(self).wf(),
            is_sorted_order(keys_of(final(self)@.results), final(self)@.sort_config, final(self).shown_order()),
            index < old(self)@.results.len() ==> {
                &&& final(self)@ == (SearchResultViewerView { selected_index: Some(index), ..old(self)@ })
                &&& e matches Some(SearchResultViewerEvent::FileSelected(p))
                    && p@ == final(self)@.results[final(self).shown_order()[index as int] as int].file_path@
            },
            index >= old(self)@.results.len() ==> final(self)@ == old(self)@ && e is None,
    {
        let path = match self.store.get_sorted(index) {
            Some(hit) => Some(hit.file_path.clone()),
            None => None,
        };
        match path {
            Some(p) => {
                self.selected_index = Some(index);
                Some(SearchResultViewerEvent::FileSelected(p))
            },
            None => None,
        }
    }
}

impl Default for SearchResultViewer {
    fn default() -> (v: Self)
        ensures
            v.wf(),
            v@.results.len() == 0,
            v@.sort_config == SortConfig::spec_default(),
            v@.search_mode == SearchMode::Natural,
            v@.selected_index is None,
            !v@.show_preview,
    {
        SearchResultViewer {
            store: SearchResultStore::default(),
            search_mode: SearchMode::default(),
            selected_index: None,
            show_preview: false,
        }
    }
}

/// The parent of a path, as text: what `std::path::Path::parent` gives for it.
pub uninterp spec fn path_parent(path: Seq<char>) -> Option<Seq<char>>;

/// Calls `std::path::Path::parent` and takes the parent as text.
#[verifier::external_body]
fn parent_of(path: &str) -> (r: Option<String>)
    ensures
        match r {
            Some(p) => path_parent(path@) == Some(p@),
            None => path_parent(path@) is None,
        },
{
    match std::path::Path::new(path).parent() {
        Some(p) => Some(p.to_string_lossy().to_string()),
        None => None,
    }
}

/// The two lines of text a result card shows for the file at `path`: the file
/// name, or `Unknown` where the path has none, and the directory the file lies
/// in, or the path itself where it has no parent.
pub fn card_text(path: &str) -> (r: (String, String))
    ensures
        r.0@ == match file_name_of(path_components(path@)) {
            Some(name) => name,
            None => "Unknown"@,
        },
        r.1@ == match path_parent(path@) {
            Some(dir) => dir,
            None => path@,
        },
{
    let comps = components_of(path);
    let ghost cv = comps@.map_values(|c: PathComponent| c@);
    let n = comps.len();
    let name = if n == 0 {
        String::from_str("Unknown")
    } else {
        assert(cv.last() == comps@[n - 1]@);
        match &comps[n - 1] {
            PathComponent::Normal(v) => text_of_chars(v),
            _ => String::from_str("Unknown"),
        }
    };
    let dir = match parent_of(path) {
        Some(p) => p,
        None => String::from_str(path),
    };
    (name, dir)
}

} // verus!
