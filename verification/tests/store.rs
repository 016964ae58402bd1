use unnamed::app::user_command::UserCommand;
use unnamed::component::search_result_viewer::{SearchResultViewer, SearchResultViewerEvent};
use unnamed::search_mode::SearchMode;
use unnamed::search_result_store::{SearchHit, SearchResultStore};
use unnamed::sort::{SortConfig, SortDirection, SortMode};

fn hit(path: &str, score: u32, mtime: u64) -> SearchHit {
    SearchHit {
        file_path: path.to_string(),
        score: Some(score),
        preview: String::new(),
        file_size: 0,
        access_time: 0,
        modified_time: mtime,
        create_time: 0,
    }
}

fn sorted_paths(store: &mut SearchResultStore) -> Vec<String> {
    store.sorted_results().into_iter().map(|h| h.file_path.clone()).collect()
}

#[test]
fn default_sort_is_by_score_descending() {
    let c = SortConfig::default();
    assert_eq!(c.mode, SortMode::Score);
    assert_eq!(c.direction, SortDirection::Descending);
    let mut store = SearchResultStore::default();
    store.extend(vec![hit("/b", 5, 0), hit("/a", 9, 0), hit("/c", 1, 0)]);
    assert_eq!(sorted_paths(&mut store), vec!["/a", "/b", "/c"]);
}

#[test]
fn toggling_the_same_mode_flips_direction() {
    let mut c = SortConfig::new(SortMode::FilePath, SortDirection::Ascending);
    c.toggle_or_set(SortMode::FilePath);
    assert_eq!(c.direction, SortDirection::Descending);
    c.toggle_or_set(SortMode::FilePath);
    assert_eq!(c.direction, SortDirection::Ascending);
    c.toggle_or_set(SortMode::ModifiedTime);
    assert_eq!(c.mode, SortMode::ModifiedTime);
    assert_eq!(c.direction, SortDirection::Descending);
    c.toggle_or_set(SortMode::FilePath);
    assert_eq!(c.direction, SortDirection::Ascending);
    assert_eq!(SortDirection::Ascending.toggle().toggle(), SortDirection::Ascending);
}

#[test]
fn path_order_and_its_reverse() {
    let mut store = SearchResultStore::with_sort_config(SortConfig::new(SortMode::FilePath, SortDirection::Ascending));
    store.extend(vec![hit("/z/a", 0, 0), hit("/a/b", 0, 0), hit("/a/a", 0, 0)]);
    // by file name first, then by the whole path
    assert_eq!(sorted_paths(&mut store), vec!["/a/a", "/z/a", "/a/b"]);
    store.toggle_direction();
    assert_eq!(sorted_paths(&mut store), vec!["/a/b", "/z/a", "/a/a"]);
    assert_eq!(store.len(), 3);
    assert_eq!(store.get_original_index(0), Some(1));
    assert_eq!(store.get_sorted(5).map(|h| h.file_path.clone()), None);
}

#[test]
fn equal_keys_keep_arrival_order() {
    let mut store = SearchResultStore::with_sort_config(SortConfig::new(SortMode::ModifiedTime, SortDirection::Ascending));
    store.extend(vec![hit("/1", 0, 5), hit("/2", 0, 3), hit("/3", 0, 5), hit("/4", 0, 3)]);
    assert_eq!(sorted_paths(&mut store), vec!["/2", "/4", "/1", "/3"]);
    store.clear();
    assert!(store.is_empty());
}

#[test]
fn natural_search_leaves_a_score_sort() {
    let mut v = SearchResultViewer::default();
    assert_eq!(v.search_mode(), SearchMode::Natural);
    v.set_sort_config(SortConfig::new(SortMode::Score, SortDirection::Descending));
    v.set_search_mode(SearchMode::Rule);
    v.set_search_mode(SearchMode::Natural);
    assert_eq!(v.search_mode(), SearchMode::Natural);
    assert!(v.handle_user_command(&UserCommand::NextItem));
    assert!(v.handle_user_command(&UserCommand::PrevItem));
    assert!(!v.handle_user_command(&UserCommand::StartSearch));
}

#[test]
fn clicking_a_card_selects_it() {
    let mut v = SearchResultViewer::default();
    v.recieve_items(vec![hit("/low", 1, 0), hit("/high", 8, 0)]);
    assert_eq!(v.len(), 2);
    match v.select_card(0) {
        Some(SearchResultViewerEvent::FileSelected(p)) => assert_eq!(p, "/high"),
        None => panic!("expected a selection"),
    }
    assert_eq!(v.selected_index(), Some(0));
    assert!(v.select_card(2).is_none());
    v.clear_items();
    assert_eq!(v.len(), 0);
    assert_eq!(v.selected_index(), None);
}
