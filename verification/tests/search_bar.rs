use unnamed::component::search_bar::{CompletionKey, SearchBar, SearchBarEvent};
use unnamed::completion::{CompletionItem, CompletionSessionId, CompletionSource, Replacement, ReplacementRange};

fn item(text: &str, start: usize, end: usize) -> CompletionItem {
    CompletionItem {
        label: text.to_string(),
        replacement: Replacement { range: ReplacementRange { start, end }, text: text.to_string() },
        source: CompletionSource::Keyword,
    }
}

/// A bar whose query is `query`, with a completion session that asked at the
/// cursor `cursor` and got `items`.
fn bar_with_items(query: &str, cursor: usize, items: Vec<CompletionItem>) -> (SearchBar, CompletionSessionId) {
    let mut bar = SearchBar::default();
    bar.set_query(query.to_string());
    let events = bar.completion_frame(cursor, 1000, 0);
    let id = match events.last() {
        Some(SearchBarEvent::RequestCompletion { session_id, query: q, cursor_pos }) => {
            assert_eq!(q, query);
            assert_eq!(*cursor_pos, cursor);
            *session_id
        }
        _ => panic!("expected a completion request"),
    };
    bar.receive_completion_batch(id, items, false);
    (bar, id)
}

#[test]
fn applying_a_completion_replaces_its_range() {
    let (mut bar, _) = bar_with_items("ro", 2, vec![item("root:", 0, 2)]);
    assert!(bar.should_handle_completion());
    assert!(bar.completion_applicable());
    let cursor = bar.apply_completion();
    assert_eq!(cursor, Some(5));
    assert_eq!(bar.query(), "root:");
    assert!(bar.completion().items().is_empty());
}

#[test]
fn the_selected_item_is_applied() {
    let (mut bar, _) = bar_with_items("a ke", 4, vec![item("key:", 2, 4), item("kez", 2, 4)]);
    bar.handle_completion_keyboard(CompletionKey::ArrowDown);
    assert_eq!(bar.completion().selected(), Some(1));
    bar.handle_completion_keyboard(CompletionKey::Enter);
    assert!(bar.should_apply_completion());
    assert_eq!(bar.apply_completion(), Some(5));
    assert_eq!(bar.query(), "a kez");
    bar.completion_applied();
    assert!(!bar.should_apply_completion());
}

#[test]
fn replacement_counts_bytes() {
    let (mut bar, _) = bar_with_items("é x", 4, vec![item("yz", 3, 4)]);
    assert_eq!(bar.apply_completion(), Some(5));
    assert_eq!(bar.query(), "é yz");
}

#[test]
fn a_range_off_a_char_boundary_is_not_applicable() {
    let (bar, _) = bar_with_items("é", 2, vec![item("x", 1, 2)]);
    assert!(!bar.completion_applicable());
}

#[test]
fn escape_dismisses_the_popup_until_the_cursor_moves() {
    let (mut bar, id) = bar_with_items("ro", 2, vec![item("root:", 0, 2)]);
    match bar.handle_completion_keyboard(CompletionKey::Escape) {
        Some(SearchBarEvent::CancelCompletion { session_id }) => assert_eq!(session_id, id),
        _ => panic!("expected a cancel"),
    }
    assert!(!bar.should_handle_completion());
    assert!(bar.handle_completion_keyboard(CompletionKey::ArrowDown).is_none());
}

#[test]
fn requests_wait_for_the_debounce() {
    let mut bar = SearchBar::default();
    bar.set_query("a".to_string());
    assert!(bar.completion_frame(1, 1000, 300).is_empty());
    assert!(bar.pending_completion_request());
    assert!(bar.completion_frame(1, 1200, 300).is_empty());
    let events = bar.completion_frame(1, 1300, 300);
    assert_eq!(events.len(), 1);
    assert!(matches!(events[0], SearchBarEvent::RequestCompletion { session_id: CompletionSessionId(1), .. }));
    assert!(!bar.pending_completion_request());
    // a second request cancels the first session
    bar.set_query("ab".to_string());
    assert!(bar.completion_frame(2, 2000, 0).len() == 2);
}

#[test]
fn enter_starts_a_search_without_a_selection() {
    let mut bar = SearchBar::default();
    bar.set_query("hello".to_string());
    match bar.search_on_enter(true) {
        Some(SearchBarEvent::StartSearch(q)) => assert_eq!(q, "hello"),
        _ => panic!("expected a search"),
    }
    assert!(bar.search_on_enter(false).is_none());
    let (bar2, _) = bar_with_items("ro", 2, vec![item("root:", 0, 2)]);
    assert!(bar2.search_on_enter(true).is_none());
}

#[test]
fn no_more_items_are_asked_for_while_loading() {
    let mut bar = SearchBar::default();
    bar.set_query("r".to_string());
    let events = bar.completion_frame(1, 0, 0);
    let id = match events.last() {
        Some(SearchBarEvent::RequestCompletion { session_id, .. }) => *session_id,
        _ => panic!("expected a request"),
    };
    // a batch with more to come leaves the popup loading
    bar.receive_completion_batch(id, vec![item("r:", 0, 1)], true);
    assert!(bar.completion().loading());
    assert!(bar.completion().has_more());
    assert!(bar.continue_completion(true).is_none());
    assert!(bar.continue_completion(false).is_none());
}

#[test]
fn focus_requests_are_used_once() {
    let mut bar = SearchBar::default();
    bar.request_focus();
    assert!(bar.take_focus_request());
    assert!(!bar.take_focus_request());
}
