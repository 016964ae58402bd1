use std::cmp::Ordering;
use unnamed::app::scope::Scope;
use unnamed::backend::{FetchOutcome, PollStep, PolledStatus, SearchPoller};
use unnamed::cache_debug::{contains_text, meta_file_path, KeywordEntry, KeywordTally, MetaEntry, MetaListing};
use unnamed::cli::{command_to_run, Cli, CommandToRun, Commands};
use unnamed::component::search_result_viewer::card_text;
use unnamed::component::status_bar::{menu_columns, search_mode_clicked, sort_mode_picked, StatusBarEvent};
use unnamed::completion::query_analyzer::{Span, Token};
use unnamed::query_highlighter::{highlight_query, HighlightKind, HighlightSegment};
use unnamed::search_mode::SearchMode;
use unnamed::sort::{SortConfig, SortDirection, SortMode};
use unnamed::ui::icon::{file_size_unit, FileType, SizeUnit};

#[test]
fn file_types_by_extension_ignore_case() {
    assert_eq!(FileType::from_extension("PDF"), FileType::Pdf);
    assert_eq!(FileType::from_extension("Docx"), FileType::Doc);
    assert_eq!(FileType::from_extension("RS"), FileType::Code);
    assert_eq!(FileType::from_extension("md"), FileType::Markdown);
    assert_eq!(FileType::from_extension("bin"), FileType::Generic);
    assert_eq!(FileType::Pdf.display_name(), "PDF");
    assert_eq!(FileType::Generic.display_name(), "File");
}

#[test]
fn file_types_by_path() {
    assert_eq!(FileType::from_path("/home/u/notes.TXT"), FileType::Text);
    assert_eq!(FileType::from_path("src/main.rs"), FileType::Code);
    assert_eq!(FileType::from_path("/etc/"), FileType::Generic);
    assert_eq!(FileType::from_path("Makefile"), FileType::Generic);
    assert_eq!(FileType::from_path(".bashrc"), FileType::Generic);
}

#[test]
fn size_units() {
    assert_eq!(file_size_unit(1023), SizeUnit::Bytes);
    assert_eq!(file_size_unit(1024), SizeUnit::KB);
    assert_eq!(file_size_unit(5 * 1024 * 1024), SizeUnit::MB);
    assert_eq!(file_size_unit(3 * 1024 * 1024 * 1024), SizeUnit::GB);
}

#[test]
fn scope_hierarchy() {
    assert_eq!(Scope::SearchBarCompletion.hierarchy(), vec![Scope::SearchBarCompletion, Scope::SearchBar, Scope::Main, Scope::Global]);
    assert_eq!(Scope::Global.hierarchy(), vec![Scope::Global]);
}

#[test]
fn search_mode_cycles() {
    assert_eq!(SearchMode::Natural.next(), SearchMode::Rule);
    assert_eq!(SearchMode::Rule.next().next(), SearchMode::Rule);
    assert_eq!(SearchMode::all(), vec![SearchMode::Natural, SearchMode::Rule]);
    assert!(matches!(search_mode_clicked(SearchMode::Rule), StatusBarEvent::ChangeSearchMode(SearchMode::Natural)));
}

#[test]
fn sort_menu() {
    let c = SortConfig::new(SortMode::Score, SortDirection::Ascending);
    assert!(sort_mode_picked(&c, SortMode::Score).is_none());
    match sort_mode_picked(&c, SortMode::CreatedTime) {
        Some(StatusBarEvent::ChangeSortConfig(n)) => {
            assert_eq!(n.mode, SortMode::CreatedTime);
            assert_eq!(n.direction, SortDirection::Ascending);
        }
        _ => panic!("expected a change"),
    }
    assert_eq!(menu_columns(2), 3);
    assert_eq!(menu_columns(5), 1);
    assert_eq!(menu_columns(0), 5);
}

#[test]
fn poller_fetches_until_complete_and_all_fetched() {
    let mut p = SearchPoller::new(10);
    assert_eq!(p.on_status(PolledStatus::InProgress), PollStep::Fetch { offset: 0, limit: 10 });
    assert_eq!(p.on_fetch(FetchOutcome::Fetched { count: 10, has_more: true }), PollStep::Continue);
    assert_eq!(p.on_status(PolledStatus::Completed), PollStep::Fetch { offset: 10, limit: 10 });
    assert_eq!(p.on_fetch(FetchOutcome::Fetched { count: 4, has_more: false }), PollStep::Stop);
    assert_eq!(p.offset, 14);
    let mut q = SearchPoller::new(10);
    assert_eq!(q.on_status(PolledStatus::Ended), PollStep::Stop);
    assert_eq!(q.on_fetch(FetchOutcome::SearchError), PollStep::Stop);
}

#[test]
fn highlight_fills_gaps_with_whitespace() {
    // "root: x" -> Text(root) Colon Text(x)
    let tokens = vec![
        (Some(Token::Text("root".to_string())), Span { start: 0, end: 4 }),
        (Some(Token::Colon), Span { start: 4, end: 5 }),
        (Some(Token::Text("x".to_string())), Span { start: 6, end: 7 }),
        (None, Span { start: 7, end: 8 }),
    ];
    let segs = highlight_query(10, &tokens);
    let expected = vec![
        HighlightSegment { start: 0, end: 4, kind: HighlightKind::Field },
        HighlightSegment { start: 4, end: 5, kind: HighlightKind::Delimiter },
        HighlightSegment { start: 5, end: 6, kind: HighlightKind::Whitespace },
        HighlightSegment { start: 6, end: 7, kind: HighlightKind::Text },
        HighlightSegment { start: 7, end: 8, kind: HighlightKind::Error },
        HighlightSegment { start: 8, end: 10, kind: HighlightKind::Whitespace },
    ];
    assert_eq!(segs, expected);
}

#[test]
fn substring_search() {
    assert!(contains_text("/home/u/file.rs", "u/fi"));
    assert!(contains_text("abc", ""));
    assert!(!contains_text("abc", "abcd"));
    assert!(!contains_text("abc", "cb"));
}

#[test]
fn keyword_listing_tallies() {
    let mut t = KeywordTally::new(1);
    assert_eq!(t.observe("meta:/a", None, true), KeywordEntry::Metadata);
    assert_eq!(t.observe("/a/b", Some("zz"), true), KeywordEntry::FilteredOut);
    assert_eq!(t.observe("/a/zz", Some("zz"), true), KeywordEntry::Shown);
    assert_eq!(t.observe("/b/zz", Some("zz"), true), KeywordEntry::CountedOnly);
    assert_eq!(t.observe("/c/zz", Some("zz"), false), KeywordEntry::Unreadable);
    assert_eq!(t.meta_count, 1);
    assert_eq!(t.keyword_count, 3);
    assert_eq!(t.displayed, 1);
}

#[test]
fn metadata_listing() {
    assert_eq!(meta_file_path("meta:/x/y"), "/x/y");
    assert_eq!(meta_file_path("/x"), "/x");
    let mut m = MetaListing::new(1);
    assert_eq!(m.observe("/a", Some("b"), true), MetaEntry::Skipped);
    assert_eq!(m.observe("/b", Some("b"), false), MetaEntry::Unreadable);
    assert_eq!(m.observe("/b", None, true), MetaEntry::Shown);
    assert_eq!(m.observe("/c", None, true), MetaEntry::Stop);
    assert_eq!(m.displayed, 1);
}

#[test]
fn command_dispatch() {
    assert!(command_to_run(Cli { command: None, verbose: 0 }).is_none());
    assert!(matches!(command_to_run(Cli { command: Some(Commands::Serve), verbose: 1 }), Some(CommandToRun::Serve)));
    match command_to_run(Cli {
        command: Some(Commands::DebugCache { filter: Some("x".to_string()), limit: 20, show_meta: true }),
        verbose: 0,
    }) {
        Some(CommandToRun::DebugCacheMeta { filter, limit }) => {
            assert_eq!(filter.as_deref(), Some("x"));
            assert_eq!(limit, 20);
        }
        _ => panic!("expected the metadata listing"),
    }
    assert!(matches!(
        command_to_run(Cli { command: Some(Commands::DebugCache { filter: None, limit: 5, show_meta: false }), verbose: 0 }),
        Some(CommandToRun::DebugCache { filter: None, limit: 5 })
    ));
    assert!(matches!(
        command_to_run(Cli { command: Some(Commands::Index { root_path: None }), verbose: 0 }),
        Some(CommandToRun::Index { root_path: None })
    ));
}

#[test]
fn direction_applies_to_orderings() {
    assert_eq!(SortDirection::Ascending.apply(Ordering::Less), Ordering::Less);
    assert_eq!(SortDirection::Descending.apply(Ordering::Less), Ordering::Greater);
    assert_eq!(SortDirection::Descending.apply(SortDirection::Descending.apply(Ordering::Greater)), Ordering::Greater);
    assert_eq!(SortDirection::Descending.apply(Ordering::Equal), Ordering::Equal);
}

#[test]
fn result_cards_show_the_file_name_and_its_directory() {
    let (name, dir) = card_text("/home/user/notes/plan.txt");
    assert_eq!(name, "plan.txt");
    assert_eq!(dir, "/home/user/notes");
}

#[test]
fn a_result_card_without_a_file_name_reads_unknown() {
    let (name, dir) = card_text("/");
    assert_eq!(name, "Unknown");
    assert_eq!(dir, "/");
}
