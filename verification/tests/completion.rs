use unnamed::completion::manager::{field_name_completions, plan_completions, CompletionPlan};
use unnamed::completion::path::PathCompleter;
use unnamed::completion::query_analyzer::CompletionContext;
use unnamed::completion::session::CompletionSession;
use unnamed::completion::state::CompletionState;
use unnamed::completion::{CompletionItem, CompletionSessionId, CompletionSource, Replacement, ReplacementRange};

fn item(label: &str) -> CompletionItem {
    CompletionItem {
        label: label.to_string(),
        replacement: Replacement::text_only(label.to_string()),
        source: CompletionSource::Keyword,
    }
}

#[test]
fn text_only_leaves_the_range_open() {
    let r = Replacement::text_only("abc".to_string());
    assert_eq!(r.text, "abc");
    assert_eq!(r.range, ReplacementRange { start: usize::MAX, end: usize::MAX });
}

#[test]
fn field_names_match_case_insensitively() {
    let items = field_name_completions("RO", ReplacementRange { start: 0, end: 2 });
    assert_eq!(items.len(), 1);
    assert_eq!(items[0].label, "root: - Search root directory");
    assert_eq!(items[0].replacement.text, "root:");
    assert_eq!(items[0].replacement.range, ReplacementRange { start: 0, end: 2 });
    let all = field_name_completions("", ReplacementRange { start: 3, end: 3 });
    assert_eq!(all.len(), 10);
    assert_eq!(all[0].replacement.text, "r:");
    let none = field_name_completions("zzz", ReplacementRange { start: 0, end: 3 });
    assert!(none.is_empty());
}

#[test]
fn plans_follow_the_context() {
    match plan_completions(CompletionContext::PartialFieldOrTerm { text: "~/Do".to_string(), start_pos: 4 }, 8) {
        CompletionPlan::FieldsThenPaths { fields, path_prefix, range } => {
            assert!(fields.is_empty());
            assert_eq!(path_prefix, "~/Do");
            assert_eq!(range, ReplacementRange { start: 4, end: 8 });
        }
        other => panic!("unexpected plan {:?}", other),
    }
    match plan_completions(CompletionContext::FieldValue { field: "root".to_string(), value: "/et".to_string(), value_start: 5 }, 8) {
        CompletionPlan::Paths { path_prefix, range } => {
            assert_eq!(path_prefix, "/et");
            assert_eq!(range, ReplacementRange { start: 5, end: 8 });
        }
        other => panic!("unexpected plan {:?}", other),
    }
    assert!(matches!(
        plan_completions(CompletionContext::FieldValue { field: "ext".to_string(), value: "r".to_string(), value_start: 4 }, 5),
        CompletionPlan::Nothing
    ));
    assert!(matches!(plan_completions(CompletionContext::InQuotedString, 3), CompletionPlan::Nothing));
    match plan_completions(CompletionContext::AfterOperator, 6) {
        CompletionPlan::Fields(f) => assert_eq!(f.len(), 10),
        other => panic!("unexpected plan {:?}", other),
    }
    match plan_completions(CompletionContext::PartialFieldOrTerm { text: "ke".to_string(), start_pos: 0 }, 2) {
        CompletionPlan::Fields(f) => {
            assert_eq!(f.len(), 1);
            assert_eq!(f[0].replacement.text, "key:");
        }
        other => panic!("unexpected plan {:?}", other),
    }
}

#[test]
fn tilde_expands_to_home() {
    let p = PathCompleter::new("/work".to_string());
    assert_eq!(p.expand_tilde("~", "/home/u"), "/home/u");
    assert_eq!(p.expand_tilde("~/Doc", "/home/u"), "/home/u/Doc");
    assert_eq!(p.expand_tilde("/etc", "/home/u"), "/etc");
    assert_eq!(p.home_dir(None), "/work");
    assert_eq!(p.home_dir(Some("/h".to_string())), "/h");
}

#[test]
fn join_follows_pathbuf_push() {
    assert_eq!(PathCompleter::join("/a", "b"), "/a/b");
    assert_eq!(PathCompleter::join("/a/", "b"), "/a/b");
    assert_eq!(PathCompleter::join("/a", "/b"), "/b");
}

#[test]
fn parse_prefix_examples() {
    let p = PathCompleter::new("/work".to_string());
    assert_eq!(p.parse_prefix("/etc/", "/etc"), Some(("/etc".to_string(), "".to_string(), "/etc/".to_string())));
    assert_eq!(p.parse_prefix("/et", "/et"), Some(("/".to_string(), "et".to_string(), "/".to_string())));
    let (path, ends) = p.search_path("~", "/home/u");
    assert_eq!(path, "/home/u/");
    assert!(ends);
}

#[test]
fn directory_entries_get_a_slash() {
    let it = PathCompleter::entry_item("Documents", true, "Doc", "~/").unwrap();
    assert_eq!(it.label, "Documents/");
    assert_eq!(it.replacement.text, "~/Documents/");
    assert_eq!(it.source, CompletionSource::FileSystem);
    let f = PathCompleter::entry_item("notes.txt", false, "no", "").unwrap();
    assert_eq!(f.label, "notes.txt");
    assert!(PathCompleter::entry_item("bin", true, "Doc", "/").is_none());
}

#[test]
fn session_batches_until_the_stream_ends() {
    let mut s = CompletionSession::new(CompletionSessionId(7), 2);
    assert_eq!(s.id(), CompletionSessionId(7));
    let mut batch = Vec::new();
    let mut source = vec![item("a"), item("b"), item("c")].into_iter();
    while s.wants_more(batch.len()) {
        s.pull(source.next(), &mut batch);
    }
    assert_eq!(batch.len(), 2);
    assert!(s.has_more());
    let mut batch2 = Vec::new();
    while s.wants_more(batch2.len()) {
        s.pull(source.next(), &mut batch2);
    }
    assert_eq!(batch2.len(), 1);
    assert!(s.is_exhausted());
    assert_eq!(s.total_collected(), 3);
}

#[test]
fn batches_of_other_sessions_are_ignored() {
    let mut st = CompletionState::default();
    let id = st.new_session_id();
    assert_eq!(id, CompletionSessionId(1));
    st.start_session(id);
    st.receive_batch(CompletionSessionId(99), vec![item("x")], false);
    assert!(st.items.is_empty());
    st.receive_batch(id, vec![item("a"), item("b")], true);
    assert_eq!(st.items.len(), 2);
    assert_eq!(st.selected, Some(0));
    assert!(st.loading);
    st.select_next();
    st.select_next();
    assert_eq!(st.selected, Some(1));
    st.select_prev();
    assert_eq!(st.selected, Some(0));
    st.cancel(id);
    assert!(!st.loading && !st.has_more);
    st.clear();
    assert!(st.items.is_empty() && st.session_id.is_none());
}

#[test]
fn preserved_items_stay_until_the_first_batch() {
    let mut st = CompletionState::default();
    let a = st.new_session_id();
    st.start_session(a);
    st.receive_batch(a, vec![item("old")], false);
    let b = st.new_session_id();
    assert_eq!(b, CompletionSessionId(2));
    st.start_session_preserve_items(b);
    st.receive_batch(b, vec![], true);
    assert_eq!(st.items.len(), 1);
    assert_eq!(st.items[0].label, "old");
    st.receive_batch(b, vec![item("new1"), item("new2")], true);
    assert_eq!(st.items.len(), 2);
    assert_eq!(st.items[0].label, "new1");
    st.receive_batch(b, vec![item("new3")], false);
    assert_eq!(st.items.len(), 3);
}

#[test]
fn a_directory_named_without_a_slash_gets_no_completion() {
    // "/etc" names a directory: nothing; "/et" names none: complete; "/etc/": list it
    assert!(!PathCompleter::offers_completions("/etc", true));
    assert!(PathCompleter::offers_completions("/et", false));
    assert!(PathCompleter::offers_completions("/etc/", true));
    assert!(PathCompleter::offers_completions("~", true));
    assert!(PathCompleter::offers_completions("notes.tx", false));
}

#[test]
fn batches_come_in_order_up_to_the_batch_size() {
    let mut s = CompletionSession::new(CompletionSessionId(3), 2);
    let mut stream = vec![item("a"), item("b"), item("c"), item("d")];
    let (b1, more1) = s.next_batch(&mut stream);
    assert_eq!(b1.iter().map(|i| i.label.as_str()).collect::<Vec<_>>(), vec!["a", "b"]);
    assert!(more1);
    let (b2, more2) = s.next_batch(&mut stream);
    assert_eq!(b2.iter().map(|i| i.label.as_str()).collect::<Vec<_>>(), vec!["c", "d"]);
    // a full batch leaves the source's end unknown
    assert!(more2);
    let (b3, more3) = s.next_batch(&mut stream);
    assert!(b3.is_empty());
    assert!(!more3);
    assert!(s.is_exhausted());
    let (b4, more4) = s.next_batch(&mut vec![item("late")]);
    assert!(b4.is_empty() && !more4);
    assert_eq!(s.total_collected(), 4);
}

#[test]
fn session_ids_count_the_ids_issued_whatever_comes_between() {
    let mut st = CompletionState::default();
    let a = st.new_session_id();
    st.start_session(a);
    st.receive_batch(a, vec![item("x")], true);
    let b = st.new_session_id();
    st.start_session_preserve_items(b);
    st.clear();
    let c = st.new_session_id();
    assert_eq!(a, CompletionSessionId(1));
    assert_eq!(b, CompletionSessionId(2));
    assert_eq!(c, CompletionSessionId(3));
}
