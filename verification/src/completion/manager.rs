//! What to complete for a completion context: field names of the query
//! language, paths, or nothing.
use vstd::prelude::*;
use crate::text::{chars_of, concat, contains_char, has_prefix, lowercase, same_text, starts_with_chars, to_lowercase};
use super::{CompletionItem, CompletionSource, Replacement, ReplacementRange};
use super::query_analyzer::CompletionContext;

verus! {

broadcast use vstd::string::group_string_axioms;

/// The fields of the query language with their descriptions.
pub open spec fn field_table() -> Seq<(Seq<char>, Seq<char>)> {
    seq![
        ("r:"@, "regexp"@),
        ("key:"@, "Keyword"@),
        ("root:"@, "Search root directory"@),
        ("in:"@, "Include (glob)"@),
        ("ext:"@, "Exclude (glob)"@),
        ("atime:"@, "Access time range"@),
        ("ctime:"@, "Create time range"@),
        ("mtime:"@, "Modified time range"@),
        ("size:"@, "File size range"@),
        ("num:"@, "Number of results"@),
    ]
}

/// The fields whose names start with `partial`, in table order.
pub open spec fn matching_fields(table: Seq<(Seq<char>, Seq<char>)>, partial: Seq<char>) -> Seq<(Seq<char>, Seq<char>)>
    decreases table.len(),
{
    if table.len() == 0 {
        Seq::empty()
    } else {
        let rest = matching_fields(table.drop_last(), partial);
        if has_prefix(table.last().0, partial) { rest.push(table.last()) } else { rest }
    }
}

/// `item` completes the field `f` over `range`: its label is "name - description"
/// and it inserts the name.
pub open spec fn field_item(f: (Seq<char>, Seq<char>), range: ReplacementRange, item: CompletionItem) -> bool {
    &&& item.label@ == f.0 + " - "@ + f.1
    &&& item.replacement.text@ == f.0
    &&& item.replacement.range == range
    &&& item.source == CompletionSource::Keyword
}

/// `items` are the completions of the fields in `fields`, in order.
pub open spec fn field_items(fields: Seq<(Seq<char>, Seq<char>)>, range: ReplacementRange, items: Seq<CompletionItem>) -> bool {
    &&& items.len() == fields.len()
    &&& forall|i: int| 0 <= i < items.len() ==> field_item(fields[i], range, #[trigger] items[i])
}

/// What a completion session streams.
#[derive(Debug)]
pub enum CompletionPlan {
    /// No completions
    Nothing,
    /// These field names
    Fields(Vec<CompletionItem>),
    /// These field names, then the completions of a path, each replacing `range`
    FieldsThenPaths { fields: Vec<CompletionItem>, path_prefix: String, range: ReplacementRange },
    /// The completions of a path, each replacing `range`
    Paths { path_prefix: String, range: ReplacementRange },
}

/// The field names of the query language.
fn field_list() -> (v: Vec<(&'static str, &'static str)>)
    ensures
        v@.len() == field_table().len(),
        forall|i: int| 0 <= i < v@.len() ==> (v@[i].0@, v@[i].1@) == #[trigger] field_table()[i],
{
    let v = vec![
        ("r:", "regexp"),
        ("key:", "Keyword"),
        ("root:", "Search root directory"),
        ("in:", "Include (glob)"),
        ("ext:", "Exclude (glob)"),
        ("atime:", "Access time range"),
        ("ctime:", "Create time range"),
        ("mtime:", "Modified time range"),
        ("size:", "File size range"),
        ("num:", "Number of results"),
    ];
    v
}

/// The completions of the field names that start with `partial`, compared in
/// lowercase, each replacing `range`.
pub fn field_name_completions(partial: &str, range: ReplacementRange) -> (items: Vec<CompletionItem>)
    ensures
        field_items(matching_fields(field_table(), lowercase(partial@)), range, items@),
{
    let partial_lower = to_lowercase(partial);
    let pl = chars_of(partial_lower.as_str());
    let table = field_list();
    let mut items: Vec<CompletionItem> = Vec::new();
    let mut i: usize = 0;
    while i < table.len()
        invariant
            0 <= i <= table@.len() == field_table().len(),
            forall|j: int| 0 <= j < table@.len() ==> (table@[j].0@, table@[j].1@) == #[trigger] field_table()[j],
            pl@ == lowercase(partial@),
            field_items(matching_fields(field_table().take(i as int), pl@), range, items@),
        decreases table@.len() - i,
    {
        let (name, desc) = table[i];
        let nc = chars_of(name);
        proof {
            let t = field_table().take(i + 1);
            assert(t.drop_last() =~= field_table().take(i as int));
            assert(t.last() == field_table()[i as int]);
        }
        if starts_with_chars(&nc, &pl) {
            let dash = concat(name, " - ");
            let label = concat(dash.as_str(), desc);
            let item = CompletionItem {
                label,
                replacement: Replacement { range, text: String::from_str(name) },
                source: CompletionSource::Keyword,
            };
            items.push(item);
        }
        i = i + 1;
    }
    proof {
        assert(field_table().take(table@.len() as int) =~= field_table());
    }
    items
}

/// `plan` is what to stream for `context` with the cursor at `cursor_pos`.
pub open spec fn plan_for(context: CompletionContext, cursor_pos: usize, plan: CompletionPlan) -> bool {
    match context {
        CompletionContext::PartialFieldOrTerm { text, start_pos } => {
            let range = ReplacementRange { start: start_pos, end: cursor_pos };
            let fields = matching_fields(field_table(), lowercase(text@));
            if (text@.len() > 0 && text@[0] == '~') || text@.contains('/') {
                plan matches CompletionPlan::FieldsThenPaths { fields: f, path_prefix, range: r }
                    && field_items(fields, range, f@) && path_prefix@ == text@ && r == range
            } else {
                plan matches CompletionPlan::Fields(f) && field_items(fields, range, f@)
            }
        },
        CompletionContext::FieldValue { field, value, value_start } => if field@ == "root"@ {
            plan matches CompletionPlan::Paths { path_prefix, range } && path_prefix@ == value@
                && range == (ReplacementRange { start: value_start, end: cursor_pos })
        } else {
            plan is Nothing
        },
        CompletionContext::AfterTerm | CompletionContext::AfterOperator | CompletionContext::InGroup { .. } =>
            plan matches CompletionPlan::Fields(f) && field_items(
                matching_fields(field_table(), lowercase(Seq::empty())),
                ReplacementRange { start: cursor_pos, end: cursor_pos },
                f@,
            ),
        CompletionContext::Empty | CompletionContext::InQuotedString => plan is Nothing,
    }
}

/// A partial word is completed as a path exactly when it starts with `~` or
/// holds a `/`: the plan then streams, after the field names, the paths that
/// start with the word itself, each replacing the word up to the cursor; any
/// other word gets field names only. The value of `root:` is completed as a
/// path, replacing the value up to the cursor, and the value of any other
/// field gets nothing. After a term, an operator or an open parenthesis field
/// names are offered at the cursor; an empty query and a quoted string get
/// nothing.
pub proof fn lemma_path_like_words_complete_as_paths(context: CompletionContext, cursor_pos: usize, plan: CompletionPlan)
    requires
        plan_for(context, cursor_pos, plan),
    ensures
        context matches CompletionContext::PartialFieldOrTerm { text, start_pos } ==> {
            &&& (plan is FieldsThenPaths) <==> ((text@.len() > 0 && text@[0] == '~')
                || exists|k: int| 0 <= k < text@.len() && #[trigger] text@[k] == '/')
            &&& plan matches CompletionPlan::FieldsThenPaths { path_prefix, range, .. } ==> (
                path_prefix@ == text@ && range == (ReplacementRange { start: start_pos, end: cursor_pos }))
            &&& !(plan is FieldsThenPaths) ==> plan is Fields
        },
        context matches CompletionContext::FieldValue { field, value, value_start } ==> {
            &&& (plan is Paths) <==> field@ == "root"@
            &&& plan matches CompletionPlan::Paths { path_prefix, range } ==> (
                path_prefix@ == value@ && range == (ReplacementRange { start: value_start, end: cursor_pos }))
            &&& !(plan is Paths) ==> plan is Nothing
        },
        (context is AfterTerm || context is AfterOperator || context is InGroup) ==> (
            plan matches CompletionPlan::Fields(f) && forall|i: int| 0 <= i < f@.len()
                ==> (#[trigger] f@[i]).replacement.range == (ReplacementRange { start: cursor_pos, end: cursor_pos })),
        (context is Empty || context is InQuotedString) ==> plan is Nothing,
{
    if let CompletionContext::PartialFieldOrTerm { text, start_pos } = context {
        assert(text@.contains('/') <==> exists|k: int| 0 <= k < text@.len() && #[trigger] text@[k] == '/');
    }
}

/// What to stream for a completion context, given the cursor position: field
/// names for a partial word (and the paths it may start, when it starts with
/// `~` or holds a `/`), paths for the value of `root:`, field names after a
/// term, an operator or an open parenthesis, and nothing otherwise.
pub fn plan_completions(context: CompletionContext, cursor_pos: usize) -> (plan: CompletionPlan)
    ensures
        plan_for(context, cursor_pos, plan),
{
    match context {
        CompletionContext::Empty => CompletionPlan::Nothing,
        CompletionContext::PartialFieldOrTerm { text, start_pos } => {
            let range = ReplacementRange { start: start_pos, end: cursor_pos };
            let fields = field_name_completions(text.as_str(), range);
            let tc = chars_of(text.as_str());
            if (tc.len() > 0 && tc[0] == '~') || contains_char(&tc, '/') {
                CompletionPlan::FieldsThenPaths { fields, path_prefix: text, range }
            } else {
                CompletionPlan::Fields(fields)
            }
        },
        CompletionContext::FieldValue { field, value, value_start } => {
            if same_text(field.as_str(), "root") {
                CompletionPlan::Paths { path_prefix: value, range: ReplacementRange { start: value_start, end: cursor_pos } }
            } else {
                CompletionPlan::Nothing
            }
        },
        CompletionContext::AfterTerm | CompletionContext::AfterOperator | CompletionContext::InGroup { .. } => {
            let fields = field_name_completions("", ReplacementRange { start: cursor_pos, end: cursor_pos });
            proof {
                reveal_strlit("");
            }
            assert(""@ =~= Seq::<char>::empty());
            CompletionPlan::Fields(fields)
        },
        CompletionContext::InQuotedString => CompletionPlan::Nothing,
    }
}

} // verus!
