//! Completion of search queries: items, requests, responses and the UI state.
pub mod manager;
pub mod path;
pub mod query_analyzer;
pub mod session;
pub mod state;

use vstd::prelude::*;

verus! {

/// Where a completion item comes from.
#[derive(Debug, Clone, Copy, PartialEq, Eq, Structural)]
pub enum CompletionSource {
    FileSystem,
    Keyword,
}

/// A range of byte offsets, start inclusive, end exclusive.
#[derive(Debug, Clone, Copy, PartialEq, Eq, Structural)]
pub struct ReplacementRange {
    pub start: usize,
    pub end: usize,
}

/// A text replacement: the part of the original text to replace, and the new text.
#[derive(Debug)]
pub struct Replacement {
    /// The part of original text to be replaced
    pub range: ReplacementRange,
    /// The new text
    pub text: String,
}

impl Replacement {
    /// A replacement that carries only its text; its range is left open
    /// (`usize::MAX..usize::MAX`) for a later stage to fill in.
    pub fn text_only(text: String) -> (r: Self)
        ensures
            r.range.start == usize::MAX,
            r.range.end == usize::MAX,
            r.text == text,
    {
        Self { range: ReplacementRange { start: usize::MAX, end: usize::MAX }, text }
    }
}

/// One entry of the completion popup.
#[derive(Debug)]
pub struct CompletionItem {
    pub label: String,
    pub replacement: Replacement,
    pub source: CompletionSource,
}

impl Clone for Replacement {
    fn clone(&self) -> (r: Self)
        ensures
            r == *self,
    {
        Replacement { range: self.range, text: self.text.clone() }
    }
}

impl Clone for CompletionItem {
    fn clone(&self) -> (r: Self)
        ensures
            r == *self,
    {
        CompletionItem { label: self.label.clone(), replacement: self.replacement.clone(), source: self.source }
    }
}

impl CompletionItem {
    /// The item with its replacement range set to `range`, as the completion
    /// stream of a path does for the part of the query the path came from.
    pub fn with_range(self, range: ReplacementRange) -> (r: Self)
        ensures
            r.label == self.label,
            r.replacement.text == self.replacement.text,
            r.replacement.range == range,
            r.source == self.source,
    {
        CompletionItem {
            label: self.label,
            replacement: Replacement { range, text: self.replacement.text },
            source: self.source,
        }
    }
}

/// Identifies one completion session.
#[derive(Debug, Clone, Copy, PartialEq, Eq, Hash, Structural)]
pub struct CompletionSessionId(pub u64);

/// What the completion worker answers.
#[derive(Debug)]
pub enum CompletionResponse {
    Batch {
        session_id: CompletionSessionId,
        items: Vec<CompletionItem>,
        has_more: bool,
        total_so_far: usize,
    },
    Cancelled {
        session_id: CompletionSessionId,
    },
}

/// What the UI asks of the completion worker.
pub enum CompletionRequest {
    /// Start a new completion session
    StartCompletion {
        session_id: CompletionSessionId,
        query: String,
        cursor_pos: usize,
    },
    /// Request more completions from current session
    ContinueCompletion {
        session_id: CompletionSessionId,
    },
    /// Cancel current completion session
    CancelCompletion {
        session_id: CompletionSessionId,
    },
}

} // verus!
