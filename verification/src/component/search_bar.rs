//! The search bar: the query, the completion popup's state, and the decisions of
//! each frame (when to ask for completions, which key does what, when to start a
//! search).
use vstd::prelude::*;
use vstd::string::*;
use vstd::utf8::encode_utf8;
use crate::completion::{CompletionItem, CompletionSessionId};
use crate::completion::state::{CompletionState, CompletionStateView};
use crate::search_mode::SearchMode;
use crate::text::{is_boundary_range, replace_byte_range, replaced_bytes, same_text};

verus! {

broadcast use vstd::string::group_string_axioms;

/// The state behind the search bar.
pub struct SearchBar {
    raw_search_query: String,
    request_focus: bool,
    completion: CompletionState,
    // Debouncing
    last_query: String,
    last_cursor_pos: usize,
    /// When the query or the cursor last changed, in milliseconds
    last_change_time: Option<u64>,
    pending_completion_request: bool,
    current_cursor: usize,
    /// The cursor at which the user dismissed the popup; no popup there
    ignore_cursor: Option<usize>,
    should_apply_completion: bool,
}

/// What the search bar is drawn from.
pub struct SearchBarProps<'a> {
    pub search_mode: &'a SearchMode,
    pub draw_separate_line: bool,
}

/// What a frame of the search bar reports.
pub struct SearchBarOutput {
    pub events: Vec<SearchBarEvent>,
}

/// What happened in the search bar.
pub enum SearchBarEvent {
    StartSearch(String),
    RequestCompletion { session_id: CompletionSessionId, query: String, cursor_pos: usize },
    ContinueCompletion { session_id: CompletionSessionId },
    CancelCompletion { session_id: CompletionSessionId },
}

/// The keys the completion popup answers to.
#[derive(Debug, Clone, Copy, PartialEq, Eq, Structural)]
pub enum CompletionKey {
    Escape,
    ArrowDown,
    ArrowUp,
    Tab,
    Enter,
}

/// The search bar as its users see it.
pub struct SearchBarView {
    pub query: Seq<char>,
    pub request_focus: bool,
    pub completion: CompletionStateView,
    pub last_query: Seq<char>,
    pub last_cursor_pos: usize,
    pub last_change_time: Option<u64>,
    pub pending_completion_request: bool,
    pub current_cursor: usize,
    pub ignore_cursor: Option<usize>,
    pub should_apply_completion: bool,
}

impl View for SearchBar {
    type V = SearchBarView;

    closed spec fn view(&self) -> SearchBarView {
        SearchBarView {
            query: self.raw_search_query@,
            request_focus: self.request_focus,
            completion: self.completion@,
            last_query: self.last_query@,
            last_cursor_pos: self.last_cursor_pos,
            last_change_time: self.last_change_time,
            pending_completion_request: self.pending_completion_request,
            current_cursor: self.current_cursor,
            ignore_cursor: self.ignore_cursor,
            should_apply_completion: self.should_apply_completion,
        }
    }
}

/// The item a completion applies: the selected one when the selection is an
/// item, else the first item, if any.
pub open spec fn chosen_item(items: Seq<CompletionItem>, selected: Option<usize>) -> Option<CompletionItem> {
    if selected is Some && (selected->0 as int) < items.len() {
        Some(items[selected->0 as int])
    } else if items.len() > 0 {
        Some(items[0])
    } else {
        None
    }
}

/// Whether `item` can replace its range of `query`: the range lies in the
/// query's bytes and on character boundaries (else `String::replace_range`
/// panics), and the result's length fits in a `usize`.
pub open spec fn applicable(query: Seq<char>, item: CompletionItem) -> bool {
    &&& is_boundary_range(
        encode_utf8(query),
        item.replacement.range.start as int,
        item.replacement.range.end as int,
    )
    &&& encode_utf8(query).len() + encode_utf8(item.replacement.text@).len() <= usize::MAX
}

/// Whether the byte length of each item's text fits in a `usize`.
pub open spec fn texts_fit(items: Seq<CompletionItem>) -> bool {
    forall|i: int| 0 <= i < items.len() ==> encode_utf8((#[trigger] items[i]).replacement.text@).len() <= usize::MAX
}

/// Whether the popup is in use: it has items, and the user has not dismissed it
/// at the current cursor.
pub open spec fn handles_completion(v: SearchBarView) -> bool {
    v.ignore_cursor != Some(v.current_cursor) && v.completion.items.len() > 0
}

/// The milliseconds from `then` to `now`, or 0 when `now` comes first.
pub open spec fn elapsed(then: u64, now: u64) -> int {
    if now >= then { now - then } else { 0 }
}

impl SearchBar {
    /// The selection always leaves room to move one item down, and the query's
    /// length in bytes fits in a `usize`.
    pub closed spec fn wf(&self) -> bool {
        &&& self.completion@.selected matches Some(i) ==> i < usize::MAX
        &&& encode_utf8(self.raw_search_query@).len() <= usize::MAX
        &&& texts_fit(self.completion@.items)
    }

    /// The query as typed.
    pub fn query(&self) -> (q: &str)
        ensures
            q@ == self@.query,
    {
        self.raw_search_query.as_str()
    }

    /// Replace the query with what the text field holds after an edit.
    pub fn set_query(&mut self, query: String)
        requires
            old(self).wf(),
            encode_utf8(query@).len() <= usize::MAX,
        ensures
            final(self).wf(),
            final(self)@ == (SearchBarView { query: query@, ..old(self)@ }),
    {
        self.raw_search_query = query;
    }

    /// The completion popup's state, to draw it.
    pub fn completion(&self) -> (c: &CompletionState)
        ensures
            c@ == self@.completion,
    {
        &self.completion
    }

    /// Ask for the keyboard focus at the next frame.
    pub fn request_focus(&mut self)
        ensures
            final(self)@ == (SearchBarView { request_focus: true, ..old(self)@ }),
    {
        self.request_focus = true;
    }

    /// Whether the focus was asked for; the request is then used up.
    pub fn take_focus_request(&mut self) -> (b: bool)
        ensures
            b == old(self)@.request_focus,
            final(self)@ == (SearchBarView { request_focus: false, ..old(self)@ }),
    {
        let b = self.request_focus;
        self.request_focus = false;
        b
    }

    /// Whether a completion request waits for the query to settle.
    pub fn pending_completion_request(&self) -> (b: bool)
        ensures
            b == self@.pending_completion_request,
    {
        self.pending_completion_request
    }

    /// Whether a completion is to be applied at the next frame.
    pub fn should_apply_completion(&self) -> (b: bool)
        ensures
            b == self@.should_apply_completion,
    {
        self.should_apply_completion
    }

    /// Take a batch of completion items from the worker.
    pub fn receive_completion_batch(
        &mut self,
        session_id: CompletionSessionId,
        items: Vec<CompletionItem>,
        has_more: bool,
    )
        requires
            old(self).wf(),
            texts_fit(items@),
        ensures
            final(self).wf(),
            final(self)@.query == old(self)@.query,
            final(self)@.current_cursor == old(self)@.current_cursor,
            final(self)@.ignore_cursor == old(self)@.ignore_cursor,
            final(self)@.should_apply_completion == old(self)@.should_apply_completion,
            final(self)@.pending_completion_request == old(self)@.pending_completion_request,
            final(self)@.completion.session_id == old(self)@.completion.session_id,
            final(self)@.completion.session_counter == old(self)@.completion.session_counter,
            old(self)@.completion.session_id != Some(session_id) ==> final(self)@ == old(self)@,
            old(self)@.completion.session_id == Some(session_id) ==> {
                let (new_items, new_selected, new_pending) =
                    old(self)@.completion.after_batch(session_id, items@, has_more);
                &&& final(self)@.completion.items == new_items
                &&& final(self)@.completion.selected == new_selected
                &&& final(self)@.completion.pending_replace_session == new_pending
                &&& final(self)@.completion.has_more == has_more
                &&& final(self)@.completion.loading == has_more
            },
    {
        self.completion.receive_batch(session_id, items, has_more);
    }

    /// The worker cancelled a completion session.
    pub fn completion_cancelled(&mut self, session_id: CompletionSessionId)
        requires
            old(self).wf(),
        ensures
            final(self).wf(),
            final(self)@.query == old(self)@.query,
            final(self)@.completion.items == old(self)@.completion.items,
            final(self)@.completion.selected == old(self)@.completion.selected,
            final(self)@.completion.session_id == old(self)@.completion.session_id,
            old(self)@.completion.session_id == Some(session_id) ==> {
                &&& !final(self)@.completion.loading
                &&& !final(self)@.completion.has_more
            },
            old(self)@.completion.session_id != Some(session_id) ==> final(self)@ == old(self)@,
    {
        self.completion.cancel(session_id);
    }

    /// Whether the popup is in use: it has items, and the user has not
    /// dismissed it at the current cursor.
    pub fn should_handle_completion(&self) -> (b: bool)
        ensures
            b == handles_completion(self@),
    {
        if self.ignore_cursor == Some(self.current_cursor) {
            return false;
        }
        if self.completion.items().len() == 0 {
            return false;
        }
        true
    }

    /// Whether the chosen completion item, if any, can be applied to the query.
    pub fn completion_applicable(&self) -> (b: bool)
        requires
            self.wf(),
        ensures
            b == (chosen_item(self@.completion.items, self@.completion.selected) matches Some(item)
                ==> applicable(self@.query, item)),
    {
        match self.chosen() {
            None => true,
            Some(item) => {
                let q = self.raw_search_query.as_str();
                let start = item.replacement.range.start;
                let end = item.replacement.range.end;
                let qlen = q.len();
                let tlen = item.replacement.text.as_str().len();
                if start > end || end > qlen {
                    return false;
                }
                if !q.is_char_boundary(start) || !q.is_char_boundary(end) {
                    return false;
                }
                qlen <= usize::MAX - tlen
            },
        }
    }

    fn chosen(&self) -> (r: Option<&CompletionItem>)
        ensures
            r matches Some(item) ==> chosen_item(self@.completion.items, self@.completion.selected) == Some(*item),
            r is None ==> chosen_item(self@.completion.items, self@.completion.selected) is None,
    {
        let n = self.completion.items().len();
        match self.completion.selected() {
            Some(i) => {
                if i < n {
                    return Some(&self.completion.items()[i]);
                }
            },
            None => {},
        }
        if n > 0 {
            Some(&self.completion.items()[0])
        } else {
            None
        }
    }

    /// Apply the chosen completion item: its text replaces its byte range of
    /// the query and the popup is cleared. Gives the byte offset where the
    /// cursor goes, after the inserted text; with no item, nothing changes.
    pub fn apply_completion(&mut self) -> (r: Option<usize>)
        requires
            old(self).wf(),
            chosen_item(old(self)@.completion.items, old(self)@.completion.selected) matches Some(item)
                ==> applicable(old(self)@.query, item),
        ensures
            final(self).wf(),
            match chosen_item(old(self)@.completion.items, old(self)@.completion.selected) {
                None => r is None && final(self)@ == old(self)@,
                Some(item) => {
                    &&& encode_utf8(final(self)@.query) == replaced_bytes(
                        encode_utf8(old(self)@.query),
                        item.replacement.range.start as int,
                        item.replacement.range.end as int,
                        encode_utf8(item.replacement.text@),
                    )
                    &&& r == Some((item.replacement.range.start + encode_utf8(item.replacement.text@).len()) as usize)
                    &&& final(self)@ == (SearchBarView {
                        query: final(self)@.query,
                        completion: old(self)@.completion.cleared(),
                        ..old(self)@
                    })
                },
            },
    {
        let picked = match self.chosen() {
            Some(item) => Some(item.clone()),
            None => None,
        };
        match picked {
            None => None,
            Some(item) => {
                let start = item.replacement.range.start;
                let end = item.replacement.range.end;
                let text = item.replacement.text.as_str();
                let new_cursor = start + text.len();
                let q = replace_byte_range(self.raw_search_query.as_str(), start, end, text);
                self.raw_search_query = q;
                self.completion.clear();
                proof {
                    assert(self.completion@.items =~= Seq::<CompletionItem>::empty());
                }
                Some(new_cursor)
            },
        }
    }

    /// A key pressed while the popup is in use: Escape dismisses the popup at
    /// this cursor and cancels its session, the arrows move the selection, Tab
    /// (and Enter, when an item is selected) applies the completion at the next
    /// frame. When the popup is not in use, nothing changes.
    pub fn handle_completion_keyboard(&mut self, key: CompletionKey) -> (e: Option<SearchBarEvent>)
        requires
            old(self).wf(),
        ensures
            final(self).wf(),
            !handles_completion(old(self)@) ==> final(self)@ == old(self)@ && e is None,
            handles_completion(old(self)@) ==> match key {
                CompletionKey::Escape => {
                    &&& final(self)@ == (SearchBarView {
                        ignore_cursor: Some(old(self)@.current_cursor),
                        completion: old(self)@.completion.cleared(),
                        ..old(self)@
                    })
                    &&& match old(self)@.completion.session_id {
                        Some(id) => e matches Some(SearchBarEvent::CancelCompletion { session_id }) && session_id == id,
                        None => e is None,
                    }
                },
                CompletionKey::ArrowDown => e is None && final(self)@ == (SearchBarView {
                    completion: CompletionStateView {
                        selected: old(self)@.completion.next_selected(),
                        ..old(self)@.completion
                    },
                    ..old(self)@
                }),
                CompletionKey::ArrowUp => e is None && final(self)@ == (SearchBarView {
                    completion: CompletionStateView {
                        selected: old(self)@.completion.prev_selected(),
                        ..old(self)@.completion
                    },
                    ..old(self)@
                }),
                CompletionKey::Tab => e is None && final(self)@ == (SearchBarView {
                    should_apply_completion: true,
                    ..old(self)@
                }),
                CompletionKey::Enter => e is None && final(self)@ == (SearchBarView {
                    should_apply_completion: old(self)@.should_apply_completion
                        || old(self)@.completion.selected is Some,
                    ..old(self)@
                }),
            },
    {
        if !self.should_handle_completion() {
            return None;
        }
        match key {
            CompletionKey::Escape => {
                self.ignore_cursor = Some(self.current_cursor);
                let event = match self.completion.session_id() {
                    Some(session_id) => Some(SearchBarEvent::CancelCompletion { session_id }),
                    None => None,
                };
                self.completion.clear();
                proof {
                    assert(self.completion@.items =~= Seq::<CompletionItem>::empty());
                }
                event
            },
            CompletionKey::ArrowDown => {
                proof {
                    self.completion.lemma_items_len_fits();
                }
                self.completion.select_next();
                None
            },
            CompletionKey::ArrowUp => {
                self.completion.select_prev();
                None
            },
            CompletionKey::Tab => {
                self.should_apply_completion = true;
                None
            },
            CompletionKey::Enter => {
                if self.completion.selected().is_some() {
                    self.should_apply_completion = true;
                }
                None
            },
        }
    }

    /// Whether to ask for completions now. A change of the query or of the
    /// cursor since the last call is recorded at `now_ms` and makes a request
    /// pending; a pending request is due once `debounce_ms` have passed since
    /// the last change, and is then no longer pending.
    pub fn should_request_completion(&mut self, query: &str, cursor_pos: usize, now_ms: u64, debounce_ms: u64) -> (b: bool)
        requires
            old(self).wf(),
        ensures
            final(self).wf(),
            ({
                let changed = query@ != old(self)@.last_query || cursor_pos != old(self)@.last_cursor_pos;
                let last_change = if changed { Some(now_ms) } else { old(self)@.last_change_time };
                let pending = changed || old(self)@.pending_completion_request;
                let due = pending && (last_change matches Some(t) && elapsed(t, now_ms) >= debounce_ms);
                &&& b == due
                &&& final(self)@ == (SearchBarView {
                    last_query: if changed { query@ } else { old(self)@.last_query },
                    last_cursor_pos: if changed { cursor_pos } else { old(self)@.last_cursor_pos },
                    last_change_time: last_change,
                    pending_completion_request: pending && !due,
                    ..old(self)@
                })
            }),
    {
        let query_changed = !same_text(query, self.last_query.as_str());
        let cursor_changed = cursor_pos != self.last_cursor_pos;

        if query_changed || cursor_changed {
            self.last_query = String::from_str(query);
            self.last_cursor_pos = cursor_pos;
            self.last_change_time = Some(now_ms);
            self.pending_completion_request = true;
        }
        if self.pending_completion_request {
            match self.last_change_time {
                Some(last_change) => {
                    let waited = if now_ms >= last_change { now_ms - last_change } else { 0 };
                    if waited >= debounce_ms {
                        self.pending_completion_request = false;
                        return true;
                    }
                },
                None => {},
            }
        }
        false
    }

    /// The part of a frame in rule mode that follows the text field, with the
    /// cursor's byte offset: a moved cursor is recorded and lifts a dismissal;
    /// then, when a request is due, the current session is cancelled and a new
    /// one is asked for, keeping the shown items until its first batch.
    pub fn completion_frame(&mut self, cursor_pos: usize, now_ms: u64, debounce_ms: u64) -> (events: Vec<SearchBarEvent>)
        requires
            old(self).wf(),
            old(self)@.completion.session_counter < u64::MAX,
        ensures
            final(self).wf(),
            final(self)@.query == old(self)@.query,
            final(self)@.current_cursor == cursor_pos,
            final(self)@.ignore_cursor == (if old(self)@.current_cursor != cursor_pos { None } else { old(self)@.ignore_cursor }),
            ({
                let changed = old(self)@.query != old(self)@.last_query || cursor_pos != old(self)@.last_cursor_pos;
                let last_change = if changed { Some(now_ms) } else { old(self)@.last_change_time };
                let pending = changed || old(self)@.pending_completion_request;
                let due = pending && (last_change matches Some(t) && elapsed(t, now_ms) >= debounce_ms);
                let c = old(self)@.completion;
                &&& final(self)@.last_query == (if changed { old(self)@.query } else { old(self)@.last_query })
                &&& final(self)@.last_cursor_pos == (if changed { cursor_pos } else { old(self)@.last_cursor_pos })
                &&& final(self)@.last_change_time == last_change
                &&& final(self)@.request_focus == old(self)@.request_focus
                &&& final(self)@.should_apply_completion == old(self)@.should_apply_completion
                &&& final(self)@.pending_completion_request == (pending && !due)
                &&& !due ==> events@.len() == 0 && final(self)@.completion == c
                &&& due ==> {
                    let id = CompletionSessionId((c.session_counter + 1) as u64);
                    let request = events@.last();
                    &&& final(self)@.completion == (CompletionStateView {
                        session_id: Some(id),
                        session_counter: (c.session_counter + 1) as u64,
                        loading: true,
                        has_more: false,
                        pending_replace_session: Some(id),
                        ..c
                    })
                    &&& events@.len() == (if c.session_id is Some { 2int } else { 1int })
                    &&& c.session_id matches Some(old_id) ==> events@[0] matches SearchBarEvent::CancelCompletion { session_id } && session_id == old_id
                    &&& request matches SearchBarEvent::RequestCompletion { session_id, query, cursor_pos: p }
                        && session_id == id && query@ == old(self)@.query && p == cursor_pos
                }
            }),
    {
        let mut events: Vec<SearchBarEvent> = Vec::new();
        if self.current_cursor != cursor_pos {
            self.current_cursor = cursor_pos;
            self.ignore_cursor = None;
        }
        let query = self.raw_search_query.clone();
        if self.should_request_completion(query.as_str(), cursor_pos, now_ms, debounce_ms) {
            match self.completion.session_id() {
                Some(old_session_id) => {
                    events.push(SearchBarEvent::CancelCompletion { session_id: old_session_id });
                },
                None => {},
            }
            let session_id = self.completion.new_session_id();
            self.completion.start_session_preserve_items(session_id);
            events.push(SearchBarEvent::RequestCompletion { session_id, query, cursor_pos });
        }
        events
    }

    /// Ask for the next batch when the popup is in use, nothing is loading, the
    /// session has more, and the list is scrolled near its end.
    pub fn continue_completion(&mut self, near_end: bool) -> (e: Option<SearchBarEvent>)
        requires
            old(self).wf(),
        ensures
            final(self).wf(),
            ({
                let c = old(self)@.completion;
                let go = handles_completion(old(self)@) && !c.loading && c.has_more && c.session_id is Some && near_end;
                &&& go ==> {
                    &&& e matches Some(SearchBarEvent::ContinueCompletion { session_id }) && Some(session_id) == c.session_id
                    &&& final(self)@ == (SearchBarView { completion: CompletionStateView { loading: true, ..c }, ..old(self)@ })
                }
                &&& !go ==> e is None && final(self)@ == old(self)@
            }),
    {
        if !self.should_handle_completion() || self.completion.loading() || !self.completion.has_more() || !near_end {
            return None;
        }
        match self.completion.session_id() {
            Some(session_id) => {
                self.completion.mark_loading();
                Some(SearchBarEvent::ContinueCompletion { session_id })
            },
            None => None,
        }
    }

    /// Enter in the text field starts a search for the query, unless a
    /// completion item is selected.
    pub fn search_on_enter(&self, enter_pressed: bool) -> (e: Option<SearchBarEvent>)
        ensures
            (enter_pressed && self@.completion.selected is None) ==> (e matches Some(SearchBarEvent::StartSearch(q)) && q@ == self@.query),
            !(enter_pressed && self@.completion.selected is None) ==> e is None,
    {
        if enter_pressed && self.completion.selected().is_none() {
            Some(SearchBarEvent::StartSearch(self.raw_search_query.clone()))
        } else {
            None
        }
    }

    /// Mark the completion as applied.
    pub fn completion_applied(&mut self)
        ensures
            final(self)@ == (SearchBarView { should_apply_completion: false, ..old(self)@ }),
    {
        self.should_apply_completion = false;
    }
}

impl Default for SearchBar {
    fn default() -> (b: Self)
        ensures
            b.wf(),
            b@.query.len() == 0,
            !b@.request_focus,
            b@.completion.items.len() == 0,
            b@.completion.selected is None,
            b@.completion.session_id is None,
            b@.completion.session_counter == 0,
            b@.last_query.len() == 0,
            b@.last_cursor_pos == 0,
            b@.last_change_time is None,
            !b@.pending_completion_request,
            b@.current_cursor == 0,
            b@.ignore_cursor is None,
            !b@.should_apply_completion,
    {
        SearchBar {
            raw_search_query: String::new(),
            request_focus: false,
            completion: CompletionState::default(),
            last_query: String::new(),
            last_cursor_pos: 0,
            last_change_time: None,
            pending_completion_request: false,
            current_cursor: 0,
            ignore_cursor: None,
            should_apply_completion: false,
        }
    }
}

} // verus!
