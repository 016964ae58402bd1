//! UI state for streaming completions.
use vstd::prelude::*;
use super::{CompletionItem, CompletionSessionId};

verus! {

/// The completion popup's state: the items collected so far, the selection and
/// the session whose batches are accepted.
pub struct CompletionState {
    /// All collected items so far
    pub items: Vec<CompletionItem>,
    /// Selected index
    pub selected: Option<usize>,
    pub session_id: Option<CompletionSessionId>,
    session_counter: u64,
    /// More items available
    pub has_more: bool,
    /// Loading more items
    pub loading: bool,
    /// The session ID that should replace items (if any)
    pending_replace_session: Option<CompletionSessionId>,
}

/// The abstract state: every field, the private ones included.
pub struct CompletionStateView {
    pub items: Seq<CompletionItem>,
    pub selected: Option<usize>,
    pub session_id: Option<CompletionSessionId>,
    pub session_counter: u64,
    pub has_more: bool,
    pub loading: bool,
    pub pending_replace_session: Option<CompletionSessionId>,
}

impl View for CompletionState {
    type V = CompletionStateView;

    closed spec fn view(&self) -> CompletionStateView {
        CompletionStateView {
            items: self.items@,
            selected: self.selected,
            session_id: self.session_id,
            session_counter: self.session_counter,
            has_more: self.has_more,
            loading: self.loading,
            pending_replace_session: self.pending_replace_session,
        }
    }
}

impl CompletionStateView {
    /// The items, selection and pending session after a batch of `items` arrived
    /// for `session_id`, which is the current session.
    pub open spec fn after_batch(
        self,
        session_id: CompletionSessionId,
        items: Seq<CompletionItem>,
        has_more: bool,
    ) -> (Seq<CompletionItem>, Option<usize>, Option<CompletionSessionId>) {
        if self.pending_replace_session == Some(session_id) {
            if items.len() > 0 {
                (items, Some(0usize), None)
            } else if !has_more {
                (Seq::empty(), None, None)
            } else {
                (self.items, self.selected, self.pending_replace_session)
            }
        } else {
            let joined = self.items + items;
            let selected = if self.items.len() == 0 && joined.len() > 0 {
                Some(0usize)
            } else {
                self.selected
            };
            (joined, selected, self.pending_replace_session)
        }
    }
}

impl CompletionStateView {
    /// The state with no items, no selection and no session; the counter stays.
    pub open spec fn cleared(self) -> CompletionStateView {
        CompletionStateView {
            items: Seq::empty(),
            selected: None,
            session_id: None,
            has_more: false,
            loading: false,
            pending_replace_session: None,
            ..self
        }
    }

    /// The selection one item down, stopping at the last item.
    pub open spec fn next_selected(self) -> Option<usize> {
        if self.items.len() == 0 {
            self.selected
        } else {
            match self.selected {
                Some(i) => Some(
                    if i + 1 < self.items.len() { (i + 1) as usize } else { (self.items.len() - 1) as usize },
                ),
                None => Some(0usize),
            }
        }
    }

    /// The selection one item up, stopping at the first item.
    pub open spec fn prev_selected(self) -> Option<usize> {
        if self.items.len() == 0 {
            self.selected
        } else {
            match self.selected {
                Some(i) => Some(if i == 0 { 0usize } else { (i - 1) as usize }),
                None => Some(0usize),
            }
        }
    }
}

impl CompletionState {
    /// The number of items fits in a `usize`.
    pub proof fn lemma_items_len_fits(&self)
        ensures
            self@.items.len() <= usize::MAX,
    {
        assert(self.items.len() == self.items@.len());
    }

    /// The items collected so far.
    pub fn items(&self) -> (v: &Vec<CompletionItem>)
        ensures
            v@ == self@.items,
    {
        &self.items
    }

    /// The selected item's index.
    pub fn selected(&self) -> (i: Option<usize>)
        ensures
            i == self@.selected,
    {
        self.selected
    }

    /// The session whose batches are accepted.
    pub fn session_id(&self) -> (id: Option<CompletionSessionId>)
        ensures
            id == self@.session_id,
    {
        self.session_id
    }

    /// Whether more items may come.
    pub fn has_more(&self) -> (b: bool)
        ensures
            b == self@.has_more,
    {
        self.has_more
    }

    /// Whether a batch is on its way.
    pub fn loading(&self) -> (b: bool)
        ensures
            b == self@.loading,
    {
        self.loading
    }

    /// Record that the next batch was asked for.
    pub fn mark_loading(&mut self)
        ensures
            final(self)@ == (CompletionStateView { loading: true, ..old(self)@ }),
    {
        self.loading = true;
    }

    /// The number of session ids issued so far.
    pub fn issued_session_count(&self) -> (n: u64)
        ensures
            n == self@.session_counter,
    {
        self.session_counter
    }

    /// Issue a fresh session id: the ids are 1, 2, 3, ... in order of issue.
    pub fn new_session_id(&mut self) -> (id: CompletionSessionId)
        requires
            old(self)@.session_counter < u64::MAX,
        ensures
            final(self)@.session_counter == old(self)@.session_counter + 1,
            id.0 == final(self)@.session_counter,
            final(self)@.items == old(self)@.items,
            final(self)@.selected == old(self)@.selected,
            final(self)@.session_id == old(self)@.session_id,
            final(self)@.has_more == old(self)@.has_more,
            final(self)@.loading == old(self)@.loading,
            final(self)@.pending_replace_session == old(self)@.pending_replace_session,
    {
        self.session_counter = self.session_counter + 1;
        CompletionSessionId(self.session_counter)
    }

    /// Start a session that drops the shown items at once.
    pub fn start_session(&mut self, id: CompletionSessionId)
        ensures
            final(self)@.items.len() == 0,
            final(self)@.selected is None,
            final(self)@.session_id == Some(id),
            final(self)@.has_more,
            final(self)@.loading,
            final(self)@.pending_replace_session is None,
            final(self)@.session_counter == old(self)@.session_counter,
    {
        self.items.clear();
        self.selected = None;
        self.session_id = Some(id);
        self.has_more = true;
        self.loading = true;
        self.pending_replace_session = None;
    }

    /// Start a new session but keep showing old items until first non-empty batch arrives.
    /// This prevents the popup from blinking during typing.
    pub fn start_session_preserve_items(&mut self, session_id: CompletionSessionId)
        ensures
            final(self)@.items == old(self)@.items,
            final(self)@.selected == old(self)@.selected,
            final(self)@.session_id == Some(session_id),
            final(self)@.loading,
            !final(self)@.has_more,
            final(self)@.pending_replace_session == Some(session_id),
            final(self)@.session_counter == old(self)@.session_counter,
    {
        self.session_id = Some(session_id);
        self.loading = true;
        self.has_more = false;
        self.pending_replace_session = Some(session_id);
    }

    /// Take a batch of items. A batch of another session than the current one is
    /// ignored. The first non-empty batch of a session started with
    /// `start_session_preserve_items` replaces the shown items; later batches are
    /// appended.
    pub fn receive_batch(
        &mut self,
        session_id: CompletionSessionId,
        items: Vec<CompletionItem>,
        has_more: bool,
    )
        ensures
            old(self)@.session_id != Some(session_id) ==> {
                &&& final(self)@.items == old(self)@.items
                &&& final(self)@.selected == old(self)@.selected
                &&& final(self)@.has_more == old(self)@.has_more
                &&& final(self)@.loading == old(self)@.loading
                &&& final(self)@.pending_replace_session == old(self)@.pending_replace_session
            },
            old(self)@.session_id == Some(session_id) ==> {
                let (new_items, new_selected, new_pending) =
                    old(self)@.after_batch(session_id, items@, has_more);
                &&& final(self)@.items == new_items
                &&& final(self)@.selected == new_selected
                &&& final(self)@.pending_replace_session == new_pending
                &&& final(self)@.has_more == has_more
                &&& final(self)@.loading == has_more
            },
            final(self)@.session_id == old(self)@.session_id,
            final(self)@.session_counter == old(self)@.session_counter,
    {
        if self.session_id != Some(session_id) {
            return;
        }
        let should_replace = self.pending_replace_session == Some(session_id);

        if should_replace {
            if items.len() > 0 {
                self.items = items;
                self.selected = Some(0);
                self.pending_replace_session = None;
            } else if !has_more {
                self.items.clear();
                self.selected = None;
                self.pending_replace_session = None;
            }
        } else {
            let was_empty = self.items.len() == 0;
            let mut items = items;
            self.items.append(&mut items);
            if was_empty && self.items.len() > 0 {
                self.selected = Some(0);
            }
        }
        self.has_more = has_more;
        self.loading = has_more;
    }

    /// Stop loading for the current session; another session is left alone.
    pub fn cancel(&mut self, session_id: CompletionSessionId)
        ensures
            final(self)@.items == old(self)@.items,
            final(self)@.selected == old(self)@.selected,
            final(self)@.session_id == old(self)@.session_id,
            final(self)@.session_counter == old(self)@.session_counter,
            old(self)@.session_id == Some(session_id) ==> {
                &&& !final(self)@.loading
                &&& !final(self)@.has_more
                &&& final(self)@.pending_replace_session == (if old(self)@.pending_replace_session == Some(
                    session_id,
                ) {
                    None
                } else {
                    old(self)@.pending_replace_session
                })
            },
            old(self)@.session_id != Some(session_id) ==> {
                &&& final(self)@.loading == old(self)@.loading
                &&& final(self)@.has_more == old(self)@.has_more
                &&& final(self)@.pending_replace_session == old(self)@.pending_replace_session
            },
    {
        if self.session_id == Some(session_id) {
            self.loading = false;
            self.has_more = false;
            if self.pending_replace_session == Some(session_id) {
                self.pending_replace_session = None;
            }
        }
    }

    /// Forget the items, the selection and the session.
    pub fn clear(&mut self)
        ensures
            final(self)@.items.len() == 0,
            final(self)@.selected is None,
            final(self)@.session_id is None,
            !final(self)@.has_more,
            !final(self)@.loading,
            final(self)@.pending_replace_session is None,
            final(self)@.session_counter == old(self)@.session_counter,
    {
        self.items.clear();
        self.selected = None;
        self.session_id = None;
        self.has_more = false;
        self.loading = false;
        self.pending_replace_session = None;
    }

    /// Move the selection one item down, stopping at the last item.
    pub fn select_next(&mut self)
        requires
            old(self)@.selected matches Some(i) ==> i < usize::MAX,
        ensures
            final(self)@.items == old(self)@.items,
            final(self)@.session_id == old(self)@.session_id,
            final(self)@.has_more == old(self)@.has_more,
            final(self)@.loading == old(self)@.loading,
            final(self)@.pending_replace_session == old(self)@.pending_replace_session,
            final(self)@.session_counter == old(self)@.session_counter,
            final(self)@.selected == (if old(self)@.items.len() == 0 {
                old(self)@.selected
            } else {
                match old(self)@.selected {
                    Some(i) => Some(
                        if i + 1 < old(self)@.items.len() { (i + 1) as usize } else { (old(self)@.items.len() - 1) as usize },
                    ),
                    None => Some(0usize),
                }
            }),
    {
        if self.items.len() == 0 {
            return;
        }
        let last = self.items.len() - 1;
        self.selected = Some(match self.selected {
            Some(i) => if i + 1 < last { i + 1 } else { last },
            None => 0,
        });
    }

    /// Move the selection one item up, stopping at the first item.
    pub fn select_prev(&mut self)
        ensures
            final(self)@.items == old(self)@.items,
            final(self)@.session_id == old(self)@.session_id,
            final(self)@.has_more == old(self)@.has_more,
            final(self)@.loading == old(self)@.loading,
            final(self)@.pending_replace_session == old(self)@.pending_replace_session,
            final(self)@.session_counter == old(self)@.session_counter,
            final(self)@.selected == (if old(self)@.items.len() == 0 {
                old(self)@.selected
            } else {
                match old(self)@.selected {
                    Some(i) => Some(if i == 0 { 0usize } else { (i - 1) as usize }),
                    None => Some(0usize),
                }
            }),
    {
        if self.items.len() == 0 {
            return;
        }
        self.selected = Some(match self.selected {
            Some(0) | None => 0,
            Some(i) => i - 1,
        });
    }
}

impl Default for CompletionState {
    fn default() -> (s: Self)
        ensures
            s@.items.len() == 0,
            s@.selected is None,
            s@.session_id is None,
            s@.session_counter == 0,
            !s@.has_more,
            !s@.loading,
            s@.pending_replace_session is None,
    {
        CompletionState {
            items: Vec::new(),
            selected: None,
            session_id: None,
            session_counter: 0,
            has_more: false,
            loading: false,
            pending_replace_session: None,
        }
    }
}

/// The number of ids issued in a run: the `true` steps.
pub open spec fn count_issued(issued: Seq<bool>) -> nat
    decreases issued.len(),
{
    if issued.len() == 0 {
        0
    } else {
        count_issued(issued.drop_last()) + if issued.last() { 1nat } else { 0nat }
    }
}

proof fn lemma_counter_counts(states: Seq<CompletionStateView>, issued: Seq<bool>, i: int)
    requires
        states.len() == issued.len() + 1,
        states[0].session_counter == 0,
        forall|k: int| 0 <= k < issued.len() ==> #[trigger] states[k + 1].session_counter
            == states[k].session_counter + (if issued[k] { 1int } else { 0int }),
        0 <= i < states.len(),
    ensures
        states[i].session_counter == count_issued(issued.take(i)),
    decreases i,
{
    if i == 0 {
        assert(issued.take(0) =~= Seq::<bool>::empty());
    } else {
        lemma_counter_counts(states, issued, i - 1);
        assert(issued.take(i).drop_last() =~= issued.take(i - 1));
        assert(issued.take(i).last() == issued[i - 1]);
        assert(states[(i - 1) + 1].session_counter == states[i - 1].session_counter
            + (if issued[i - 1] { 1int } else { 0int }));
    }
}

proof fn lemma_counter_grows(states: Seq<CompletionStateView>, issued: Seq<bool>, a: int, b: int)
    requires
        states.len() == issued.len() + 1,
        forall|k: int| 0 <= k < issued.len() ==> #[trigger] states[k + 1].session_counter
            == states[k].session_counter + (if issued[k] { 1int } else { 0int }),
        0 <= a <= b < states.len(),
    ensures
        states[a].session_counter <= states[b].session_counter,
    decreases b - a,
{
    if a < b {
        lemma_counter_grows(states, issued, a, b - 1);
        assert(states[(b - 1) + 1].session_counter >= states[b - 1].session_counter);
    }
}

/// The ids one completion state hands out count up from 1 and never repeat.
/// Take any run of calls from a fresh state, `states` the state before each
/// call and after the last, `issued` which calls issue an id: `new_session_id`
/// adds one to the count of ids issued and hands out the new count, every
/// other method leaves the count alone. Then the count before each call is
/// the number of ids issued so far, and an id issued later is larger.
pub proof fn lemma_ids_count_up(states: Seq<CompletionStateView>, issued: Seq<bool>)
    requires
        states.len() == issued.len() + 1,
        states[0].session_counter == 0,
        forall|k: int| 0 <= k < issued.len() ==> #[trigger] states[k + 1].session_counter
            == states[k].session_counter + (if issued[k] { 1int } else { 0int }),
    ensures
        forall|i: int| 0 <= i < states.len() ==> (#[trigger] states[i]).session_counter == count_issued(issued.take(i)),
        forall|i: int, j: int| 0 <= i < j < issued.len() && issued[i] && issued[j]
            ==> #[trigger] states[i + 1].session_counter < #[trigger] states[j + 1].session_counter,
{
    assert forall|i: int| 0 <= i < states.len() implies (#[trigger] states[i]).session_counter == count_issued(issued.take(i)) by {
        lemma_counter_counts(states, issued, i);
    }
    assert forall|i: int, j: int| 0 <= i < j < issued.len() && issued[i] && issued[j]
        implies #[trigger] states[i + 1].session_counter < #[trigger] states[j + 1].session_counter by {
        lemma_counter_grows(states, issued, i + 1, j);
        assert(states[j + 1].session_counter == states[j].session_counter + 1);
    }
}

} // verus!
