//! A completion session hands out completions in batches as its stream yields them.
use vstd::prelude::*;
use super::{CompletionItem, CompletionSessionId};

verus! {

/// The bookkeeping of a completion session; the caller owns the stream and
/// pulls from it while `wants_more` says so, handing each pull to `pull`.
pub struct CompletionSession {
    id: CompletionSessionId,
    collected: Vec<CompletionItem>,
    exhausted: bool,
    batch_size: usize,
}

/// The abstract session.
pub struct CompletionSessionView {
    pub id: CompletionSessionId,
    pub collected: Seq<CompletionItem>,
    pub exhausted: bool,
    pub batch_size: usize,
}

impl View for CompletionSession {
    type V = CompletionSessionView;

    closed spec fn view(&self) -> CompletionSessionView {
        CompletionSessionView {
            id: self.id,
            collected: self.collected@,
            exhausted: self.exhausted,
            batch_size: self.batch_size,
        }
    }
}

impl CompletionSession {
    /// A session that hands out batches of `batch_size` items.
    pub fn new(id: CompletionSessionId, batch_size: usize) -> (s: Self)
        ensures
            s@.id == id,
            s@.collected.len() == 0,
            !s@.exhausted,
            s@.batch_size == batch_size,
    {
        Self { id, collected: Vec::new(), exhausted: false, batch_size }
    }

    pub fn id(&self) -> (id: CompletionSessionId)
        ensures
            id == self@.id,
    {
        self.id
    }

    /// Whether a batch of `batch_len` items wants another item: the stream has
    /// not ended and the batch is not full.
    pub fn wants_more(&self, batch_len: usize) -> (b: bool)
        ensures
            b == (!self@.exhausted && batch_len < self@.batch_size),
    {
        !self.exhausted && batch_len < self.batch_size
    }

    /// Take what a pull of the stream gave: an item joins the batch and the
    /// items collected so far; the end of the stream marks the session exhausted.
    pub fn pull(&mut self, next: Option<CompletionItem>, batch: &mut Vec<CompletionItem>)
        ensures
            final(self)@.id == old(self)@.id,
            final(self)@.batch_size == old(self)@.batch_size,
            match next {
                Some(item) => {
                    &&& final(self)@.collected == old(self)@.collected.push(item)
                    &&& final(batch)@ == old(batch)@.push(item)
                    &&& final(self)@.exhausted == old(self)@.exhausted
                },
                None => {
                    &&& final(self)@.collected == old(self)@.collected
                    &&& final(batch)@ == old(batch)@
                    &&& final(self)@.exhausted
                },
            },
    {
        match next {
            Some(item) => {
                self.collected.push(item.clone());
                batch.push(item);
            },
            None => {
                self.exhausted = true;
            },
        }
    }

    /// The next batch, taken from the front of `stream`, the items the
    /// session's source has left, in order: up to `batch_size` of them. When
    /// the source runs out before the batch is full, the session is exhausted;
    /// an exhausted session gives an empty batch. With the batch comes whether
    /// more items may follow.
    pub fn next_batch(&mut self, stream: &mut Vec<CompletionItem>) -> (r: (Vec<CompletionItem>, bool))
        ensures
            final(self)@.id == old(self)@.id,
            final(self)@.batch_size == old(self)@.batch_size,
            old(self)@.exhausted ==> {
                &&& r.0@.len() == 0
                &&& !r.1
                &&& final(self)@ == old(self)@
                &&& final(stream)@ == old(stream)@
            },
            !old(self)@.exhausted ==> {
                let n = if old(self)@.batch_size < old(stream)@.len() {
                    old(self)@.batch_size as int
                } else {
                    old(stream)@.len() as int
                };
                &&& r.0@ == old(stream)@.take(n)
                &&& final(stream)@ == old(stream)@.skip(n)
                &&& final(self)@.collected == old(self)@.collected + r.0@
                &&& final(self)@.exhausted == (old(stream)@.len() < old(self)@.batch_size)
                &&& r.1 == !final(self)@.exhausted
            },
    {
        let mut batch: Vec<CompletionItem> = Vec::new();
        if self.exhausted {
            return (batch, false);
        }
        let ghost source = stream@;
        let ghost before = self.collected@;
        while self.wants_more(batch.len())
            invariant
                self.id == old(self).id,
                self.batch_size == old(self).batch_size,
                source == old(stream)@,
                batch@.len() <= source.len(),
                batch@ == source.take(batch@.len() as int),
                stream@ == source.skip(batch@.len() as int),
                self.collected@ == before + batch@,
                before == old(self).collected@,
                !self.exhausted ==> batch@.len() <= self.batch_size,
                self.exhausted ==> batch@.len() == source.len() && batch@.len() < self.batch_size,
            decreases (if self.exhausted { 0int } else { 1int }) + self.batch_size - batch@.len(),
        {
            let next = if stream.len() > 0 {
                Some(stream.remove(0))
            } else {
                None
            };
            let ghost k: int = batch@.len() as int;
            self.pull(next, &mut batch);
            proof {
                if k < source.len() {
                    assert(batch@ =~= source.take(k + 1));
                    assert(stream@ =~= source.skip(k + 1));
                }
                assert(self.collected@ =~= before + batch@);
            }
        }
        let has_more = !self.exhausted;
        (batch, has_more)
    }

    /// Whether more items may follow the last batch.
    pub fn has_more(&self) -> (b: bool)
        ensures
            b == !self@.exhausted,
    {
        !self.exhausted
    }

    pub fn total_collected(&self) -> (n: usize)
        ensures
            n == self@.collected.len(),
    {
        self.collected.len()
    }

    pub fn is_exhausted(&self) -> (b: bool)
        ensures
            b == self@.exhausted,
    {
        self.exhausted
    }
}

} // verus!
