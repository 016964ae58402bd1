//! The decisions of the cache debugging commands: which entries of the cache
//! they list, skip or count.
use vstd::prelude::*;
use crate::text::{chars_of, has_prefix, starts_with_chars, string_of};

verus! {

/// Whether `needle` occurs in `hay`.
pub open spec fn occurs_in(hay: Seq<char>, needle: Seq<char>) -> bool {
    exists|i: int| 0 <= i <= hay.len() - needle.len() && #[trigger] hay.subrange(i, i + needle.len()) == needle
}

/// Whether `needle` occurs in `hay`, as `str::contains` tells for a string pattern.
pub fn contains_text(hay: &str, needle: &str) -> (b: bool)
    ensures
        b == occurs_in(hay@, needle@),
{
    let h = chars_of(hay);
    let n = chars_of(needle);
    if n.len() == 0 {
        assert(hay@.subrange(0, 0 + needle@.len() as int) =~= needle@);
        return true;
    }
    if n.len() > h.len() {
        return false;
    }
    let last = h.len() - n.len();
    let mut i: usize = 0;
    while i <= last
        invariant
            h@ == hay@,
            n@ == needle@,
            last == h@.len() - n@.len(),
            n@.len() > 0,
            h@.len() == h.len(),
            0 <= i <= last + 1,
            forall|k: int| 0 <= k < i ==> #[trigger] h@.subrange(k, k + n@.len()) != n@,
        decreases last + 1 - i,
    {
        let mut j: usize = 0;
        let mut same = true;
        while j < n.len()
            invariant
                h@ == hay@,
                n@ == needle@,
                i <= last,
                last == h@.len() - n@.len(),
                h@.len() == h.len(),
                0 <= j <= n@.len(),
                same == (forall|t: int| 0 <= t < j ==> h@[i + t] == n@[t]),
            decreases n@.len() - j,
        {
            if h[i + j] != n[j] {
                same = false;
            }
            j = j + 1;
        }
        if same {
            assert(h@.subrange(i as int, i + n@.len()) =~= n@);
            return true;
        }
        proof {
            let t = choose|t: int| 0 <= t < n@.len() && h@[i + t] != n@[t];
            assert(h@.subrange(i as int, i + n@.len())[t] != n@[t]);
        }
        i = i + 1;
    }
    false
}

/// Whether an entry's key passes the filter: no filter, or the key holds it.
pub open spec fn passes_filter(key: Seq<char>, filter: Option<Seq<char>>) -> bool {
    match filter {
        None => true,
        Some(f) => occurs_in(key, f),
    }
}

/// The key prefix of the file metadata entries.
pub open spec fn meta_prefix() -> Seq<char> {
    seq!['m', 'e', 't', 'a', ':']
}

/// What the keyword listing does with one entry of the cache.
#[derive(Debug, Clone, Copy, PartialEq, Eq, Structural)]
pub enum KeywordEntry {
    /// A file metadata entry: counted as such, not listed
    Metadata,
    /// Filtered out; it still counts as a keyword entry
    FilteredOut,
    /// Listed, and counted
    Shown,
    /// Counted, but past the listing's limit
    CountedOnly,
    /// Its value could not be read
    Unreadable,
}

/// The tallies of the keyword listing.
pub struct KeywordTally {
    pub keyword_count: usize,
    pub meta_count: usize,
    pub displayed: usize,
    pub limit: usize,
}

impl KeywordTally {
    /// A listing that shows at most `limit` entries.
    pub fn new(limit: usize) -> (t: Self)
        ensures
            t.keyword_count == 0,
            t.meta_count == 0,
            t.displayed == 0,
            t.limit == limit,
    {
        KeywordTally { keyword_count: 0, meta_count: 0, displayed: 0, limit }
    }

    /// Take one entry, with its key and whether its value could be read: a
    /// metadata entry (its key starts with `meta:`) is counted apart; an entry
    /// the filter rejects, or one that was read, counts as a keyword entry, and
    /// is shown while fewer than the limit are shown.
    pub fn observe(&mut self, key: &str, filter: Option<&str>, readable: bool) -> (e: KeywordEntry)
        requires
            old(self).keyword_count < usize::MAX,
            old(self).meta_count < usize::MAX,
        ensures
            final(self).limit == old(self).limit,
            ({
                let meta = has_prefix(key@, meta_prefix());
                let kept = passes_filter(key@, match filter { Some(f) => Some(f@), None => None });
                let shown = !meta && kept && readable && old(self).displayed < old(self).limit;
                &&& e == (if meta {
                    KeywordEntry::Metadata
                } else if !kept {
                    KeywordEntry::FilteredOut
                } else if !readable {
                    KeywordEntry::Unreadable
                } else if shown {
                    KeywordEntry::Shown
                } else {
                    KeywordEntry::CountedOnly
                })
                &&& final(self).meta_count == old(self).meta_count + (if meta { 1int } else { 0int })
                &&& final(self).keyword_count == old(self).keyword_count
                    + (if !meta && (!kept || readable) { 1int } else { 0int })
                &&& final(self).displayed == old(self).displayed + (if shown { 1int } else { 0int })
            }),
    {
        let prefix = vec!['m', 'e', 't', 'a', ':'];
        assert(prefix@ =~= meta_prefix());
        let key_chars = chars_of(key);
        if starts_with_chars(&key_chars, &prefix) {
            self.meta_count = self.meta_count + 1;
            return KeywordEntry::Metadata;
        }
        match filter {
            Some(f) => {
                if !contains_text(key, f) {
                    self.keyword_count = self.keyword_count + 1;
                    return KeywordEntry::FilteredOut;
                }
            },
            None => {},
        }
        if !readable {
            return KeywordEntry::Unreadable;
        }
        let e = if self.displayed < self.limit {
            self.displayed = self.displayed + 1;
            KeywordEntry::Shown
        } else {
            KeywordEntry::CountedOnly
        };
        self.keyword_count = self.keyword_count + 1;
        e
    }
}

/// What the metadata listing does with one metadata entry.
#[derive(Debug, Clone, Copy, PartialEq, Eq, Structural)]
pub enum MetaEntry {
    /// Filtered out
    Skipped,
    /// The limit is reached: the listing ends here
    Stop,
    /// Listed
    Shown,
    /// Its value could not be read
    Unreadable,
}

/// The file path of a metadata key: the key without its `meta:` prefix, or
/// the whole key when it has none.
pub fn meta_file_path(key: &str) -> (p: String)
    ensures
        has_prefix(key@, meta_prefix()) ==> p@ == key@.subrange(5, key@.len() as int),
        !has_prefix(key@, meta_prefix()) ==> p@ == key@,
{
    let prefix = vec!['m', 'e', 't', 'a', ':'];
    assert(prefix@ =~= meta_prefix());
    let key_chars = chars_of(key);
    if starts_with_chars(&key_chars, &prefix) {
        string_of(key, 5, key_chars.len())
    } else {
        string_of(key, 0, key_chars.len())
    }
}

/// The metadata listing's progress.
pub struct MetaListing {
    pub displayed: usize,
    pub limit: usize,
}

impl MetaListing {
    /// A listing that shows at most `limit` entries.
    pub fn new(limit: usize) -> (m: Self)
        ensures
            m.displayed == 0,
            m.limit == limit,
    {
        MetaListing { displayed: 0, limit }
    }

    /// Take one metadata entry, with its file path and whether its value could
    /// be read: the filter goes first, then the limit, then the entry is shown.
    pub fn observe(&mut self, file_path: &str, filter: Option<&str>, readable: bool) -> (e: MetaEntry)
        ensures
            final(self).limit == old(self).limit,
            ({
                let kept = passes_filter(file_path@, match filter { Some(f) => Some(f@), None => None });
                &&& e == (if !kept {
                    MetaEntry::Skipped
                } else if old(self).displayed >= old(self).limit {
                    MetaEntry::Stop
                } else if !readable {
                    MetaEntry::Unreadable
                } else {
                    MetaEntry::Shown
                })
                &&& final(self).displayed == old(self).displayed + (if e == MetaEntry::Shown { 1int } else { 0int })
            }),
    {
        match filter {
            Some(f) => {
                if !contains_text(file_path, f) {
                    return MetaEntry::Skipped;
                }
            },
            None => {},
        }
        if self.displayed >= self.limit {
            return MetaEntry::Stop;
        }
        if !readable {
            return MetaEntry::Unreadable;
        }
        self.displayed = self.displayed + 1;
        MetaEntry::Shown
    }
}

} // verus!
