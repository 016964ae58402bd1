//! Search sessions of the search server: each holds a growing buffer of results
//! that clients page through by offset while the search runs.
use vstd::prelude::*;
use std::collections::HashMap;
use crate::search_result_store::SearchHit;

verus! {

broadcast use vstd::std_specs::hash::group_hash_axioms;

/// Why a query was refused.
#[derive(Debug)]
pub enum ValidationErrorKind {
    /// The query is empty
    EmptyValue,
    /// The query is not valid, with the reason
    InvalidRange { reason: String },
}

/// Why a search failed.
#[derive(Debug)]
pub enum SearchErrorKind {
    /// The query was refused
    InvalidQuery(ValidationErrorKind),
    SessionNotExists,
    OperateOnAlreadyFailedSearch,
}

/// The state of a search.
#[derive(Debug)]
pub enum SearchStatus {
    InProgress { found_so_far: u64 },
    Completed { total_count: u64 },
    Failed(SearchErrorKind),
    Cancelled,
}

/// One page of results.
#[derive(Debug)]
pub struct FetchResults {
    pub session_id: u128,
    pub offset: u64,
    pub hits: Vec<SearchHit>,
    pub has_more: bool,
}

impl Clone for ValidationErrorKind {
    fn clone(&self) -> (r: Self)
        ensures
            r == *self,
    {
        match self {
            ValidationErrorKind::EmptyValue => ValidationErrorKind::EmptyValue,
            ValidationErrorKind::InvalidRange { reason } => ValidationErrorKind::InvalidRange { reason: reason.clone() },
        }
    }
}

impl Clone for SearchErrorKind {
    fn clone(&self) -> (r: Self)
        ensures
            r == *self,
    {
        match self {
            SearchErrorKind::InvalidQuery(k) => SearchErrorKind::InvalidQuery(k.clone()),
            SearchErrorKind::SessionNotExists => SearchErrorKind::SessionNotExists,
            SearchErrorKind::OperateOnAlreadyFailedSearch => SearchErrorKind::OperateOnAlreadyFailedSearch,
        }
    }
}

impl Clone for SearchStatus {
    fn clone(&self) -> (r: Self)
        ensures
            r == *self,
    {
        match self {
            SearchStatus::InProgress { found_so_far } => SearchStatus::InProgress { found_so_far: *found_so_far },
            SearchStatus::Completed { total_count } => SearchStatus::Completed { total_count: *total_count },
            SearchStatus::Failed(e) => SearchStatus::Failed(e.clone()),
            SearchStatus::Cancelled => SearchStatus::Cancelled,
        }
    }
}

impl Clone for SearchHit {
    fn clone(&self) -> (r: Self)
        ensures
            r == *self,
    {
        SearchHit {
            file_path: self.file_path.clone(),
            score: self.score,
            preview: self.preview.clone(),
            file_size: self.file_size,
            access_time: self.access_time,
            modified_time: self.modified_time,
            create_time: self.create_time,
        }
    }
}

} // verus!

verus! {

/// The handle of a tokio task, kept to stop the task.
#[verifier::external_type_specification]
#[verifier::external_body]
#[verifier::reject_recursive_types(T)]
pub struct ExJoinHandle<T>(tokio::task::JoinHandle<T>);

/// Declared because the task handle's `Future` impl names it.
#[verifier::external_type_specification]
#[verifier::external_body]
pub struct ExJoinError(tokio::task::JoinError);

/// A reading of the machine's monotonic clock.
#[verifier::external_type_specification]
#[verifier::external_body]
pub struct ExInstant(std::time::Instant);

/// Calls `uuid::Uuid::new_v4` and hands back the id's 128 bits; the id is
/// random, so nothing is stated of it.
#[verifier::external_body]
fn random_session_id() -> (id: u128) {
    uuid::Uuid::new_v4().as_u128()
}

/// Calls `std::time::Instant::now`; the time is the machine's, so nothing is stated of it.
#[verifier::external_body]
fn instant_now() -> (t: std::time::Instant) {
    std::time::Instant::now()
}

/// Calls `std::time::Instant::elapsed` and hands back whole milliseconds,
/// saturated at `u64::MAX`; the time is the machine's, so nothing is stated of it.
#[verifier::external_body]
fn millis_since(epoch: &std::time::Instant) -> (ms: u64) {
    u64::try_from(epoch.elapsed().as_millis()).unwrap_or(u64::MAX)
}

/// Calls `tokio::task::JoinHandle::abort`, which asks the task to stop.
#[verifier::external_body]
fn abort_task(handle: &tokio::task::JoinHandle<()>) {
    handle.abort()
}

/// A search session
pub struct SearchSession {
    pub session_id: u128,
    /// The result buffer; the search appends to it
    pub results: Vec<SearchHit>,
    /// The state of the search
    pub status: SearchStatus,
    /// The task running the search, which a cancel stops
    pub task_handle: Option<tokio::task::JoinHandle<()>>,
    /// When the session was made, in milliseconds since its manager was made
    pub created_at: u64,
    /// When the session was last read, in milliseconds since its manager was made
    pub last_accessed: u64,
}

/// The results `[offset, offset + limit)` of `results`, cut at its end.
pub open spec fn page(results: Seq<SearchHit>, offset: nat, limit: nat) -> Seq<SearchHit> {
    if offset < results.len() {
        results.subrange(offset as int, if offset + limit < results.len() { (offset + limit) as int } else { results.len() as int })
    } else {
        Seq::empty()
    }
}

/// Two pages that follow each other make up the page of their joint length:
/// reading `a` results from `offset` and then `b` from where that page would
/// end gives the same results as reading `a + b` at once.
pub proof fn lemma_pages_concatenate(results: Seq<SearchHit>, offset: nat, a: nat, b: nat)
    ensures
        page(results, offset, a) + page(results, offset + a, b) == page(results, offset, a + b),
{
    let n = results.len();
    if offset >= n {
        assert(page(results, offset, a) + page(results, offset + a, b) =~= Seq::<SearchHit>::empty());
    } else if offset + a >= n {
        assert(page(results, offset, a) + page(results, offset + a, b) =~= results.subrange(offset as int, n as int));
    } else {
        let end = if offset + a + b < n { offset + a + b } else { n };
        assert(page(results, offset, a) + page(results, offset + a, b)
            =~= results.subrange(offset as int, end as int));
    }
}

/// What is appended to a buffer is the page that starts at the buffer's old
/// end and is as long as what was appended.
pub proof fn lemma_page_after_append(before: Seq<SearchHit>, hits: Seq<SearchHit>)
    ensures
        page(before + hits, before.len(), hits.len()) == hits,
{
    if hits.len() > 0 {
        assert((before + hits).subrange(before.len() as int, (before.len() + hits.len()) as int) =~= hits);
    } else {
        assert(page(before + hits, before.len(), hits.len()) =~= hits);
    }
}

/// The results read by `k` fetches of `limit` results each, the first from
/// offset 0 and each later one from where the one before would end.
pub open spec fn pages_read(results: Seq<SearchHit>, limit: nat, k: nat) -> Seq<SearchHit>
    decreases k,
{
    if k == 0 {
        Seq::empty()
    } else {
        pages_read(results, limit, (k - 1) as nat) + page(results, ((k - 1) * limit) as nat, limit)
    }
}

/// Fetching page after page from offset 0 reads the results in order, each
/// once: after `k` fetches of `limit` results, what was read is the first
/// `k * limit` results (all of them, once there are no more).
pub proof fn lemma_pages_in_order(results: Seq<SearchHit>, limit: nat, k: nat)
    ensures
        pages_read(results, limit, k) == page(results, 0, k * limit),
    decreases k,
{
    if k == 0 {
        assert(pages_read(results, limit, k) =~= page(results, 0, 0));
    } else {
        let k1 = (k - 1) as nat;
        lemma_pages_in_order(results, limit, k1);
        assert(k1 * limit + limit == k * limit) by (nonlinear_arith)
            requires
                k1 == k - 1,
        ;
        lemma_pages_concatenate(results, 0, k1 * limit, limit);
    }
}

/// Whether more results may follow a page that ends at `end`.
pub open spec fn more_after(status: SearchStatus, end: int) -> bool {
    match status {
        SearchStatus::InProgress { .. } => true,
        SearchStatus::Completed { total_count } => end < (total_count as usize),
        SearchStatus::Failed(_) => false,
        SearchStatus::Cancelled => false,
    }
}

/// The status after `total` results are in: an ongoing search counts them, any
/// other status stays.
pub open spec fn status_after_append(status: SearchStatus, total: nat) -> SearchStatus {
    match status {
        SearchStatus::InProgress { .. } => SearchStatus::InProgress { found_so_far: total as u64 },
        _ => status,
    }
}

/// Whether a session last read at `last_accessed` has expired at `now`.
pub open spec fn expired(last_accessed: u64, now: u64, timeout_secs: u64) -> bool {
    (if now >= last_accessed { now - last_accessed } else { 0int }) >= timeout_secs * 1000
}

impl SearchSession {
    /// A new asynchronous session: no results yet, search in progress.
    pub fn new_async(session_id: u128, now: u64) -> (s: Self)
        ensures
            s.session_id == session_id,
            s.results@.len() == 0,
            s.status == (SearchStatus::InProgress { found_so_far: 0 }),
            s.task_handle is None,
            s.created_at == now,
            s.last_accessed == now,
    {
        Self {
            session_id,
            results: Vec::new(),
            status: SearchStatus::InProgress { found_so_far: 0 },
            task_handle: None,
            created_at: now,
            last_accessed: now,
        }
    }

    /// A new synchronous session, complete with its results.
    pub fn new_sync(session_id: u128, results: Vec<SearchHit>, now: u64) -> (s: Self)
        ensures
            s.session_id == session_id,
            s.results@ == results@,
            s.status == (SearchStatus::Completed { total_count: results@.len() as u64 }),
            s.task_handle is None,
            s.created_at == now,
            s.last_accessed == now,
    {
        let total_count = results.len() as u64;
        Self {
            session_id,
            results,
            status: SearchStatus::Completed { total_count },
            task_handle: None,
            created_at: now,
            last_accessed: now,
        }
    }
}

/// The sessions of a search server, by id.
pub struct SessionManager {
    sessions: HashMap<u128, SearchSession>,
    session_timeout_secs: u64,
    epoch: std::time::Instant,
}

impl View for SessionManager {
    type V = Map<u128, SearchSession>;

    closed spec fn view(&self) -> Map<u128, SearchSession> {
        self.sessions@
    }
}

impl SessionManager {
    /// The idle time, in seconds, after which a session expires.
    pub closed spec fn timeout_secs(&self) -> u64 {
        self.session_timeout_secs
    }

    /// A manager with no sessions.
    pub fn new(session_timeout_seconds: u64) -> (m: Self)
        ensures
            m@ == Map::<u128, SearchSession>::empty(),
            m.timeout_secs() == session_timeout_seconds,
    {
        Self {
            sessions: HashMap::new(),
            session_timeout_secs: session_timeout_seconds,
            epoch: instant_now(),
        }
    }

    fn now(&self) -> (ms: u64) {
        millis_since(&self.epoch)
    }

    /// A session just made for a search in the background: no results yet,
    /// the search in progress, made and last read at the same time.
    pub open spec fn fresh(s: SearchSession, id: u128) -> bool {
        &&& s.session_id == id
        &&& s.results@.len() == 0
        &&& s.status == (SearchStatus::InProgress { found_so_far: 0 })
        &&& s.task_handle is None
        &&& s.created_at == s.last_accessed
    }

    /// Create a session for a search that runs in the background, and drop
    /// the sessions that have expired, both at one reading of the clock. The
    /// id is random; a session that had it is replaced. With a timeout above
    /// zero the new session survives the cleanup.
    pub fn create_async_session(&mut self) -> (id: u128)
        ensures
            final(self).timeout_secs() == old(self).timeout_secs(),
            exists|s: SearchSession, now: u64| Self::fresh(s, id) && s.last_accessed == now
                && final(self)@ == #[trigger] Self::unexpired(old(self)@.insert(id, s), now, old(self).timeout_secs()),
            old(self).timeout_secs() > 0 ==> final(self)@.contains_key(id),
            forall|k: u128| #[trigger] final(self)@.contains_key(k) ==> old(self)@.insert(id, final(self)@[k]).contains_key(k),
            forall|k: u128| #[trigger] final(self)@.contains_key(k) && k != id ==> final(self)@[k] == old(self)@[k],
            final(self)@.contains_key(id) ==> {
                &&& final(self)@[id].session_id == id
                &&& final(self)@[id].results@.len() == 0
                &&& final(self)@[id].status == (SearchStatus::InProgress { found_so_far: 0 })
                &&& final(self)@[id].task_handle is None
            },
    {
        let session_id = random_session_id();
        let now = self.now();
        let session = SearchSession::new_async(session_id, now);
        let ghost fresh_session = session;
        self.sessions.insert(session_id, session);
        let ghost with_new = self.sessions@;
        self.cleanup_expired_sessions(now);
        proof {
            assert(Self::fresh(fresh_session, session_id));
            assert(with_new == old(self)@.insert(session_id, fresh_session));
            if self.session_timeout_secs > 0 {
                assert(!expired(now, now, self.session_timeout_secs));
                assert(with_new.dom().filter(|k: u128| !expired(with_new[k].last_accessed, now, self.session_timeout_secs)).contains(session_id));
            }
        }
        session_id
    }

    /// Whether a session with this id exists.
    pub fn session_exists(&self, session_id: u128) -> (b: bool)
        ensures
            b == self@.contains_key(session_id),
    {
        self.sessions.contains_key(&session_id)
    }

    /// Append results to a session; an ongoing search counts them.
    pub fn append_results(&mut self, session_id: u128, hits: Vec<SearchHit>)
        ensures
            final(self).timeout_secs() == old(self).timeout_secs(),
            !old(self)@.contains_key(session_id) ==> final(self)@ == old(self)@,
            old(self)@.contains_key(session_id) ==> {
                let s = old(self)@[session_id];
                let t = final(self)@[session_id];
                &&& final(self)@.dom() == old(self)@.dom()
                &&& forall|k: u128| k != session_id && #[trigger] old(self)@.contains_key(k) ==> final(self)@[k] == old(self)@[k]
                &&& t.results@ == s.results@ + hits@
                &&& t.status == status_after_append(s.status, t.results@.len())
                &&& t.session_id == s.session_id
                &&& t.task_handle == s.task_handle
                &&& t.created_at == s.created_at
                &&& t.last_accessed == s.last_accessed
            },
    {
        if let Some(mut session) = self.sessions.remove(&session_id) {
            let mut hits = hits;
            session.results.append(&mut hits);
            if let SearchStatus::InProgress { .. } = session.status {
                session.status = SearchStatus::InProgress { found_so_far: session.results.len() as u64 };
            }
            self.sessions.insert(session_id, session);
            proof {
                assert(final(self)@.dom() =~= old(self)@.dom());
            }
        }
    }

    /// The sessions that are left when those idle at least the timeout at time `now` are dropped.
    pub open spec fn unexpired(sessions: Map<u128, SearchSession>, now: u64, timeout_secs: u64) -> Map<u128, SearchSession> {
        sessions.restrict(sessions.dom().filter(|k: u128| !expired(sessions[k].last_accessed, now, timeout_secs)))
    }

    /// Drop the sessions that have been idle at least the timeout at time `now`
    /// (milliseconds since the manager was made), stopping their searches.
    pub fn cleanup_expired_sessions(&mut self, now: u64)
        ensures
            final(self).timeout_secs() == old(self).timeout_secs(),
            final(self)@ == Self::unexpired(old(self)@, now, old(self).timeout_secs()),
    {
        let timeout = self.session_timeout_secs;
        let ghost m = self.sessions@;
        let mut to_remove: Vec<u128> = Vec::new();
        for k in it: self.sessions.keys()
            invariant
                self.sessions@ == m,
                timeout == self.session_timeout_secs,
                it.seq().unref().to_set() == m.dom(),
                forall|j: int| 0 <= j < to_remove@.len() ==> m.contains_key(#[trigger] to_remove@[j]) && expired(m[to_remove@[j]].last_accessed, now, timeout),
                forall|j: int| 0 <= j < it.index() && expired(m[*it.seq()[j]].last_accessed, now, timeout) ==> to_remove@.contains(*it.seq()[j]),
        {
            assert(*k == *it.seq()[it.index() as int]);
            assert(it.seq().unref().contains(*k));
            let last = match self.sessions.get(k) {
                Some(session) => session.last_accessed,
                None => 0,
            };
            assert(m.contains_key(*k));
            assert(last == m[*k].last_accessed);
            let idle: u64 = if now >= last { now - last } else { 0 };
            let ghost before = to_remove@;
            if (idle as u128) >= (timeout as u128) * 1000 {
                to_remove.push(*k);
                assert(to_remove@[to_remove@.len() - 1] == *k);
                assert(to_remove@.contains(*k));
            }
            assert forall|x: u128| before.contains(x) implies to_remove@.contains(x) by {
                let j = choose|j: int| 0 <= j < before.len() && before[j] == x;
                assert(to_remove@[j] == x);
            }
        }
        let ghost expired_keys = m.dom().filter(|k: u128| expired(m[k].last_accessed, now, timeout));
        let mut i: usize = 0;
        while i < to_remove.len()
            invariant
                0 <= i <= to_remove@.len(),
                timeout == self.session_timeout_secs,
                forall|j: int| 0 <= j < to_remove@.len() ==> m.contains_key(#[trigger] to_remove@[j]) && expired(m[to_remove@[j]].last_accessed, now, timeout),
                self.sessions@ == m.remove_keys(to_remove@.take(i as int).to_set()),
            decreases to_remove@.len() - i,
        {
            let id = to_remove[i];
            let removed = self.sessions.remove(&id);
            if let Some(mut session) = removed {
                if let Some(handle) = session.task_handle.take() {
                    abort_task(&handle);
                }
            }
            proof {
                assert(to_remove@.take(i + 1) =~= to_remove@.take(i as int).push(id));
                to_remove@.take(i as int).lemma_push_to_set_commute(id);
                assert(self.sessions@ =~= m.remove_keys(to_remove@.take(i + 1).to_set()));
            }
            i = i + 1;
        }
        proof {
            assert(to_remove@.take(to_remove@.len() as int) =~= to_remove@);
            assert(to_remove@.to_set() =~= expired_keys);
            assert(self.sessions@ =~= Self::unexpired(m, now, timeout));
        }
    }

    /// `t` is `s` read again: every field but the time of last access is kept.
    pub open spec fn touched(s: SearchSession, t: SearchSession) -> bool {
        &&& t.session_id == s.session_id
        &&& t.results@ == s.results@
        &&& t.status == s.status
        &&& t.task_handle == s.task_handle
        &&& t.created_at == s.created_at
    }

    /// `s` with another status, every other field kept.
    pub open spec fn with_status(s: SearchSession, t: SearchSession, status: SearchStatus) -> bool {
        &&& t.session_id == s.session_id
        &&& t.results@ == s.results@
        &&& t.status == status
        &&& t.task_handle == s.task_handle
        &&& t.created_at == s.created_at
        &&& t.last_accessed == s.last_accessed
    }

    /// Only the session `id` may differ between `a` and `b`, and it is in both or in neither.
    pub open spec fn others_kept(a: Map<u128, SearchSession>, b: Map<u128, SearchSession>, id: u128) -> bool {
        &&& b.dom() == a.dom()
        &&& forall|k: u128| k != id && #[trigger] a.contains_key(k) ==> b[k] == a[k]
    }

    /// Mark a search complete: its total is the number of results in the session.
    pub fn mark_completed(&mut self, session_id: u128)
        ensures
            final(self).timeout_secs() == old(self).timeout_secs(),
            !old(self)@.contains_key(session_id) ==> final(self)@ == old(self)@,
            old(self)@.contains_key(session_id) ==> {
                &&& Self::others_kept(old(self)@, final(self)@, session_id)
                &&& Self::with_status(old(self)@[session_id], final(self)@[session_id],
                    SearchStatus::Completed { total_count: old(self)@[session_id].results@.len() as u64 })
            },
    {
        if let Some(mut session) = self.sessions.remove(&session_id) {
            session.status = SearchStatus::Completed { total_count: session.results.len() as u64 };
            self.sessions.insert(session_id, session);
            proof {
                assert(final(self)@.dom() =~= old(self)@.dom());
            }
        }
    }

    /// Mark a search failed with an error.
    pub fn mark_failed(&mut self, session_id: u128, error: SearchErrorKind)
        ensures
            final(self).timeout_secs() == old(self).timeout_secs(),
            !old(self)@.contains_key(session_id) ==> final(self)@ == old(self)@,
            old(self)@.contains_key(session_id) ==> {
                &&& Self::others_kept(old(self)@, final(self)@, session_id)
                &&& Self::with_status(old(self)@[session_id], final(self)@[session_id], SearchStatus::Failed(error))
            },
    {
        if let Some(mut session) = self.sessions.remove(&session_id) {
            session.status = SearchStatus::Failed(error);
            self.sessions.insert(session_id, session);
            proof {
                assert(final(self)@.dom() =~= old(self)@.dom());
            }
        }
    }

    /// Keep the handle of the task running a session's search, so that a cancel can stop it.
    pub fn set_task_handle(&mut self, session_id: u128, handle: tokio::task::JoinHandle<()>)
        ensures
            final(self).timeout_secs() == old(self).timeout_secs(),
            !old(self)@.contains_key(session_id) ==> final(self)@ == old(self)@,
            old(self)@.contains_key(session_id) ==> {
                let s = old(self)@[session_id];
                let t = final(self)@[session_id];
                &&& Self::others_kept(old(self)@, final(self)@, session_id)
                &&& t.task_handle == Some(handle)
                &&& t.session_id == s.session_id
                &&& t.results@ == s.results@
                &&& t.status == s.status
                &&& t.created_at == s.created_at
                &&& t.last_accessed == s.last_accessed
            },
    {
        if let Some(mut session) = self.sessions.remove(&session_id) {
            session.task_handle = Some(handle);
            self.sessions.insert(session_id, session);
            proof {
                assert(final(self)@.dom() =~= old(self)@.dom());
            }
        }
    }

    /// The status of a session, which counts as reading it.
    pub fn get_status(&mut self, session_id: u128) -> (r: Option<SearchStatus>)
        ensures
            final(self).timeout_secs() == old(self).timeout_secs(),
            !old(self)@.contains_key(session_id) ==> final(self)@ == old(self)@ && r is None,
            old(self)@.contains_key(session_id) ==> {
                &&& Self::others_kept(old(self)@, final(self)@, session_id)
                &&& Self::touched(old(self)@[session_id], final(self)@[session_id])
                &&& r == Some(old(self)@[session_id].status)
            },
    {
        let now = self.now();
        if let Some(mut session) = self.sessions.remove(&session_id) {
            session.last_accessed = now;
            let status = session.status.clone();
            self.sessions.insert(session_id, session);
            proof {
                assert(final(self)@.dom() =~= old(self)@.dom());
            }
            Some(status)
        } else {
            None
        }
    }

    /// The results `[offset, offset + limit)` of a session, cut at the end of
    /// its buffer, and whether more may follow; this counts as reading it.
    pub fn fetch_results(&mut self, session_id: u128, offset: usize, limit: usize) -> (r: Option<FetchResults>)
        requires
            offset + limit <= usize::MAX,
        ensures
            final(self).timeout_secs() == old(self).timeout_secs(),
            !old(self)@.contains_key(session_id) ==> final(self)@ == old(self)@ && r is None,
            old(self)@.contains_key(session_id) ==> {
                let s = old(self)@[session_id];
                let hits = page(s.results@, offset as nat, limit as nat);
                &&& Self::others_kept(old(self)@, final(self)@, session_id)
                &&& Self::touched(s, final(self)@[session_id])
                &&& r matches Some(f) && {
                    &&& f.session_id == session_id
                    &&& f.offset == offset as u64
                    &&& f.hits@ == hits
                    &&& f.has_more == more_after(s.status, offset + hits.len())
                }
            },
    {
        let now = self.now();
        if let Some(mut session) = self.sessions.remove(&session_id) {
            session.last_accessed = now;
            let current_count = session.results.len();
            let end = if offset + limit < current_count { offset + limit } else { current_count };
            let mut hits: Vec<SearchHit> = Vec::new();
            if offset < current_count {
                let mut i = offset;
                while i < end
                    invariant
                        offset <= i <= end <= current_count == session.results@.len(),
                        hits@ == session.results@.subrange(offset as int, i as int),
                    decreases end - i,
                {
                    hits.push(session.results[i].clone());
                    proof {
                        assert(hits@ =~= session.results@.subrange(offset as int, i + 1));
                    }
                    i = i + 1;
                }
            }
            proof {
                assert(hits@ =~= page(session.results@, offset as nat, limit as nat));
            }
            let has_more = match &session.status {
                SearchStatus::InProgress { .. } => true,
                SearchStatus::Completed { total_count } => offset + hits.len() < (*total_count) as usize,
                SearchStatus::Failed(_) => false,
                SearchStatus::Cancelled => false,
            };
            self.sessions.insert(session_id, session);
            proof {
                assert(final(self)@.dom() =~= old(self)@.dom());
            }
            Some(FetchResults { session_id, offset: offset as u64, hits, has_more })
        } else {
            None
        }
    }

    /// Cancel a session's search: stop its task and mark it cancelled. Whether the session exists.
    pub fn cancel_session(&mut self, session_id: u128) -> (b: bool)
        ensures
            final(self).timeout_secs() == old(self).timeout_secs(),
            b == old(self)@.contains_key(session_id),
            !b ==> final(self)@ == old(self)@,
            b ==> {
                let s = old(self)@[session_id];
                let t = final(self)@[session_id];
                &&& Self::others_kept(old(self)@, final(self)@, session_id)
                &&& t.status == SearchStatus::Cancelled
                &&& t.task_handle is None
                &&& t.session_id == s.session_id
                &&& t.results@ == s.results@
                &&& t.created_at == s.created_at
                &&& t.last_accessed == s.last_accessed
            },
    {
        if let Some(mut session) = self.sessions.remove(&session_id) {
            if let Some(handle) = session.task_handle.take() {
                abort_task(&handle);
            }
            session.status = SearchStatus::Cancelled;
            self.sessions.insert(session_id, session);
            proof {
                assert(final(self)@.dom() =~= old(self)@.dom());
            }
            true
        } else {
            false
        }
    }

    /// Remove a session, stopping its search. Whether it existed.
    pub fn remove_session(&mut self, session_id: u128) -> (b: bool)
        ensures
            final(self).timeout_secs() == old(self).timeout_secs(),
            b == old(self)@.contains_key(session_id),
            final(self)@ == old(self)@.remove(session_id),
    {
        if let Some(mut session) = self.sessions.remove(&session_id) {
            if let Some(handle) = session.task_handle.take() {
                abort_task(&handle);
            }
            true
        } else {
            false
        }
    }

    /// The number of sessions, after the expired ones are dropped.
    pub fn active_sessions_count(&mut self) -> (n: usize)
        ensures
            final(self).timeout_secs() == old(self).timeout_secs(),
            n == final(self)@.len(),
            exists|now: u64| final(self)@ == #[trigger] Self::unexpired(old(self)@, now, old(self).timeout_secs()),
    {
        let now = self.now();
        self.cleanup_expired_sessions(now);
        self.sessions.len()
    }
}

} // verus!
