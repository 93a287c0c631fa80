//! Keeping a search index over sessions up to date, and asking it.
//!
//! Updates of one session that follow each other closely are gathered: the
//! index takes a session in once it has been quiet for a while. The index
//! itself, its database and the clock are the driver's.

use vstd::prelude::*;
use vstd::string::*;

use crate::io_error::{ErrorKind, IoError};
use crate::text::{owned, same_text, trim, trimmed};

verus! {

/// How long a session has to be quiet before the index takes it in.
pub const SEARCH_INDEX_DEBOUNCE_MS: u64 = 500;

/// How long a search waits for the index to be built.
pub const BOOTSTRAP_WAIT_TIMEOUT_MS: u64 = 5000;

#[derive(Debug, Clone)]
pub struct SessionSearchRequest {
    pub query: String,
    pub cwd: Option<String>,
    pub limit: usize,
    pub offset: usize,
    pub include_content: bool,
}

/// The answer to a search. `R` stands for a row of the index.
#[derive(Debug, Clone)]
pub struct SessionSearchResponse<R> {
    pub results: Vec<R>,
    pub next_offset: Option<usize>,
    pub total_estimate: Option<usize>,
    /// The index is not complete yet: ask again.
    pub bootstrapping: bool,
}

#[derive(Debug, Clone, Copy, PartialEq, Eq, Structural)]
pub struct SearchIndexStatus {
    pub bootstrapping: bool,
    pub indexed: u64,
    pub total: u64,
    /// Sessions passed over for their size or the time they took.
    pub skipped: u64,
    /// Sessions passed over because nothing in them had changed.
    pub unchanged: u64,
}

/// A session to be taken into the index.
#[derive(Debug, Clone)]
pub struct SessionSearchKey {
    pub session_id: String,
    pub cwd: String,
}

impl SessionSearchKey {
    /// Whether this is the key of these two texts.
    pub open spec fn is_key(&self, session_id: Seq<char>, cwd: Seq<char>) -> bool {
        self.session_id@ == session_id && self.cwd@ == cwd
    }

    pub open spec fn same_as(&self, other: SessionSearchKey) -> bool {
        self.is_key(other.session_id@, other.cwd@)
    }

    fn equals(&self, other: &SessionSearchKey) -> (r: bool)
        ensures
            r == self.same_as(*other),
    {
        same_text(self.session_id.as_str(), other.session_id.as_str()) && same_text(
            self.cwd.as_str(),
            other.cwd.as_str(),
        )
    }
}

#[derive(Debug)]
pub enum SearchIndexJob {
    Upsert(SessionSearchKey),
    BootstrapAll,
    /// Build the index again if it does not say that it is complete.
    RecheckBootstrap,
}

/// A command to the manager.
#[derive(Debug)]
#[allow(inconsistent_fields)]
pub enum SearchManagerCmd {
    Enqueue { root: String, job: SearchIndexJob },
    BootstrapOnce { root: String },
}

// The manager.

/// Whether `root` is among `roots`.
pub open spec fn knows(roots: Seq<String>, root: Seq<char>) -> bool {
    exists|i: int| 0 <= i < roots.len() && (#[trigger] roots[i])@ == root
}

fn is_known(roots: &Vec<String>, root: &str) -> (r: bool)
    ensures
        r == knows(roots@, root@),
{
    let mut i: usize = 0;
    while i < roots.len()
        invariant
            i <= roots.len(),
            forall|k: int| 0 <= k < i ==> (#[trigger] roots@[k])@ != root@,
        decreases roots.len() - i,
    {
        if same_text(roots[i].as_str(), root) {
            assert(roots@[i as int]@ == root@);
            return true;
        }
        i = i + 1;
    }
    false
}

/// The roots that have a worker, and those whose index was asked for.
#[derive(Debug)]
pub struct SearchManagerState {
    pub workers: Vec<String>,
    pub bootstrapped: Vec<String>,
}

/// A job for the worker of a root.
#[derive(Debug)]
pub struct Dispatch {
    pub root: String,
    pub job: SearchIndexJob,
    /// The root has no worker yet: start one.
    pub start_worker: bool,
}

fn note(roots: &mut Vec<String>, root: &str) -> (r: bool)
    ensures
        r == !knows(old(roots)@, root@),
        forall|t: Seq<char>| #[trigger]
            knows(final(roots)@, t) <==> knows(old(roots)@, t) || t == root@,
{
    if is_known(roots, root) {
        return false;
    }
    let ghost was = roots@;
    let owned_root = owned(root);
    roots.push(owned_root);
    proof {
        assert forall|t: Seq<char>| #[trigger] knows(roots@, t) <==> knows(was, t) || t == root@ by {
            if knows(was, t) {
                let i = choose|i: int| 0 <= i < was.len() && (#[trigger] was[i])@ == t;
                assert(roots@[i]@ == t);
            }
            if t == root@ {
                assert(roots@[was.len() as int]@ == t);
            }
            if knows(roots@, t) {
                let i = choose|i: int| 0 <= i < roots@.len() && (#[trigger] roots@[i])@ == t;
                if i < was.len() {
                    assert(was[i]@ == t);
                }
            }
        }
    }
    true
}

/// Whether `before` and `cmd` make `after` and the job in `r`.
pub open spec fn is_commanded(
    before: SearchManagerState,
    cmd: SearchManagerCmd,
    after: SearchManagerState,
    r: Dispatch,
) -> bool {
    &&& match cmd {
        SearchManagerCmd::Enqueue { root, job } => {
            &&& r.root == root
            &&& r.job == job
            &&& after.bootstrapped@ == before.bootstrapped@
        },
        SearchManagerCmd::BootstrapOnce { root } => {
            &&& r.root == root
            &&& r.job == if knows(before.bootstrapped@, root@) {
                SearchIndexJob::RecheckBootstrap
            } else {
                SearchIndexJob::BootstrapAll
            }
            &&& forall|t: Seq<char>| #[trigger]
                knows(after.bootstrapped@, t) <==> knows(before.bootstrapped@, t) || t == root@
        },
    }
    &&& r.start_worker == !knows(before.workers@, r.root@)
    &&& forall|t: Seq<char>| #[trigger]
        knows(after.workers@, t) <==> knows(before.workers@, t) || t == r.root@
}

impl SearchManagerState {
    pub fn new() -> (r: SearchManagerState)
        ensures
            r.workers@.len() == 0,
            r.bootstrapped@.len() == 0,
    {
        SearchManagerState { workers: Vec::new(), bootstrapped: Vec::new() }
    }

    /// Takes in a command; gives the job that it makes. The index of a root is
    /// built when it is first asked for, and rechecked after that: its database
    /// is shared with other processes.
    pub fn command(&mut self, cmd: SearchManagerCmd) -> (r: Dispatch)
        ensures
            is_commanded(*old(self), cmd, *final(self), r),
    {
        match cmd {
            SearchManagerCmd::Enqueue { root, job } => {
                let start_worker = note(&mut self.workers, root.as_str());
                Dispatch { root, job, start_worker }
            },
            SearchManagerCmd::BootstrapOnce { root } => {
                let first = note(&mut self.bootstrapped, root.as_str());
                let start_worker = note(&mut self.workers, root.as_str());
                let job = if first {
                    SearchIndexJob::BootstrapAll
                } else {
                    SearchIndexJob::RecheckBootstrap
                };
                Dispatch { root, job, start_worker }
            },
        }
    }
}

/// The manager as its callers see it: how far the index is.
#[derive(Debug)]
pub struct SearchIndexManager {
    pub progress: SearchIndexStatus,
}

impl SearchIndexManager {
    pub fn start() -> (r: SearchIndexManager)
        ensures
            r.progress == (SearchIndexStatus {
                bootstrapping: false,
                indexed: 0,
                total: 0,
                skipped: 0,
                unchanged: 0,
            }),
    {
        SearchIndexManager {
            progress: SearchIndexStatus {
                bootstrapping: false,
                indexed: 0,
                total: 0,
                skipped: 0,
                unchanged: 0,
            },
        }
    }

    /// Asks for the index of a root. From this moment on it counts as being
    /// built, before anything has started.
    pub fn bootstrap_once(&mut self, root: String) -> (r: SearchManagerCmd)
        ensures
            r == (SearchManagerCmd::BootstrapOnce { root }),
            final(self).progress == (SearchIndexStatus {
                bootstrapping: true,
                ..old(self).progress
            }),
    {
        self.progress.bootstrapping = true;
        SearchManagerCmd::BootstrapOnce { root }
    }

    pub fn status(&self) -> (r: SearchIndexStatus)
        ensures
            r == self.progress,
    {
        self.progress
    }

    /// Asks for a session to be taken into the index.
    pub fn enqueue(&self, root: String, session_id: String, cwd: String) -> (r: SearchManagerCmd)
        ensures
            r == (SearchManagerCmd::Enqueue {
                root,
                job: SearchIndexJob::Upsert(SessionSearchKey { session_id, cwd }),
            }),
    {
        SearchManagerCmd::Enqueue {
            root,
            job: SearchIndexJob::Upsert(SessionSearchKey { session_id, cwd }),
        }
    }
}

/// What to tell the manager of a session that was just saved, changed or
/// deleted.
pub fn notify_session_updated(
    manager: &SearchIndexManager,
    root: String,
    session_id: &str,
    cwd: &str,
) -> (r: SearchManagerCmd)
    ensures
        r matches SearchManagerCmd::Enqueue { root: told, job: SearchIndexJob::Upsert(key) } && told
            == root && key.is_key(session_id@, cwd@),
{
    manager.enqueue(root, owned(session_id), owned(cwd))
}

/// Once the index of a root was asked for, any later request for it has it
/// rechecked by the worker that is there, whatever came between.
pub proof fn index_is_built_once(
    s0: SearchManagerState,
    root: String,
    s1: SearchManagerState,
    first: Dispatch,
    between: SearchManagerCmd,
    s2: SearchManagerState,
    second: Dispatch,
    again: String,
    s3: SearchManagerState,
    third: Dispatch,
)
    requires
        is_commanded(s0, SearchManagerCmd::BootstrapOnce { root }, s1, first),
        is_commanded(s1, between, s2, second),
        is_commanded(s2, SearchManagerCmd::BootstrapOnce { root: again }, s3, third),
        again@ == root@,
    ensures
        third.job is RecheckBootstrap,
        !third.start_worker,
{
    assert(knows(s1.bootstrapped@, root@));
    assert(knows(s1.workers@, root@));
    assert(knows(s2.bootstrapped@, root@));
    assert(knows(s2.workers@, root@));
}

// The worker of a root.

/// A session that waits to be taken in at `deadline`.
#[derive(Debug)]
pub struct PendingUpsert {
    pub key: SessionSearchKey,
    pub deadline_ms: u64,
}

/// Whether the session of these texts waits for `deadline`.
pub open spec fn waits(
    pending: Seq<PendingUpsert>,
    session_id: Seq<char>,
    cwd: Seq<char>,
    deadline: u64,
) -> bool {
    exists|i: int|
        0 <= i < pending.len() && (#[trigger] pending[i]).key.is_key(session_id, cwd)
            && pending[i].deadline_ms == deadline
}

/// Whether no session waits twice.
pub open spec fn each_once(pending: Seq<PendingUpsert>) -> bool {
    forall|i: int, j: int|
        0 <= i < j < pending.len() ==> !(#[trigger] pending[i]).key.same_as(
            (#[trigger] pending[j]).key,
        )
}

/// Whether `key` is among `keys`.
pub open spec fn has_key(
    keys: Seq<SessionSearchKey>,
    session_id: Seq<char>,
    cwd: Seq<char>,
) -> bool {
    exists|i: int| 0 <= i < keys.len() && (#[trigger] keys[i]).is_key(session_id, cwd)
}

/// Whether `after` is `before` with the session of `key` waiting for `deadline`.
pub open spec fn is_postponed(
    before: Seq<PendingUpsert>,
    after: Seq<PendingUpsert>,
    key: SessionSearchKey,
    deadline: u64,
) -> bool {
    forall|session_id: Seq<char>, cwd: Seq<char>, d: u64| #[trigger]
        waits(after, session_id, cwd, d) <==> if key.is_key(session_id, cwd) {
            d == deadline
        } else {
            waits(before, session_id, cwd, d)
        }
}

/// Whether `ready` are the sessions of `before` whose time has come by `now`,
/// and `after` are the others.
pub open spec fn is_flushed(
    before: Seq<PendingUpsert>,
    after: Seq<PendingUpsert>,
    ready: Seq<SessionSearchKey>,
    now: u64,
) -> bool {
    &&& forall|session_id: Seq<char>, cwd: Seq<char>, d: u64| #[trigger]
        waits(after, session_id, cwd, d) <==> waits(before, session_id, cwd, d) && d > now
    &&& forall|session_id: Seq<char>, cwd: Seq<char>| #[trigger]
        has_key(ready, session_id, cwd) <==> (exists|d: u64| #[trigger]
            waits(before, session_id, cwd, d) && d <= now)
}

/// What a worker does with a job once it has taken it in.
#[derive(Debug, Clone, Copy, PartialEq, Eq, Structural)]
pub enum WorkerAction {
    Nothing,
    /// Build the index, waiting for a process that is at it.
    Bootstrap,
    /// Look whether the index says that it is complete.
    ProbeMarker,
    /// Build the index unless another process is at it.
    TryBootstrap,
    /// Ask the manager for the index anew.
    RequestBootstrap,
    /// Report a failure.
    LogFailure,
}

/// How building the index ended.
#[derive(Debug)]
pub enum BootstrapOutcome {
    Done,
    RunAgain,
    Failed,
}

/// The worker of a root, with the sessions that wait.
#[derive(Debug)]
pub struct SearchWorker {
    pub pending: Vec<PendingUpsert>,
}

impl SearchWorker {
    pub open spec fn wf(&self) -> bool {
        each_once(self.pending@)
    }

    pub fn new() -> (r: SearchWorker)
        ensures
            r.wf(),
            r.pending@.len() == 0,
    {
        SearchWorker { pending: Vec::new() }
    }

    fn postpone(&mut self, key: SessionSearchKey, deadline_ms: u64)
        requires
            old(self).wf(),
        ensures
            final(self).wf(),
            is_postponed(old(self).pending@, final(self).pending@, key, deadline_ms),
    {
        let ghost was = self.pending@;
        let mut i: usize = 0;
        while i < self.pending.len()
            invariant
                i <= self.pending.len(),
                self.pending@ == was,
                each_once(was),
                was == old(self).pending@,
                forall|k: int| 0 <= k < i ==> !(#[trigger] was[k]).key.same_as(key),
            decreases self.pending.len() - i,
        {
            if self.pending[i].key.equals(&key) {
                let entry = PendingUpsert { key, deadline_ms };
                self.pending.set(i, entry);
                proof {
                    let now = self.pending@;
                    assert forall|session_id: Seq<char>, cwd: Seq<char>, d: u64| #[trigger]
                        waits(now, session_id, cwd, d) <==> if key.is_key(session_id, cwd) {
                            d == deadline_ms
                        } else {
                            waits(was, session_id, cwd, d)
                        } by {
                        if key.is_key(session_id, cwd) {
                            assert(now[i as int].key.is_key(session_id, cwd));
                        }
                        if waits(now, session_id, cwd, d) {
                            let k = choose|k: int|
                                0 <= k < now.len() && (#[trigger] now[k]).key.is_key(session_id, cwd)
                                    && now[k].deadline_ms == d;
                            if k != i {
                                assert(was[k] == now[k]);
                                assert(was[k].key.is_key(session_id, cwd));
                                assert(k < i ==> !was[k].key.same_as(was[i as int].key));
                                assert(i < k ==> !was[i as int].key.same_as(was[k].key));
                            }
                        }
                        if waits(was, session_id, cwd, d) {
                            let k = choose|k: int|
                                0 <= k < was.len() && (#[trigger] was[k]).key.is_key(session_id, cwd)
                                    && was[k].deadline_ms == d;
                            if k != i {
                                assert(now[k].key.is_key(session_id, cwd));
                            }
                        }
                    }
                    assert forall|a: int, b: int| 0 <= a < b < now.len() implies !(
                    #[trigger] now[a]).key.same_as((#[trigger] now[b]).key) by {
                        assert(!was[a].key.same_as(was[b].key));
                    }
                }
                return;
            }
            i = i + 1;
        }
        let entry = PendingUpsert { key, deadline_ms };
        self.pending.push(entry);
        proof {
            let now = self.pending@;
            assert forall|session_id: Seq<char>, cwd: Seq<char>, d: u64| #[trigger]
                waits(now, session_id, cwd, d) <==> if key.is_key(session_id, cwd) {
                    d == deadline_ms
                } else {
                    waits(was, session_id, cwd, d)
                } by {
                if key.is_key(session_id, cwd) {
                    assert(now[was.len() as int].key.is_key(session_id, cwd));
                }
                if waits(now, session_id, cwd, d) {
                    let k = choose|k: int|
                        0 <= k < now.len() && (#[trigger] now[k]).key.is_key(session_id, cwd)
                            && now[k].deadline_ms == d;
                    if k < was.len() {
                        assert(was[k].key.is_key(session_id, cwd));
                        assert(!was[k].key.same_as(key));
                    }
                }
                if waits(was, session_id, cwd, d) {
                    let k = choose|k: int|
                        0 <= k < was.len() && (#[trigger] was[k]).key.is_key(session_id, cwd)
                            && was[k].deadline_ms == d;
                    assert(now[k].key.is_key(session_id, cwd));
                }
            }
            assert forall|a: int, b: int| 0 <= a < b < now.len() implies !(
            #[trigger] now[a]).key.same_as((#[trigger] now[b]).key) by {
                if b < was.len() {
                    assert(!was[a].key.same_as(was[b].key));
                } else {
                    assert(!was[a].key.same_as(key));
                }
            }
        }
    }

    /// Takes in a job at the time `now_ms`. A session that was updated waits
    /// from now on, however long it has waited already.
    pub fn handle_job(&mut self, job: SearchIndexJob, now_ms: u64) -> (r: WorkerAction)
        requires
            old(self).wf(),
            now_ms <= u64::MAX - SEARCH_INDEX_DEBOUNCE_MS,
        ensures
            final(self).wf(),
            match job {
                SearchIndexJob::Upsert(key) => r == WorkerAction::Nothing && is_postponed(
                    old(self).pending@,
                    final(self).pending@,
                    key,
                    (now_ms + SEARCH_INDEX_DEBOUNCE_MS) as u64,
                ),
                SearchIndexJob::BootstrapAll => r == WorkerAction::Bootstrap
                    && final(self).pending@ == old(self).pending@,
                SearchIndexJob::RecheckBootstrap => r == WorkerAction::ProbeMarker
                    && final(self).pending@ == old(self).pending@,
            },
    {
        match job {
            SearchIndexJob::Upsert(key) => {
                self.postpone(key, now_ms + SEARCH_INDEX_DEBOUNCE_MS);
                WorkerAction::Nothing
            },
            SearchIndexJob::BootstrapAll => WorkerAction::Bootstrap,
            SearchIndexJob::RecheckBootstrap => WorkerAction::ProbeMarker,
        }
    }

    /// When the next session is to be taken in; nothing where none waits.
    pub fn next_deadline(&self) -> (r: Option<u64>)
        ensures
            r is None <==> self.pending@.len() == 0,
            r matches Some(d) ==> {
                &&& exists|i: int|
                    0 <= i < self.pending@.len() && (#[trigger] self.pending@[i]).deadline_ms == d
                &&& forall|i: int|
                    0 <= i < self.pending@.len() ==> (#[trigger] self.pending@[i]).deadline_ms >= d
            },
    {
        if self.pending.len() == 0 {
            return None;
        }
        let mut least: u64 = self.pending[0].deadline_ms;
        let mut i: usize = 1;
        while i < self.pending.len()
            invariant
                1 <= i <= self.pending.len(),
                exists|k: int| 0 <= k < i && (#[trigger] self.pending@[k]).deadline_ms == least,
                forall|k: int| 0 <= k < i ==> (#[trigger] self.pending@[k]).deadline_ms >= least,
            decreases self.pending.len() - i,
        {
            if self.pending[i].deadline_ms < least {
                least = self.pending[i].deadline_ms;
                assert(self.pending@[i as int].deadline_ms == least);
            }
            i = i + 1;
        }
        Some(least)
    }

    /// Takes out the sessions whose time has come.
    pub fn flush_ready(self, now_ms: u64) -> (r: (SearchWorker, Vec<SessionSearchKey>))
        requires
            self.wf(),
        ensures
            r.0.wf(),
            r.0.pending@ == later_of(self.pending@, now_ms),
            r.1@ == ready_of(self.pending@, now_ms),
            is_flushed(self.pending@, r.0.pending@, r.1@, now_ms),
    {
        let mut later: Vec<PendingUpsert> = Vec::new();
        let mut ready: Vec<SessionSearchKey> = Vec::new();
        let ghost was = self.pending@;
        proof {
            flush_splits(was, now_ms);
            assert(was.take(0) =~= seq![]);
        }
        for entry in it: self.pending
            invariant
                it.seq() == was,
                later@ == later_of(was.take(it.index() as int), now_ms),
                ready@ == ready_of(was.take(it.index() as int), now_ms),
        {
            assert(was.take(it.index() + 1).drop_last() =~= was.take(it.index() as int));
            if entry.deadline_ms <= now_ms {
                ready.push(entry.key);
            } else {
                later.push(entry);
            }
        }
        assert(was.take(was.len() as int) =~= was);
        (SearchWorker { pending: later }, ready)
    }
}

/// The sessions whose time has not come by `now`.
pub open spec fn later_of(pending: Seq<PendingUpsert>, now: u64) -> Seq<PendingUpsert>
    decreases pending.len(),
{
    if pending.len() == 0 {
        seq![]
    } else if pending.last().deadline_ms > now {
        later_of(pending.drop_last(), now).push(pending.last())
    } else {
        later_of(pending.drop_last(), now)
    }
}

/// The sessions whose time has come by `now`.
pub open spec fn ready_of(pending: Seq<PendingUpsert>, now: u64) -> Seq<SessionSearchKey>
    decreases pending.len(),
{
    if pending.len() == 0 {
        seq![]
    } else if pending.last().deadline_ms <= now {
        ready_of(pending.drop_last(), now).push(pending.last().key)
    } else {
        ready_of(pending.drop_last(), now)
    }
}

proof fn waits_with_one_more(
    pending: Seq<PendingUpsert>,
    entry: PendingUpsert,
    session_id: Seq<char>,
    cwd: Seq<char>,
    deadline: u64,
)
    ensures
        waits(pending.push(entry), session_id, cwd, deadline) <==> waits(
            pending,
            session_id,
            cwd,
            deadline,
        ) || (entry.key.is_key(session_id, cwd) && entry.deadline_ms == deadline),
{
    let more = pending.push(entry);
    if waits(pending, session_id, cwd, deadline) {
        let i = choose|i: int|
            0 <= i < pending.len() && (#[trigger] pending[i]).key.is_key(session_id, cwd)
                && pending[i].deadline_ms == deadline;
        assert(more[i].key.is_key(session_id, cwd));
    }
    if entry.key.is_key(session_id, cwd) && entry.deadline_ms == deadline {
        assert(more[pending.len() as int].key.is_key(session_id, cwd));
    }
    if waits(more, session_id, cwd, deadline) {
        let i = choose|i: int|
            0 <= i < more.len() && (#[trigger] more[i]).key.is_key(session_id, cwd)
                && more[i].deadline_ms == deadline;
        if i < pending.len() {
            assert(pending[i].key.is_key(session_id, cwd));
        }
    }
}

proof fn has_key_with_one_more(
    keys: Seq<SessionSearchKey>,
    key: SessionSearchKey,
    session_id: Seq<char>,
    cwd: Seq<char>,
)
    ensures
        has_key(keys.push(key), session_id, cwd) <==> has_key(keys, session_id, cwd) || key.is_key(
            session_id,
            cwd,
        ),
{
    let more = keys.push(key);
    if has_key(keys, session_id, cwd) {
        let i = choose|i: int|
            0 <= i < keys.len() && (#[trigger] keys[i]).is_key(session_id, cwd);
        assert(more[i].is_key(session_id, cwd));
    }
    if key.is_key(session_id, cwd) {
        assert(more[keys.len() as int].is_key(session_id, cwd));
    }
    if has_key(more, session_id, cwd) {
        let i = choose|i: int|
            0 <= i < more.len() && (#[trigger] more[i]).is_key(session_id, cwd);
        if i < keys.len() {
            assert(keys[i].is_key(session_id, cwd));
        }
    }
}

proof fn later_is_part(pending: Seq<PendingUpsert>, now: u64)
    ensures
        forall|k: int|
            0 <= k < later_of(pending, now).len() ==> pending.contains(
                #[trigger] later_of(pending, now)[k],
            ),
    decreases pending.len(),
{
    if pending.len() > 0 {
        let init = pending.drop_last();
        later_is_part(init, now);
        assert forall|k: int| 0 <= k < later_of(pending, now).len() implies pending.contains(
            #[trigger] later_of(pending, now)[k],
        ) by {
            let entry = later_of(pending, now)[k];
            if k < later_of(init, now).len() {
                assert(entry == later_of(init, now)[k]);
                let i = choose|i: int| 0 <= i < init.len() && init[i] == entry;
                assert(pending[i] == entry);
            } else {
                assert(pending[pending.len() - 1] == entry);
            }
        }
    }
}

/// A flush takes out exactly the sessions whose time has come, and leaves each
/// of the others waiting once.
pub proof fn flush_splits(pending: Seq<PendingUpsert>, now: u64)
    ensures
        is_flushed(pending, later_of(pending, now), ready_of(pending, now), now),
        each_once(pending) ==> each_once(later_of(pending, now)),
    decreases pending.len(),
{
    if pending.len() > 0 {
        let init = pending.drop_last();
        let last = pending.last();
        flush_splits(init, now);
        later_is_part(init, now);
        assert(pending =~= init.push(last));
        assert forall|session_id: Seq<char>, cwd: Seq<char>, d: u64| #[trigger]
            waits(later_of(pending, now), session_id, cwd, d) <==> waits(
                pending,
                session_id,
                cwd,
                d,
            ) && d > now by {
            waits_with_one_more(init, last, session_id, cwd, d);
            waits_with_one_more(later_of(init, now), last, session_id, cwd, d);
            assert(waits(later_of(init, now), session_id, cwd, d) <==> waits(
                init,
                session_id,
                cwd,
                d,
            ) && d > now);
        }
        assert forall|session_id: Seq<char>, cwd: Seq<char>| #[trigger]
            has_key(ready_of(pending, now), session_id, cwd) <==> (exists|d: u64| #[trigger]
                waits(pending, session_id, cwd, d) && d <= now) by {
            has_key_with_one_more(ready_of(init, now), last.key, session_id, cwd);
            assert(has_key(ready_of(init, now), session_id, cwd) <==> (exists|d: u64| #[trigger]
                waits(init, session_id, cwd, d) && d <= now));
            assert forall|d: u64| #[trigger] waits(pending, session_id, cwd, d) <==> waits(
                init,
                session_id,
                cwd,
                d,
            ) || (last.key.is_key(session_id, cwd) && last.deadline_ms == d) by {
                waits_with_one_more(init, last, session_id, cwd, d);
            }
            if exists|d: u64| #[trigger] waits(init, session_id, cwd, d) && d <= now {
                let d = choose|d: u64| #[trigger] waits(init, session_id, cwd, d) && d <= now;
                assert(waits(pending, session_id, cwd, d));
            }
            if last.key.is_key(session_id, cwd) && last.deadline_ms <= now {
                assert(waits(pending, session_id, cwd, last.deadline_ms));
            }
        }
        if each_once(pending) {
            assert forall|i: int, j: int| 0 <= i < j < init.len() implies !(
            #[trigger] init[i]).key.same_as((#[trigger] init[j]).key) by {
                assert(!pending[i].key.same_as(pending[j].key));
            }
            let later = later_of(pending, now);
            assert forall|i: int, j: int| 0 <= i < j < later.len() implies !(
            #[trigger] later[i]).key.same_as((#[trigger] later[j]).key) by {
                let earlier = later_of(init, now);
                assert(later[i] == earlier[i]);
                if j < earlier.len() {
                    assert(!earlier[i].key.same_as(earlier[j].key));
                } else {
                    let k = choose|k: int| 0 <= k < init.len() && init[k] == earlier[i];
                    assert(!pending[k].key.same_as(pending[pending.len() - 1].key));
                }
            }
        }
    }
}

/// A session that was just updated is not taken in before it has been quiet for
/// the whole time, and is taken in then.
pub proof fn updates_are_gathered(
    before: Seq<PendingUpsert>,
    after: Seq<PendingUpsert>,
    key: SessionSearchKey,
    updated_at: u64,
    rest: Seq<PendingUpsert>,
    ready: Seq<SessionSearchKey>,
    now: u64,
)
    requires
        updated_at <= u64::MAX - SEARCH_INDEX_DEBOUNCE_MS,
        is_postponed(before, after, key, (updated_at + SEARCH_INDEX_DEBOUNCE_MS) as u64),
        is_flushed(after, rest, ready, now),
    ensures
        has_key(ready, key.session_id@, key.cwd@) <==> now >= updated_at + 500,
{
    let deadline = (updated_at + SEARCH_INDEX_DEBOUNCE_MS) as u64;
    assert(waits(after, key.session_id@, key.cwd@, deadline));
}

/// A session that is taken in no longer waits, and one that is not still does.
pub proof fn flush_loses_nothing(
    before: Seq<PendingUpsert>,
    after: Seq<PendingUpsert>,
    ready: Seq<SessionSearchKey>,
    now: u64,
    session_id: Seq<char>,
    cwd: Seq<char>,
    deadline: u64,
)
    requires
        is_flushed(before, after, ready, now),
        waits(before, session_id, cwd, deadline),
    ensures
        has_key(ready, session_id, cwd) || waits(after, session_id, cwd, deadline),
{
}

/// What follows once building the index has ended.
pub fn after_bootstrap(outcome: BootstrapOutcome) -> (r: WorkerAction)
    ensures
        r == (match outcome {
            BootstrapOutcome::Done => WorkerAction::Nothing,
            BootstrapOutcome::RunAgain => WorkerAction::RequestBootstrap,
            BootstrapOutcome::Failed => WorkerAction::LogFailure,
        }),
{
    match outcome {
        BootstrapOutcome::Done => WorkerAction::Nothing,
        BootstrapOutcome::RunAgain => WorkerAction::RequestBootstrap,
        BootstrapOutcome::Failed => WorkerAction::LogFailure,
    }
}

/// What follows once it is known whether the index is complete. Where that
/// cannot be read nothing follows: building it on every such failure would be
/// a storm, and the next search asks again.
pub fn after_marker_probe(complete: Option<bool>) -> (r: WorkerAction)
    ensures
        r == (match complete {
            Some(false) => WorkerAction::TryBootstrap,
            _ => WorkerAction::Nothing,
        }),
{
    match complete {
        Some(complete) => if complete {
            WorkerAction::Nothing
        } else {
            WorkerAction::TryBootstrap
        },
        None => WorkerAction::Nothing,
    }
}

/// What the index does with a session whose time has come.
#[derive(Debug)]
pub enum UpsertPlan<S> {
    /// Take in the session of this summary.
    Upsert(S),
    /// The session has gone: drop it.
    Delete,
    Fail(IoError),
}

/// What the index does with a session, given its summary.
pub fn upsert_by_key<S>(summary: Result<S, IoError>) -> (r: UpsertPlan<S>)
    ensures
        r == (match summary {
            Ok(summary) => UpsertPlan::Upsert(summary),
            Err(e) => if e.kind == ErrorKind::NotFound {
                UpsertPlan::Delete
            } else {
                UpsertPlan::Fail(e)
            },
        }),
{
    match summary {
        Ok(summary) => UpsertPlan::Upsert(summary),
        Err(e) => if e.kind == ErrorKind::NotFound {
            UpsertPlan::Delete
        } else {
            UpsertPlan::Fail(e)
        },
    }
}

// A search.

/// What the index found. `R` stands for a row of it.
#[derive(Debug)]
pub struct QueryOutcome<R> {
    pub results: Vec<R>,
    pub next_offset: Option<usize>,
    pub total_estimate: Option<usize>,
    /// Some process claims to build the index.
    pub claimed: bool,
    /// The index was built to its end once.
    pub completed: bool,
}

/// What the driver does next.
#[derive(Debug)]
#[allow(inconsistent_fields)]
pub enum SearchStep<R> {
    /// Ask for the index.
    RequestBootstrap,
    /// Look whether the index is being built.
    Poll { deadline_ms: u64 },
    Sleep { deadline_ms: u64 },
    /// Ask the index for the query.
    Query,
    /// Ask for the index anew: it was replaced meanwhile.
    RequestAgain { outcome: QueryOutcome<R> },
    /// Look whether the index is being built.
    ReadProgress { outcome: QueryOutcome<R>, healed: bool },
    Finished(Result<SessionSearchResponse<R>, IoError>),
}

/// What happened.
#[derive(Debug)]
#[allow(inconsistent_fields)]
pub enum SearchEvent<R> {
    Requested { now_ms: u64 },
    Polled { bootstrapping: bool, now_ms: u64 },
    Slept,
    /// The answer, and whether the index was replaced meanwhile.
    Queried { result: Result<QueryOutcome<R>, IoError>, healed: bool },
    Progress { bootstrapping: bool },
}

/// A search in progress.
#[derive(Debug)]
pub struct Search<R> {
    /// The query without the white space around it.
    pub query: String,
    pub step: SearchStep<R>,
}

/// Whether `event` is what the step can lead to.
pub open spec fn search_fits<R>(step: SearchStep<R>, event: SearchEvent<R>) -> bool {
    match step {
        SearchStep::RequestBootstrap => event matches SearchEvent::Requested { now_ms } && now_ms
            <= u64::MAX - BOOTSTRAP_WAIT_TIMEOUT_MS,
        SearchStep::Poll { .. } => event is Polled,
        SearchStep::Sleep { .. } => event is Slept,
        SearchStep::Query => event is Queried,
        SearchStep::RequestAgain { .. } => event is Requested,
        SearchStep::ReadProgress { .. } => event is Progress,
        SearchStep::Finished(_) => false,
    }
}

/// The answer to a search. The index is incomplete where it was replaced, is
/// being built here, or is claimed elsewhere without ever having been finished.
pub open spec fn answer<R>(
    outcome: QueryOutcome<R>,
    healed: bool,
    bootstrapping: bool,
) -> SessionSearchResponse<R> {
    SessionSearchResponse {
        results: outcome.results,
        next_offset: outcome.next_offset,
        total_estimate: outcome.total_estimate,
        bootstrapping: healed || bootstrapping || (outcome.claimed && !outcome.completed),
    }
}

/// What one event makes of a search. It waits for the index until it is built
/// or the time is up, and asks it either way.
pub open spec fn search_after<R>(step: SearchStep<R>, event: SearchEvent<R>) -> SearchStep<R> {
    match (step, event) {
        (SearchStep::RequestBootstrap, SearchEvent::Requested { now_ms }) => SearchStep::Poll {
            deadline_ms: (now_ms + BOOTSTRAP_WAIT_TIMEOUT_MS) as u64,
        },
        (SearchStep::Poll { deadline_ms }, SearchEvent::Polled { bootstrapping, now_ms }) =>
            if bootstrapping && now_ms < deadline_ms {
            SearchStep::Sleep { deadline_ms }
        } else {
            SearchStep::Query
        },
        (SearchStep::Sleep { deadline_ms }, SearchEvent::Slept) => SearchStep::Poll { deadline_ms },
        (SearchStep::Query, SearchEvent::Queried { result, healed }) => match result {
            Err(e) => SearchStep::Finished(Err(e)),
            Ok(outcome) => if healed {
                SearchStep::RequestAgain { outcome }
            } else {
                SearchStep::ReadProgress { outcome, healed: false }
            },
        },
        (SearchStep::RequestAgain { outcome }, SearchEvent::Requested { .. }) =>
            SearchStep::ReadProgress { outcome, healed: true },
        (SearchStep::ReadProgress { outcome, healed }, SearchEvent::Progress { bootstrapping }) =>
            SearchStep::Finished(Ok(answer(outcome, healed, bootstrapping))),
        (step, _) => step,
    }
}

/// Starts a search. A blank query finds nothing and asks nobody.
pub fn execute_search<R>(req: &SessionSearchRequest) -> (r: Search<R>)
    ensures
        r.query@ == trimmed(req.query@),
        trimmed(req.query@).len() > 0 ==> r.step is RequestBootstrap,
        trimmed(req.query@).len() == 0 ==> {
            &&& r.step matches SearchStep::Finished(Ok(response))
            &&& response.results@.len() == 0
            &&& response.next_offset is None
            &&& response.total_estimate == Some(0usize)
            &&& !response.bootstrapping
        },
{
    let query = trim(req.query.as_str());
    let step = if query.as_str().unicode_len() == 0 {
        SearchStep::Finished(
            Ok(
                SessionSearchResponse {
                    results: Vec::new(),
                    next_offset: None,
                    total_estimate: Some(0),
                    bootstrapping: false,
                },
            ),
        )
    } else {
        SearchStep::RequestBootstrap
    };
    Search { query, step }
}

impl<R> Search<R> {
    /// Takes in what happened.
    pub fn step(self, event: SearchEvent<R>) -> (r: Search<R>)
        requires
            search_fits(self.step, event),
        ensures
            r.query == self.query,
            r.step == search_after(self.step, event),
    {
        let step = match (self.step, event) {
            (SearchStep::RequestBootstrap, SearchEvent::Requested { now_ms }) => SearchStep::Poll {
                deadline_ms: now_ms + BOOTSTRAP_WAIT_TIMEOUT_MS,
            },
            (SearchStep::Poll { deadline_ms }, SearchEvent::Polled { bootstrapping, now_ms }) =>
                if bootstrapping && now_ms < deadline_ms {
                SearchStep::Sleep { deadline_ms }
            } else {
                SearchStep::Query
            },
            (SearchStep::Sleep { deadline_ms }, SearchEvent::Slept) => SearchStep::Poll {
                deadline_ms,
            },
            (SearchStep::Query, SearchEvent::Queried { result, healed }) => match result {
                Err(e) => SearchStep::Finished(Err(e)),
                Ok(outcome) => if healed {
                    SearchStep::RequestAgain { outcome }
                } else {
                    SearchStep::ReadProgress { outcome, healed: false }
                },
            },
            (SearchStep::RequestAgain { outcome }, SearchEvent::Requested { .. }) =>
                SearchStep::ReadProgress { outcome, healed: true },
            (
                SearchStep::ReadProgress { outcome, healed },
                SearchEvent::Progress { bootstrapping },
            ) => SearchStep::Finished(
                Ok(
                    SessionSearchResponse {
                        results: outcome.results,
                        next_offset: outcome.next_offset,
                        total_estimate: outcome.total_estimate,
                        bootstrapping: healed || bootstrapping || (outcome.claimed
                            && !outcome.completed),
                    },
                ),
            ),
            (step, _) => step,
        };
        Search { query: self.query, step }
    }
}

// What a search is for.

/// A search that ends well answers with what the index gave for the query: the
/// rows, where the next page begins, and the estimate. It says that the index
/// is incomplete if and only if it is being built here, was replaced under the
/// search, or is claimed elsewhere and was never finished.
pub proof fn answer_is_what_the_index_gave<R>(
    outcome: QueryOutcome<R>,
    healed: bool,
    event: SearchEvent<R>,
)
    requires
        search_fits(SearchStep::ReadProgress { outcome, healed }, event),
    ensures
        search_after(SearchStep::ReadProgress { outcome, healed }, event) matches
            SearchStep::Finished(Ok(response)) && {
            &&& response.results == outcome.results
            &&& response.next_offset == outcome.next_offset
            &&& response.total_estimate == outcome.total_estimate
            &&& response.bootstrapping == (healed || event->Progress_bootstrapping || (
            outcome.claimed && !outcome.completed))
        },
{
}

/// Only the answer of the index to the query ends a search well, and a failure
/// of the index is what a search fails with.
pub proof fn search_ends_with_the_index<R>(step: SearchStep<R>, event: SearchEvent<R>)
    requires
        search_fits(step, event),
    ensures
        search_after(step, event) matches SearchStep::Finished(Ok(_)) ==> step is ReadProgress,
        search_after(step, event) matches SearchStep::Finished(Err(e)) ==> {
            &&& step is Query
            &&& event matches SearchEvent::Queried { result: Err(f), .. } && f == e
        },
        step is Query ==> match event {
            SearchEvent::Queried { result: Err(e), .. } => search_after(step, event)
                == SearchStep::<R>::Finished(Err(e)),
            SearchEvent::Queried { result: Ok(outcome), healed } => {
                let next = search_after(step, event);
                &&& healed ==> next == (SearchStep::RequestAgain { outcome })
                &&& !healed ==> next == (SearchStep::ReadProgress { outcome, healed: false })
            },
            _ => false,
        },
{
}

/// What the index gave is kept while the index is asked for anew, and the answer
/// then counts as incomplete.
pub proof fn replaced_index_is_asked_for_anew<R>(outcome: QueryOutcome<R>, event: SearchEvent<R>)
    requires
        search_fits(SearchStep::RequestAgain { outcome }, event),
    ensures
        search_after(SearchStep::RequestAgain { outcome }, event) == (SearchStep::ReadProgress {
            outcome,
            healed: true,
        }),
{
}

/// A search asks for the index first. It then waits as long as the index is
/// being built, at most five seconds from its request, and then asks the query;
/// an index that is not being built is asked at once.
pub proof fn search_waits_for_the_index<R>(
    requested_ms: u64,
    bootstrapping: bool,
    now_ms: u64,
)
    requires
        requested_ms <= u64::MAX - 5000,
    ensures
        ({
            let polling = search_after(
                SearchStep::<R>::RequestBootstrap,
                SearchEvent::Requested { now_ms: requested_ms },
            );
            let next = search_after(polling, SearchEvent::Polled { bootstrapping, now_ms });
            &&& polling is Poll
            &&& next is Query <==> !bootstrapping || now_ms >= requested_ms + 5000
            &&& !(next is Query) ==> next is Sleep && search_after(next, SearchEvent::Slept)
                == polling
        }),
{
}

/// An updated session waits until nothing was heard of it for half a second:
/// with one more update its deadline moves, and that of no other session does.
pub proof fn updates_move_one_deadline(
    before: Seq<PendingUpsert>,
    after: Seq<PendingUpsert>,
    key: SessionSearchKey,
    deadline: u64,
    other: SessionSearchKey,
    d: u64,
)
    requires
        is_postponed(before, after, key, deadline),
    ensures
        waits(after, key.session_id@, key.cwd@, deadline),
        other.session_id@ != key.session_id@ || other.cwd@ != key.cwd@ ==> waits(
            after,
            other.session_id@,
            other.cwd@,
            d,
        ) == waits(before, other.session_id@, other.cwd@, d),
        other.session_id@ == key.session_id@ && other.cwd@ == key.cwd@ && d != deadline ==> !waits(
            after,
            other.session_id@,
            other.cwd@,
            d,
        ),
{
    assert(waits(after, key.session_id@, key.cwd@, deadline));
}

/// A flush hands out exactly the sessions whose deadline has come, in the order
/// in which they waited, and keeps exactly the others, in theirs.
pub proof fn flush_hands_out_what_is_due(pending: Seq<PendingUpsert>, now: u64, i: int)
    requires
        0 <= i < pending.len(),
    ensures
        later_of(pending, now).len() + ready_of(pending, now).len() == pending.len(),
        pending[i].deadline_ms <= now ==> {
            let at = ready_of(pending.take(i), now).len() as int;
            &&& at < ready_of(pending, now).len()
            &&& ready_of(pending, now)[at] == pending[i].key
        },
        pending[i].deadline_ms > now ==> {
            let at = later_of(pending.take(i), now).len() as int;
            &&& at < later_of(pending, now).len()
            &&& later_of(pending, now)[at] == pending[i]
        },
    decreases pending.len(),
{
    let init = pending.drop_last();
    if i < init.len() {
        flush_hands_out_what_is_due(init, now, i);
        assert(init.take(i) =~= pending.take(i));
    } else {
        assert(init =~= pending.take(i));
        flush_counts(init, now);
    }
}

proof fn flush_counts(pending: Seq<PendingUpsert>, now: u64)
    ensures
        later_of(pending, now).len() + ready_of(pending, now).len() == pending.len(),
    decreases pending.len(),
{
    if pending.len() > 0 {
        flush_counts(pending.drop_last(), now);
    }
}

/// A root's jobs go to the one worker of that root, which is started with the
/// first of them; what one root asks for has no part in another.
pub proof fn roots_are_served_apart(
    before: SearchManagerState,
    cmd: SearchManagerCmd,
    after: SearchManagerState,
    d: Dispatch,
    other: Seq<char>,
)
    requires
        is_commanded(before, cmd, after, d),
    ensures
        match cmd {
            SearchManagerCmd::Enqueue { root, job } => d.root == root && d.job == job,
            SearchManagerCmd::BootstrapOnce { root } => d.root == root && (d.job is BootstrapAll
                <==> !knows(before.bootstrapped@, root@)) && (d.job is RecheckBootstrap <==> knows(
                before.bootstrapped@,
                root@,
            )) && knows(after.bootstrapped@, root@),
        },
        d.start_worker <==> !knows(before.workers@, d.root@),
        knows(after.workers@, d.root@),
        other != d.root@ ==> knows(after.workers@, other) == knows(before.workers@, other),
        other != d.root@ || cmd is Enqueue ==> knows(after.bootstrapped@, other) == knows(
            before.bootstrapped@,
            other,
        ),
{
}

} // verus!
