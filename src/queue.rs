//! Job queue: pending entries are leased one at a time, acknowledged, or
//! failed back for a bounded number of retries. Every operation takes the
//! queue by exclusive reference, so concurrent executors that share it
//! (behind a lock) claim entries one at a time.
use vstd::prelude::*;

verus! {

/// Attempts a job entry gets before it is given up.
pub const MAX_ATTEMPTS: u32 = 10;

/// Lifecycle state of a job entry.
#[derive(Clone, Copy, Debug, PartialEq, Eq, Structural)]
pub enum JobStatus {
    Pending,
    Leased,
    Done,
    Dead,
}

/// One scheduled execution of a fetch definition.
#[derive(Clone, Copy, Debug, PartialEq, Eq, Structural)]
pub struct JobEntry {
    pub id: u64,
    pub fetch_id: i32,
    pub run_at: i64,
    pub status: JobStatus,
    pub attempts: u32,
    pub max_attempts: u32,
    /// When the entry was last leased (seconds).
    pub leased_at: i64,
}

/// Why a queue operation did not take place.
#[derive(Clone, Copy, Debug, PartialEq, Eq, Structural)]
pub enum QueueError {
    /// The queue cannot hold another entry.
    Storage,
    /// No entry has this id.
    UnknownJob,
    /// The entry is not currently leased.
    NotLeased,
    /// The entry was leased again since: this lease was reclaimed.
    StaleLease,
}

/// The queue. An entry's id is its position, and entries are never removed:
/// finished entries stay, archived, as `Done` or `Dead`.
pub struct JobQueue {
    entries: Vec<JobEntry>,
}

/// The entry can be leased at `now`.
pub open spec fn is_due(e: JobEntry, now: int) -> bool {
    e.status == JobStatus::Pending && e.run_at <= now
}

/// Well-formed entry at position `i`.
pub open spec fn entry_wf(e: JobEntry, i: int) -> bool {
    &&& e.id == i
    &&& e.max_attempts == MAX_ATTEMPTS
    &&& e.attempts <= e.max_attempts
    &&& e.status == JobStatus::Pending ==> e.attempts < e.max_attempts
    &&& e.status == JobStatus::Dead ==> e.attempts >= e.max_attempts
}

/// Well-formed contents of a queue.
pub open spec fn entries_wf(s: Seq<JobEntry>) -> bool {
    &&& s.len() <= u64::MAX
    &&& forall|i: int| 0 <= i < s.len() ==> #[trigger] entry_wf(s[i], i)
}

/// A fresh pending entry.
pub open spec fn new_entry(id: int, fetch_id: i32, run_at: i64) -> JobEntry {
    JobEntry {
        id: id as u64,
        fetch_id,
        run_at,
        status: JobStatus::Pending,
        attempts: 0,
        max_attempts: MAX_ATTEMPTS,
        leased_at: 0,
    }
}

/// The entry `e` once leased at `now`: one more attempt is counted.
pub open spec fn leased(e: JobEntry, now: i64) -> JobEntry {
    JobEntry { status: JobStatus::Leased, attempts: (e.attempts + 1) as u32, leased_at: now, ..e }
}

/// What `fail` turns a leased entry into.
pub open spec fn failed(e: JobEntry) -> JobEntry {
    JobEntry {
        status: if e.attempts < e.max_attempts {
            JobStatus::Pending
        } else {
            JobStatus::Dead
        },
        ..e
    }
}

/// Outcome of `enqueue` on contents `s`.
pub open spec fn enqueue_outcome(
    s: Seq<JobEntry>,
    fetch_id: i32,
    run_at: i64,
    t: Seq<JobEntry>,
    r: Result<u64, QueueError>,
) -> bool {
    if s.len() < u64::MAX {
        r == Ok::<u64, QueueError>(s.len() as u64) && t == s.push(new_entry(s.len() as int, fetch_id, run_at))
    } else {
        r == Err::<u64, QueueError>(QueueError::Storage) && t == s
    }
}

/// Outcome of `lease_next` at `now`: the first due entry, if any, is leased.
pub open spec fn lease_outcome(s: Seq<JobEntry>, now: i64, t: Seq<JobEntry>, r: Option<JobEntry>) -> bool {
    match r {
        None => t == s && forall|i: int| 0 <= i < s.len() ==> !is_due(#[trigger] s[i], now as int),
        Some(e) => {
            let i = e.id as int;
            &&& 0 <= i < s.len()
            &&& is_due(s[i], now as int)
            &&& forall|j: int| 0 <= j < i ==> !is_due(#[trigger] s[j], now as int)
            &&& e == leased(s[i], now)
            &&& t == s.update(i, e)
        },
    }
}

/// The entry with this id exists and is leased.
pub open spec fn is_leased(s: Seq<JobEntry>, id: int) -> bool {
    0 <= id < s.len() && s[id].status == JobStatus::Leased
}

/// The lease on entry `id` that counted attempt `attempt` is still held.
pub open spec fn holds_lease(s: Seq<JobEntry>, id: int, attempt: u32) -> bool {
    is_leased(s, id) && s[id].attempts == attempt
}

/// The error for a lease that is not held.
pub open spec fn settle_error(s: Seq<JobEntry>, id: int) -> QueueError {
    if !(0 <= id < s.len()) {
        QueueError::UnknownJob
    } else if s[id].status != JobStatus::Leased {
        QueueError::NotLeased
    } else {
        QueueError::StaleLease
    }
}

/// Outcome of `ack`.
pub open spec fn ack_outcome(
    s: Seq<JobEntry>,
    id: int,
    attempt: u32,
    t: Seq<JobEntry>,
    r: Result<(), QueueError>,
) -> bool {
    if holds_lease(s, id, attempt) {
        r == Ok::<(), QueueError>(()) && t == s.update(id, JobEntry { status: JobStatus::Done, ..s[id] })
    } else {
        r == Err::<(), QueueError>(settle_error(s, id)) && t == s
    }
}

/// The entry has been leased for at least `timeout` seconds at `now`.
pub open spec fn lease_expired(e: JobEntry, now: int, timeout: int) -> bool {
    e.status == JobStatus::Leased && now - e.leased_at >= timeout
}

/// What `reclaim_expired` makes of an entry: an expired lease counts as a
/// failed attempt, anything else is left alone.
pub open spec fn reclaimed(e: JobEntry, now: int, timeout: int) -> JobEntry {
    if lease_expired(e, now, timeout) {
        failed(e)
    } else {
        e
    }
}

/// Outcome of `fail`: the new status is returned.
pub open spec fn fail_outcome(
    s: Seq<JobEntry>,
    id: int,
    attempt: u32,
    t: Seq<JobEntry>,
    r: Result<JobStatus, QueueError>,
) -> bool {
    if holds_lease(s, id, attempt) {
        r == Ok::<JobStatus, QueueError>(failed(s[id]).status) && t == s.update(id, failed(s[id]))
    } else {
        r == Err::<JobStatus, QueueError>(settle_error(s, id)) && t == s
    }
}

/// Leasing is exclusive. A lease made while an entry is due receives some
/// entry, and a lease never hands out an entry that is already leased: that
/// entry stays leased, untouched, until it is acknowledged, failed or
/// reclaimed.
pub proof fn lemma_lease_exclusive(s: Seq<JobEntry>, now: i64, t: Seq<JobEntry>, r: Option<JobEntry>, id: int)
    requires
        lease_outcome(s, now, t, r),
    ensures
        is_leased(s, id) ==> (r is None || r->Some_0.id != id) && t[id] == s[id],
        (0 <= id < s.len() && is_due(s[id], now as int)) ==> r is Some,
        r is Some ==> is_leased(t, r->Some_0.id as int),
{
    if 0 <= id < s.len() && is_due(s[id], now as int) && r is None {
        assert(!is_due(s[id], now as int));
    }
}

/// Of two leases in a row, at most one returns a given entry.
pub proof fn lemma_lease_once(
    s: Seq<JobEntry>,
    now1: i64,
    t: Seq<JobEntry>,
    r1: Option<JobEntry>,
    now2: i64,
    u: Seq<JobEntry>,
    r2: Option<JobEntry>,
)
    requires
        lease_outcome(s, now1, t, r1),
        lease_outcome(t, now2, u, r2),
        r1 is Some,
    ensures
        r2 is None || r2->Some_0.id != r1->Some_0.id,
{
    lemma_lease_exclusive(s, now1, t, r1, r1->Some_0.id as int);
    lemma_lease_exclusive(t, now2, u, r2, r1->Some_0.id as int);
}

/// A dead entry stays dead: no lease returns it, and neither `enqueue`,
/// `ack`, `fail` nor `reclaim_expired` changes it.
pub proof fn lemma_dead_is_final(s: Seq<JobEntry>, id: int, now: i64, t: Seq<JobEntry>, r: Option<JobEntry>)
    requires
        0 <= id < s.len(),
        s[id].status == JobStatus::Dead,
        lease_outcome(s, now, t, r),
    ensures
        r is None || r->Some_0.id != id,
        t[id] == s[id],
        forall|fid: i32, at: i64, u: Seq<JobEntry>, q: Result<u64, QueueError>|
            #[trigger] enqueue_outcome(s, fid, at, u, q) ==> u[id] == s[id],
        forall|k: int, a: u32, u: Seq<JobEntry>, q: Result<(), QueueError>|
            #[trigger] ack_outcome(s, k, a, u, q) ==> u[id] == s[id],
        forall|k: int, a: u32, u: Seq<JobEntry>, q: Result<JobStatus, QueueError>|
            #[trigger] fail_outcome(s, k, a, u, q) ==> u[id] == s[id],
        forall|at: int, timeout: int| #[trigger] reclaimed(s[id], at, timeout) == s[id],
{
}

/// The leases and failures of `lemma_attempts_exhausted`, up to cycle `n`.
pub open spec fn lease_fail_cycles(
    states: Seq<Seq<JobEntry>>,
    nows: Seq<i64>,
    leases: Seq<Option<JobEntry>>,
    mids: Seq<Seq<JobEntry>>,
    fails: Seq<Result<JobStatus, QueueError>>,
    id: int,
    n: int,
) -> bool {
    &&& states.len() > n
    &&& nows.len() >= n
    &&& leases.len() >= n
    &&& mids.len() >= n
    &&& fails.len() >= n
    &&& entries_wf(states[0])
    &&& 0 <= id < states[0].len()
    &&& states[0][id].status == JobStatus::Pending
    &&& states[0][id].attempts == 0
    &&& forall|k: int| 0 <= k < n ==> #[trigger] lease_outcome(states[k], nows[k], mids[k], leases[k])
    &&& forall|k: int| 0 <= k < n ==> #[trigger] leases[k] is Some && leases[k]->Some_0.id == id
    &&& forall|k: int| 0 <= k < n ==> #[trigger] fail_outcome(mids[k], id, leases[k]->Some_0.attempts, states[k + 1], fails[k])
}

proof fn lemma_cycles_count(
    states: Seq<Seq<JobEntry>>,
    nows: Seq<i64>,
    leases: Seq<Option<JobEntry>>,
    mids: Seq<Seq<JobEntry>>,
    fails: Seq<Result<JobStatus, QueueError>>,
    id: int,
    n: int,
)
    requires
        0 <= n <= MAX_ATTEMPTS,
        lease_fail_cycles(states, nows, leases, mids, fails, id, n),
    ensures
        0 <= id < states[n].len(),
        states[n][id].max_attempts == MAX_ATTEMPTS,
        states[n][id].attempts == n,
        n < MAX_ATTEMPTS ==> states[n][id].status == JobStatus::Pending,
        n == MAX_ATTEMPTS ==> states[n][id].status == JobStatus::Dead,
        n == MAX_ATTEMPTS ==> fails[n - 1] == Ok::<JobStatus, QueueError>(JobStatus::Dead),
        forall|j: int| 0 <= j < n && j < MAX_ATTEMPTS - 1 ==> #[trigger] fails[j] == Ok::<JobStatus, QueueError>(JobStatus::Pending),
    decreases n,
{
    if n == 0 {
        assert(entry_wf(states[0][id], id));
    } else {
        let k = n - 1;
        lemma_cycles_count(states, nows, leases, mids, fails, id, k);
        assert(lease_outcome(states[k], nows[k], mids[k], leases[k]));
        assert(leases[k] is Some && leases[k]->Some_0.id == id);
        assert(fail_outcome(mids[k], id, leases[k]->Some_0.attempts, states[k + 1], fails[k]));
    }
}

/// Attempt accounting: an entry that starts pending with no attempt, and is
/// leased and then failed `MAX_ATTEMPTS` times in a row, goes back to
/// `Pending` after each of the first `MAX_ATTEMPTS - 1` failures and is `Dead`
/// after the last (see `lemma_dead_is_final` for what follows).
pub proof fn lemma_attempts_exhausted(
    states: Seq<Seq<JobEntry>>,
    nows: Seq<i64>,
    leases: Seq<Option<JobEntry>>,
    mids: Seq<Seq<JobEntry>>,
    fails: Seq<Result<JobStatus, QueueError>>,
    id: int,
)
    requires
        lease_fail_cycles(states, nows, leases, mids, fails, id, MAX_ATTEMPTS as int),
    ensures
        states[MAX_ATTEMPTS as int][id].status == JobStatus::Dead,
        fails[MAX_ATTEMPTS - 1] == Ok::<JobStatus, QueueError>(JobStatus::Dead),
        forall|k: int| 0 <= k < MAX_ATTEMPTS - 1 ==> #[trigger] fails[k] == Ok::<JobStatus, QueueError>(JobStatus::Pending),
{
    lemma_cycles_count(states, nows, leases, mids, fails, id, MAX_ATTEMPTS as int);
}

impl View for JobQueue {
    type V = Seq<JobEntry>;

    closed spec fn view(&self) -> Seq<JobEntry> {
        self.entries@
    }
}

impl JobQueue {
    pub open spec fn wf(&self) -> bool {
        entries_wf(self@)
    }

    /// An empty queue.
    pub fn new() -> (q: JobQueue)
        ensures
            q.wf(),
            q@ == Seq::<JobEntry>::empty(),
    {
        JobQueue { entries: Vec::new() }
    }

    /// Number of entries ever enqueued.
    pub fn len(&self) -> (n: usize)
        ensures
            n == self@.len(),
    {
        self.entries.len()
    }

    /// The entry with id `id`, if any.
    pub fn get(&self, id: u64) -> (r: Option<JobEntry>)
        ensures
            r == (if id < self@.len() {
                Some(self@[id as int])
            } else {
                None
            }),
    {
        if id < self.entries.len() as u64 {
            Some(self.entries[id as usize])
        } else {
            None
        }
    }

    /// Inserts a pending entry for `fetch_id` due at `run_at`; returns its id.
    pub fn enqueue(&mut self, fetch_id: i32, run_at: i64) -> (r: Result<u64, QueueError>)
        requires
            old(self).wf(),
        ensures
            final(self).wf(),
            enqueue_outcome(old(self)@, fetch_id, run_at, final(self)@, r),
    {
        let n = self.entries.len();
        if n as u64 >= u64::MAX {
            return Err(QueueError::Storage);
        }
        let e = JobEntry {
            id: n as u64,
            fetch_id,
            run_at,
            status: JobStatus::Pending,
            attempts: 0,
            max_attempts: MAX_ATTEMPTS,
            leased_at: 0,
        };
        self.entries.push(e);
        proof {
            assert forall|i: int| 0 <= i < self@.len() implies #[trigger] entry_wf(self@[i], i) by {
                if i < n {
                    assert(self@[i] == old(self)@[i]);
                }
            }
        }
        Ok(n as u64)
    }

    /// Leases the first entry that is pending and due at `now`, counting one
    /// attempt; `None` when nothing is due.
    pub fn lease_next(&mut self, now: i64) -> (r: Option<JobEntry>)
        requires
            old(self).wf(),
        ensures
            final(self).wf(),
            lease_outcome(old(self)@, now, final(self)@, r),
    {
        let n = self.entries.len();
        let mut i: usize = 0;
        while i < n
            invariant
                n == self.entries@.len(),
                self@ == old(self)@,
                entries_wf(self@),
                i <= n,
                forall|j: int| 0 <= j < i ==> !is_due(#[trigger] self@[j], now as int),
            decreases n - i,
        {
            let e = self.entries[i];
            if e.status == JobStatus::Pending && e.run_at <= now {
                assert(entry_wf(self@[i as int], i as int));
                let l = JobEntry { status: JobStatus::Leased, attempts: e.attempts + 1, leased_at: now, ..e };
                self.entries.set(i, l);
                proof {
                    assert forall|k: int| 0 <= k < self@.len() implies #[trigger] entry_wf(self@[k], k) by {
                        if k != i {
                            assert(self@[k] == old(self)@[k]);
                        }
                    }
                }
                return Some(l);
            }
            i = i + 1;
        }
        None
    }

    /// Marks entry `id` `Done`, if the lease that counted attempt `attempt`
    /// is still held.
    pub fn ack(&mut self, id: u64, attempt: u32) -> (r: Result<(), QueueError>)
        requires
            old(self).wf(),
        ensures
            final(self).wf(),
            ack_outcome(old(self)@, id as int, attempt, final(self)@, r),
    {
        if id >= self.entries.len() as u64 {
            return Err(QueueError::UnknownJob);
        }
        let e = self.entries[id as usize];
        if e.status != JobStatus::Leased {
            return Err(QueueError::NotLeased);
        }
        if e.attempts != attempt {
            return Err(QueueError::StaleLease);
        }
        self.entries.set(id as usize, JobEntry { status: JobStatus::Done, ..e });
        proof {
            assert forall|k: int| 0 <= k < self@.len() implies #[trigger] entry_wf(self@[k], k) by {
                if k != id {
                    assert(self@[k] == old(self)@[k]);
                } else {
                    assert(entry_wf(old(self)@[k], k));
                }
            }
        }
        Ok(())
    }

    /// Treats every lease held for at least `timeout` seconds at `now` as a
    /// failed attempt, so that an entry whose executor vanished is retried
    /// or given up. Other entries are unchanged.
    pub fn reclaim_expired(&mut self, now: i64, timeout: i64)
        requires
            old(self).wf(),
        ensures
            final(self).wf(),
            final(self)@.len() == old(self)@.len(),
            forall|i: int|
                0 <= i < old(self)@.len() ==> #[trigger] final(self)@[i] == reclaimed(
                    old(self)@[i],
                    now as int,
                    timeout as int,
                ),
    {
        let n = self.entries.len();
        let mut i: usize = 0;
        while i < n
            invariant
                n == self@.len(),
                n == old(self)@.len(),
                entries_wf(old(self)@),
                i <= n,
                forall|j: int| 0 <= j < i ==> #[trigger] self@[j] == reclaimed(old(self)@[j], now as int, timeout as int),
                forall|j: int| i <= j < n ==> #[trigger] self@[j] == old(self)@[j],
                entries_wf(self@),
            decreases n - i,
        {
            let e = self.entries[i];
            if e.status == JobStatus::Leased && now as i128 - e.leased_at as i128 >= timeout as i128 {
                assert(entry_wf(self@[i as int], i as int));
                let status = if e.attempts < e.max_attempts {
                    JobStatus::Pending
                } else {
                    JobStatus::Dead
                };
                self.entries.set(i, JobEntry { status, ..e });
                proof {
                    assert forall|k: int| 0 <= k < self@.len() implies #[trigger] entry_wf(self@[k], k) by {
                        if k != i {
                            assert(entry_wf(self@[k], k));
                        }
                    }
                }
            }
            i = i + 1;
        }
    }

    /// Reports a failed execution under the lease on entry `id` that counted
    /// attempt `attempt`, if it is still held: the entry goes back to
    /// `Pending`, run time unchanged, while attempts remain, else to `Dead`.
    pub fn fail(&mut self, id: u64, attempt: u32) -> (r: Result<JobStatus, QueueError>)
        requires
            old(self).wf(),
        ensures
            final(self).wf(),
            fail_outcome(old(self)@, id as int, attempt, final(self)@, r),
    {
        if id >= self.entries.len() as u64 {
            return Err(QueueError::UnknownJob);
        }
        let e = self.entries[id as usize];
        if e.status != JobStatus::Leased {
            return Err(QueueError::NotLeased);
        }
        if e.attempts != attempt {
            return Err(QueueError::StaleLease);
        }
        let status = if e.attempts < e.max_attempts {
            JobStatus::Pending
        } else {
            JobStatus::Dead
        };
        self.entries.set(id as usize, JobEntry { status, ..e });
        proof {
            assert forall|k: int| 0 <= k < self@.len() implies #[trigger] entry_wf(self@[k], k) by {
                if k != id {
                    assert(self@[k] == old(self)@[k]);
                } else {
                    assert(entry_wf(old(self)@[k], k));
                }
            }
        }
        Ok(status)
    }
}

} // verus!
