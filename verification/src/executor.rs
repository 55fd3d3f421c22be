//! Checkpoint Executor: one fuzzy-checkpoint run. It records `begin_lsn`,
//! works off an immutable tracker snapshot in ordered batches, retries a
//! failing batch a bounded number of times, and only after every batch is
//! acknowledged durable does it produce the Checkpoint Record that bounds
//! the recoverable region. An aborted run leaves nothing durable behind.
//!
//! Batches are submitted without waiting for earlier ones to complete, up
//! to the run's in-flight bound (one for strictly sequential flushing);
//! completions are reported in submission order.

use vstd::prelude::*;

use crate::tracker::{PageEntry, TrackerSnapshot};

verus! {

/// Lifecycle of one checkpoint run.
#[derive(Clone, Copy, Debug, PartialEq, Eq, Structural)]
pub enum RunStatus {
    /// Batches are still being flushed.
    Running,
    /// Every batch is acknowledged durable; the record may be persisted.
    Committing,
    /// The Checkpoint Record was produced; the run is terminal.
    Committed,
    /// Bounded retries were exhausted on some batch; nothing durable
    /// references the run, the next scheduled run retries from scratch.
    Aborted,
}

/// The persisted anchor that crash recovery starts from.
#[derive(Clone, Copy, Debug, PartialEq, Eq, Structural)]
pub struct CheckpointRecord {
    /// Log head position when the run started.
    pub begin_lsn: u64,
    /// The earliest log position recovery must replay from: the minimum
    /// `recovery_lsn` over the snapshot, or `begin_lsn` for an empty one.
    pub recovery_lsn: u64,
    /// Log head position when the run committed.
    pub end_lsn: u64,
}

impl CheckpointRecord {
    /// The record invariant: `recovery_lsn <= begin_lsn <= end_lsn`.
    pub open spec fn wf(self) -> bool {
        self.recovery_lsn <= self.begin_lsn <= self.end_lsn
    }
}

/// The minimum `recovery_lsn` over the entries, or `default` when there
/// are none.
pub open spec fn min_recovery_lsn(s: Seq<PageEntry>, default: u64) -> u64
    decreases s.len(),
{
    if s.len() == 0 {
        default
    } else {
        let m = min_recovery_lsn(s.drop_last(), default);
        if s.last().recovery_lsn < m {
            s.last().recovery_lsn
        } else {
            m
        }
    }
}

/// Law: `min_recovery_lsn` is a lower bound on `default` and on every
/// entry's `recovery_lsn`, and is attained: it equals one of them.
pub proof fn lemma_min_recovery_lsn(s: Seq<PageEntry>, default: u64)
    ensures
        min_recovery_lsn(s, default) <= default,
        forall|i: int|
            0 <= i < s.len() ==> min_recovery_lsn(s, default) <= (#[trigger] s[i]).recovery_lsn,
        min_recovery_lsn(s, default) == default || exists|i: int|
            0 <= i < s.len() && (#[trigger] s[i]).recovery_lsn == min_recovery_lsn(s, default),
    decreases s.len(),
{
    if s.len() > 0 {
        let t = s.drop_last();
        lemma_min_recovery_lsn(t, default);
        let m = min_recovery_lsn(s, default);
        assert forall|i: int| 0 <= i < s.len() implies m <= (#[trigger] s[i]).recovery_lsn by {
            if i < s.len() - 1 {
                assert(t[i] == s[i]);
            }
        }
        if m != default {
            if s.last().recovery_lsn < min_recovery_lsn(t, default) {
                assert(s[s.len() - 1].recovery_lsn == m);
            } else {
                let i = choose|i: int|
                    0 <= i < t.len() && (#[trigger] t[i]).recovery_lsn == min_recovery_lsn(
                        t,
                        default,
                    );
                assert(s[i].recovery_lsn == m);
            }
        }
    }
}

/// The sum of a sequence of window lengths.
pub open spec fn window_sum(s: Seq<usize>) -> int
    decreases s.len(),
{
    if s.len() == 0 {
        0
    } else {
        window_sum(s.drop_last()) + s.last()
    }
}

/// A sum of positive window lengths is nonnegative, and positive when
/// there is at least one window.
proof fn lemma_window_sum_positive(s: Seq<usize>)
    requires
        forall|i: int| 0 <= i < s.len() ==> (#[trigger] s[i]) > 0,
    ensures
        window_sum(s) >= 0,
        s.len() > 0 ==> window_sum(s) > 0,
    decreases s.len(),
{
    if s.len() > 0 {
        let t = s.drop_last();
        assert forall|i: int| 0 <= i < t.len() implies (#[trigger] t[i]) > 0 by {
            assert(s[i] > 0);
        }
        lemma_window_sum_positive(t);
    }
}

/// Appending a window adds its length to the sum.
proof fn lemma_window_sum_push(s: Seq<usize>, x: usize)
    ensures
        window_sum(s.push(x)) == window_sum(s) + x,
{
    assert(s.push(x).drop_last() =~= s);
    assert(s.push(x).last() == x);
}

/// The sum splits off the first window.
proof fn lemma_window_sum_pop_front(s: Seq<usize>)
    requires
        s.len() > 0,
    ensures
        window_sum(s) == s[0] + window_sum(s.subrange(1, s.len() as int)),
    decreases s.len(),
{
    if s.len() == 1 {
        assert(s.drop_last() =~= Seq::<usize>::empty());
        assert(s.subrange(1, 1) =~= Seq::<usize>::empty());
    } else {
        let t = s.drop_last();
        lemma_window_sum_pop_front(t);
        assert(s.subrange(1, s.len() as int).drop_last() =~= t.subrange(1, t.len() as int));
        assert(s.subrange(1, s.len() as int).last() == s.last());
    }
}

/// The page ids of the `count` snapshot entries starting at `start`.
fn window_page_ids(entries: &Vec<PageEntry>, start: usize, count: usize) -> (ids: Vec<u64>)
    requires
        start + count <= entries@.len(),
    ensures
        ids@.len() == count,
        forall|j: int| 0 <= j < count ==> ids@[j] == (#[trigger] entries@[start + j]).page_id,
{
    let n = entries.len();
    let mut ids: Vec<u64> = Vec::new();
    let mut j: usize = 0;
    while j < count
        invariant
            0 <= j <= count,
            n == entries@.len(),
            start + count <= n,
            ids@.len() == j,
            forall|k: int| 0 <= k < j ==> ids@[k] == (#[trigger] entries@[start + k]).page_id,
        decreases count - j,
    {
        ids.push(entries[start + j].page_id);
        j += 1;
    }
    ids
}

/// One fuzzy checkpoint run, owned exclusively by the executor until it
/// is terminal. Transactions keep reading and writing pages concurrently;
/// the run only works off its snapshot.
pub struct CheckpointRun {
    begin_lsn: u64,
    snapshot: TrackerSnapshot,
    recovery_lsn: u64,
    batch_size: usize,
    max_retries: u64,
    max_in_flight: usize,
    next_index: usize,
    submitted_index: usize,
    windows: Vec<usize>,
    pending: Vec<u64>,
    batches_flushed: usize,
    failures_on_current: u64,
    status: RunStatus,
}

impl CheckpointRun {
    /// Log head position when the run started.
    pub closed spec fn begin_lsn(self) -> u64 {
        self.begin_lsn
    }

    /// The run's recovery anchor candidate.
    pub closed spec fn recovery_lsn(self) -> u64 {
        self.recovery_lsn
    }

    /// The snapshot entries the run flushes.
    pub closed spec fn snapshot_entries(self) -> Seq<PageEntry> {
        self.snapshot.entries@
    }

    /// The tracker version at the snapshot instant.
    pub closed spec fn snapshot_version(self) -> u64 {
        self.snapshot.version
    }

    /// Pages per I/O submission.
    pub closed spec fn batch_size(self) -> usize {
        self.batch_size
    }

    /// Failed attempts tolerated per batch before the run aborts.
    pub closed spec fn max_retries(self) -> u64 {
        self.max_retries
    }

    /// How many batches may be in flight at once: one for strictly
    /// sequential flushing, more under asynchronous checkpointing.
    pub closed spec fn max_in_flight(self) -> usize {
        self.max_in_flight
    }

    /// Index of the first snapshot entry not yet acknowledged durable.
    pub closed spec fn next_index(self) -> usize {
        self.next_index
    }

    /// Index of the first snapshot entry not yet submitted.
    pub closed spec fn submitted_index(self) -> usize {
        self.submitted_index
    }

    /// Lengths of the submitted, not yet acknowledged batches, oldest
    /// first.
    pub closed spec fn window_lengths(self) -> Seq<usize> {
        self.windows@
    }

    /// The page ids of the oldest in-flight batch still awaiting
    /// durability: the whole batch, narrowed to the failed pages after a
    /// partial batch failure, so only those are retried.
    pub closed spec fn pending_pages(self) -> Seq<u64> {
        self.pending@
    }

    /// Batches acknowledged durable so far.
    pub closed spec fn batches_flushed(self) -> usize {
        self.batches_flushed
    }

    /// Failed attempts on the oldest in-flight batch.
    pub closed spec fn failures_on_current(self) -> u64 {
        self.failures_on_current
    }

    /// Lifecycle phase.
    pub closed spec fn status(self) -> RunStatus {
        self.status
    }

    /// How many entries the next submission covers: a full `batch_size`,
    /// or what is left of the snapshot.
    pub open spec fn next_window_len(self) -> usize {
        if self.snapshot_entries().len() - self.submitted_index() >= self.batch_size() {
            self.batch_size()
        } else {
            (self.snapshot_entries().len() - self.submitted_index()) as usize
        }
    }

    /// Run invariant: the anchor candidate is the snapshot minimum and
    /// never past `begin_lsn`; acknowledged, in-flight and submitted
    /// progress are consistent and bounded; a run still flushing has work
    /// left, one ready to commit has none outstanding.
    pub closed spec fn wf(self) -> bool {
        &&& self.batch_size > 0
        &&& self.max_in_flight > 0
        &&& self.recovery_lsn == min_recovery_lsn(self.snapshot.entries@, self.begin_lsn)
        &&& self.recovery_lsn <= self.begin_lsn
        &&& self.next_index <= self.submitted_index <= self.snapshot.entries@.len()
        &&& self.next_index + window_sum(self.windows@) == self.submitted_index
        &&& forall|i: int| 0 <= i < self.windows@.len() ==> (#[trigger] self.windows@[i]) > 0
        &&& self.windows@.len() <= self.max_in_flight
        &&& self.batches_flushed <= self.next_index
        &&& self.failures_on_current <= self.max_retries
        &&& self.max_retries < u64::MAX
        &&& (self.status is Running ==> self.next_index < self.snapshot.entries@.len())
        &&& (self.status is Committing ==> self.next_index == self.snapshot.entries@.len()
            && self.windows@.len() == 0)
        &&& (self.status is Running && self.windows@.len() > 0 ==> self.pending@.len() > 0)
    }

    /// The run's phase, readable at run time.
    pub fn status_now(&self) -> (s: RunStatus)
        ensures
            s == self.status(),
    {
        self.status
    }

    /// The snapshot's tracker version, readable at run time.
    pub fn snapshot_version_now(&self) -> (v: u64)
        ensures
            v == self.snapshot_version(),
    {
        self.snapshot.version
    }

    /// The run's `begin_lsn`, readable at run time.
    pub fn begin_lsn_now(&self) -> (l: u64)
        ensures
            l == self.begin_lsn(),
    {
        self.begin_lsn
    }

    /// How many batches have been acknowledged durable so far.
    pub fn batches_flushed_now(&self) -> (n: usize)
        ensures
            n == self.batches_flushed(),
    {
        self.batches_flushed
    }

    /// How many batches are currently in flight.
    pub fn in_flight_now(&self) -> (n: usize)
        ensures
            n == self.window_lengths().len(),
    {
        self.windows.len()
    }

    /// Starts a run: records `begin_lsn`, computes the recovery anchor
    /// candidate as the minimum `recovery_lsn` over the snapshot (or
    /// `begin_lsn` for an empty one). Nothing is submitted yet; a run
    /// over an empty snapshot has nothing to flush and is immediately
    /// ready to commit.
    pub fn start(
        snapshot: TrackerSnapshot,
        begin_lsn: u64,
        batch_size: usize,
        max_retries: u64,
        max_in_flight: usize,
    ) -> (run: Self)
        requires
            batch_size > 0,
            max_in_flight > 0,
            max_retries < u64::MAX,
            forall|i: int|
                0 <= i < snapshot.entries@.len() ==> (#[trigger] snapshot.entries@[i]).recovery_lsn
                    <= begin_lsn,
        ensures
            run.wf(),
            run.begin_lsn() == begin_lsn,
            run.recovery_lsn() == min_recovery_lsn(snapshot.entries@, begin_lsn),
            run.snapshot_entries() == snapshot.entries@,
            run.snapshot_version() == snapshot.version,
            run.batch_size() == batch_size,
            run.max_retries() == max_retries,
            run.max_in_flight() == max_in_flight,
            run.next_index() == 0,
            run.submitted_index() == 0,
            run.window_lengths() == Seq::<usize>::empty(),
            run.batches_flushed() == 0,
            run.failures_on_current() == 0,
            run.status() == (if snapshot.entries@.len() == 0 {
                RunStatus::Committing
            } else {
                RunStatus::Running
            }),
    {
        let n = snapshot.entries.len();
        let mut m: u64 = begin_lsn;
        let mut i: usize = 0;
        while i < n
            invariant
                0 <= i <= n,
                n == snapshot.entries@.len(),
                m == min_recovery_lsn(snapshot.entries@.take(i as int), begin_lsn),
            decreases n - i,
        {
            let lsn = snapshot.entries[i].recovery_lsn;
            proof {
                let prefix = snapshot.entries@.take(i as int);
                assert(snapshot.entries@.take(i as int + 1).drop_last() =~= prefix);
                assert(snapshot.entries@.take(i as int + 1).last() == snapshot.entries@[i as int]);
            }
            if lsn < m {
                m = lsn;
            }
            i += 1;
        }
        proof {
            assert(snapshot.entries@.take(n as int) =~= snapshot.entries@);
            lemma_min_recovery_lsn(snapshot.entries@, begin_lsn);
        }
        let status = if n == 0 {
            RunStatus::Committing
        } else {
            RunStatus::Running
        };
        CheckpointRun {
            begin_lsn,
            snapshot,
            recovery_lsn: m,
            batch_size,
            max_retries,
            max_in_flight,
            next_index: 0,
            submitted_index: 0,
            windows: Vec::new(),
            pending: Vec::new(),
            batches_flushed: 0,
            failures_on_current: 0,
            status,
        }
    }

    /// The page ids the I/O layer should submit next, without waiting for
    /// earlier batches: while the oldest in-flight batch is being retried
    /// its unacknowledged pages are handed out again; otherwise the next
    /// batch of the snapshot goes into flight, as long as the in-flight
    /// bound leaves room. `None` when nothing can be handed out now.
    pub fn next_submission(&mut self) -> (w: Option<Vec<u64>>)
        requires
            old(self).wf(),
        ensures
            final(self).wf(),
            w is Some <==> (old(self).status() == RunStatus::Running && ((old(
                self,
            ).failures_on_current() > 0 && old(self).window_lengths().len() > 0) || (old(
                self,
            ).submitted_index() < old(self).snapshot_entries().len() && old(
                self,
            ).window_lengths().len() < old(self).max_in_flight()))),
            // Retrying: the unacknowledged pages of the oldest batch are
            // handed out again; nothing changes.
            (old(self).status() == RunStatus::Running && old(self).failures_on_current() > 0 && old(
                self,
            ).window_lengths().len() > 0) ==> *final(self) == *old(self) && (w matches Some(b)
                && b@ == old(self).pending_pages()),
            // Submitting: one more batch window goes into flight.
            (old(self).status() == RunStatus::Running && !(old(self).failures_on_current() > 0
                && old(self).window_lengths().len() > 0) && old(self).submitted_index() < old(
                self,
            ).snapshot_entries().len() && old(self).window_lengths().len() < old(
                self,
            ).max_in_flight()) ==> {
                &&& final(self).submitted_index() == old(self).submitted_index() + old(
                    self,
                ).next_window_len()
                &&& final(self).window_lengths() == old(self).window_lengths().push(
                    old(self).next_window_len(),
                )
                &&& (w matches Some(b) && b@.len() == old(self).next_window_len() && forall|j: int|
                    0 <= j < b@.len() ==> b@[j] == (#[trigger] old(self).snapshot_entries()[old(
                        self,
                    ).submitted_index() + j]).page_id)
                &&& final(self).pending_pages() == (if old(self).window_lengths().len() == 0 {
                    (w->Some_0)@
                } else {
                    old(self).pending_pages()
                })
                &&& final(self).next_index() == old(self).next_index()
                &&& final(self).batches_flushed() == old(self).batches_flushed()
                &&& final(self).failures_on_current() == old(self).failures_on_current()
                &&& final(self).status() == old(self).status()
            },
            w is None ==> *final(self) == *old(self),
            final(self).begin_lsn() == old(self).begin_lsn(),
            final(self).recovery_lsn() == old(self).recovery_lsn(),
            final(self).snapshot_entries() == old(self).snapshot_entries(),
            final(self).snapshot_version() == old(self).snapshot_version(),
            final(self).batch_size() == old(self).batch_size(),
            final(self).max_retries() == old(self).max_retries(),
            final(self).max_in_flight() == old(self).max_in_flight(),
    {
        if !matches!(self.status, RunStatus::Running) {
            return None;
        }
        if self.failures_on_current > 0 && self.windows.len() > 0 {
            let n = self.pending.len();
            let mut retry: Vec<u64> = Vec::new();
            let mut j: usize = 0;
            while j < n
                invariant
                    0 <= j <= n,
                    n == self.pending@.len(),
                    *self == *old(self),
                    retry@ == self.pending@.take(j as int),
                decreases n - j,
            {
                retry.push(self.pending[j]);
                proof {
                    assert(retry@ =~= self.pending@.take(j as int + 1));
                }
                j += 1;
            }
            proof {
                assert(retry@ =~= self.pending@);
            }
            return Some(retry);
        }
        let n = self.snapshot.entries.len();
        if self.submitted_index < n && self.windows.len() < self.max_in_flight {
            let remaining = n - self.submitted_index;
            let wlen = if remaining >= self.batch_size {
                self.batch_size
            } else {
                remaining
            };
            let ids = window_page_ids(&self.snapshot.entries, self.submitted_index, wlen);
            proof {
                lemma_window_sum_push(self.windows@, wlen);
                lemma_window_sum_positive(self.windows@);
            }
            let was_idle = self.windows.len() == 0;
            proof {
                if old(self).window_lengths().len() == 0 {
                    assert(window_sum(old(self).window_lengths()) == 0);
                    assert(old(self).next_index() == old(self).submitted_index());
                }
            }
            self.windows.push(wlen);
            self.submitted_index = self.submitted_index + wlen;
            if was_idle {
                let first = window_page_ids(&self.snapshot.entries, self.next_index, wlen);
                proof {
                    assert(self.next_index == old(self).submitted_index());
                    assert forall|j: int| 0 <= j < wlen implies first@[j] == ids@[j] by {
                        assert(first@[j] == (#[trigger] self.snapshot.entries@[self.next_index
                            + j]).page_id);
                        assert(ids@[j] == self.snapshot.entries@[old(self).submitted_index()
                            + j].page_id);
                    }
                    assert(first@ =~= ids@);
                }
                self.pending = first;
            }
            return Some(ids);
        }
        None
    }

    /// The oldest in-flight batch was acknowledged durable (completions
    /// are reported in submission order): progress advances, and once the
    /// whole snapshot is covered the run is ready to commit.
    pub fn on_batch_success(&mut self)
        requires
            old(self).wf(),
            old(self).status() == RunStatus::Running,
            old(self).window_lengths().len() > 0,
        ensures
            final(self).wf(),
            final(self).next_index() == old(self).next_index() + old(self).window_lengths()[0],
            final(self).window_lengths() == old(self).window_lengths().subrange(
                1,
                old(self).window_lengths().len() as int,
            ),
            final(self).submitted_index() == old(self).submitted_index(),
            final(self).batches_flushed() == old(self).batches_flushed() + 1,
            final(self).failures_on_current() == 0,
            final(self).status() == (if old(self).next_index() + old(self).window_lengths()[0]
                == old(self).snapshot_entries().len() {
                RunStatus::Committing
            } else {
                RunStatus::Running
            }),
            final(self).pending_pages().len() == (if final(self).window_lengths().len() > 0 {
                final(self).window_lengths()[0] as int
            } else {
                0
            }),
            forall|j: int|
                0 <= j < final(self).pending_pages().len() ==> final(self).pending_pages()[j] == (
                #[trigger] old(self).snapshot_entries()[final(self).next_index() + j]).page_id,
            final(self).begin_lsn() == old(self).begin_lsn(),
            final(self).recovery_lsn() == old(self).recovery_lsn(),
            final(self).snapshot_entries() == old(self).snapshot_entries(),
            final(self).snapshot_version() == old(self).snapshot_version(),
            final(self).batch_size() == old(self).batch_size(),
            final(self).max_retries() == old(self).max_retries(),
            final(self).max_in_flight() == old(self).max_in_flight(),
    {
        let n = self.snapshot.entries.len();
        let wlen = self.windows[0];
        proof {
            lemma_window_sum_pop_front(self.windows@);
            let rest = self.windows@.subrange(1, self.windows@.len() as int);
            assert forall|i: int| 0 <= i < rest.len() implies (#[trigger] rest[i]) > 0 by {
                assert(self.windows@[i + 1] > 0);
            }
            lemma_window_sum_positive(rest);
        }
        self.windows.remove(0);
        self.next_index = self.next_index + wlen;
        self.batches_flushed = self.batches_flushed + 1;
        self.failures_on_current = 0;
        if self.next_index == n {
            proof {
                lemma_window_sum_positive(self.windows@);
            }
            self.status = RunStatus::Committing;
            self.pending = Vec::new();
        } else if self.windows.len() > 0 {
            let head = self.windows[0];
            proof {
                lemma_window_sum_pop_front(self.windows@);
                let rest = self.windows@.subrange(1, self.windows@.len() as int);
                assert forall|i: int| 0 <= i < rest.len() implies (#[trigger] rest[i]) > 0 by {
                    assert(self.windows@[i + 1] > 0);
                }
                lemma_window_sum_positive(rest);
            }
            let next_pending = window_page_ids(&self.snapshot.entries, self.next_index, head);
            self.pending = next_pending;
        } else {
            self.pending = Vec::new();
        }
    }

    /// The oldest in-flight batch failed as a whole. Within the retry
    /// budget the run stays live and the same batch is retried; once the
    /// budget is exhausted the run aborts: no Checkpoint Record is
    /// persisted and the WAL is not truncated. Returns whether the run
    /// aborted.
    pub fn on_batch_failure(&mut self) -> (aborted: bool)
        requires
            old(self).wf(),
            old(self).status() == RunStatus::Running,
            old(self).window_lengths().len() > 0,
        ensures
            final(self).wf(),
            aborted == (old(self).failures_on_current() + 1 > old(self).max_retries()),
            !aborted ==> final(self).status() == RunStatus::Running
                && final(self).failures_on_current() == old(self).failures_on_current() + 1,
            aborted ==> final(self).status() == RunStatus::Aborted,
            final(self).next_index() == old(self).next_index(),
            final(self).submitted_index() == old(self).submitted_index(),
            final(self).window_lengths() == old(self).window_lengths(),
            final(self).pending_pages() == old(self).pending_pages(),
            final(self).batches_flushed() == old(self).batches_flushed(),
            final(self).begin_lsn() == old(self).begin_lsn(),
            final(self).recovery_lsn() == old(self).recovery_lsn(),
            final(self).snapshot_entries() == old(self).snapshot_entries(),
            final(self).snapshot_version() == old(self).snapshot_version(),
            final(self).batch_size() == old(self).batch_size(),
            final(self).max_retries() == old(self).max_retries(),
            final(self).max_in_flight() == old(self).max_in_flight(),
    {
        if self.failures_on_current + 1 > self.max_retries {
            self.status = RunStatus::Aborted;
            true
        } else {
            self.failures_on_current = self.failures_on_current + 1;
            false
        }
    }

    /// The oldest in-flight batch partially failed: the I/O layer reports
    /// which of its pages failed, and only those are retried. Counts
    /// against the same retry budget as a whole-batch failure. Returns
    /// whether the run aborted.
    pub fn on_partial_failure(&mut self, failed: &Vec<u64>) -> (aborted: bool)
        requires
            old(self).wf(),
            old(self).status() == RunStatus::Running,
            old(self).window_lengths().len() > 0,
            failed@.len() > 0,
            forall|j: int|
                0 <= j < failed@.len() ==> old(self).pending_pages().contains(#[trigger] failed@[j]),
        ensures
            final(self).wf(),
            aborted == (old(self).failures_on_current() + 1 > old(self).max_retries()),
            !aborted ==> final(self).status() == RunStatus::Running
                && final(self).failures_on_current() == old(self).failures_on_current() + 1
                && final(self).pending_pages() == failed@,
            aborted ==> final(self).status() == RunStatus::Aborted,
            final(self).next_index() == old(self).next_index(),
            final(self).submitted_index() == old(self).submitted_index(),
            final(self).window_lengths() == old(self).window_lengths(),
            final(self).batches_flushed() == old(self).batches_flushed(),
            final(self).begin_lsn() == old(self).begin_lsn(),
            final(self).recovery_lsn() == old(self).recovery_lsn(),
            final(self).snapshot_entries() == old(self).snapshot_entries(),
            final(self).snapshot_version() == old(self).snapshot_version(),
            final(self).batch_size() == old(self).batch_size(),
            final(self).max_retries() == old(self).max_retries(),
            final(self).max_in_flight() == old(self).max_in_flight(),
    {
        if self.failures_on_current + 1 > self.max_retries {
            self.status = RunStatus::Aborted;
            true
        } else {
            self.failures_on_current = self.failures_on_current + 1;
            let n = failed.len();
            let mut narrowed: Vec<u64> = Vec::new();
            let mut j: usize = 0;
            while j < n
                invariant
                    0 <= j <= n,
                    n == failed@.len(),
                    narrowed@ == failed@.take(j as int),
                decreases n - j,
            {
                narrowed.push(failed[j]);
                proof {
                    assert(narrowed@ =~= failed@.take(j as int + 1));
                }
                j += 1;
            }
            proof {
                assert(narrowed@ =~= failed@);
            }
            self.pending = narrowed;
            false
        }
    }

    /// The page ids the run flushed: the whole snapshot, in order. This
    /// is what `clear_flushed` is called with after the commit.
    pub fn flushed_page_ids(&self) -> (ids: Vec<u64>)
        requires
            self.wf(),
            self.status() == RunStatus::Committing,
        ensures
            ids@.len() == self.snapshot_entries().len(),
            forall|j: int|
                0 <= j < ids@.len() ==> ids@[j] == (#[trigger] self.snapshot_entries()[j]).page_id,
    {
        let n = self.snapshot.entries.len();
        let mut ids: Vec<u64> = Vec::new();
        let mut j: usize = 0;
        while j < n
            invariant
                0 <= j <= n,
                n == self.snapshot.entries@.len(),
                ids@.len() == j,
                forall|k: int|
                    0 <= k < j ==> ids@[k] == (#[trigger] self.snapshot.entries@[k]).page_id,
            decreases n - j,
        {
            ids.push(self.snapshot.entries[j].page_id);
            j += 1;
        }
        ids
    }

    /// Produces the Checkpoint Record once every batch in the snapshot is
    /// acknowledged durable (write-batches-then-record ordering; never
    /// the reverse). The record satisfies
    /// `recovery_lsn <= begin_lsn <= end_lsn`, with `recovery_lsn` the
    /// snapshot minimum taken at the snapshot instant.
    pub fn commit(&mut self, end_lsn: u64) -> (rec: CheckpointRecord)
        requires
            old(self).wf(),
            old(self).status() == RunStatus::Committing,
            end_lsn >= old(self).begin_lsn(),
        ensures
            final(self).wf(),
            final(self).status() == RunStatus::Committed,
            rec.begin_lsn == old(self).begin_lsn(),
            rec.recovery_lsn == min_recovery_lsn(
                old(self).snapshot_entries(),
                old(self).begin_lsn(),
            ),
            rec.end_lsn == end_lsn,
            rec.wf(),
            final(self).snapshot_entries() == old(self).snapshot_entries(),
            final(self).snapshot_version() == old(self).snapshot_version(),
            final(self).recovery_lsn() == old(self).recovery_lsn(),
            final(self).begin_lsn() == old(self).begin_lsn(),
            final(self).batches_flushed() == old(self).batches_flushed(),
    {
        self.status = RunStatus::Committed;
        CheckpointRecord { begin_lsn: self.begin_lsn, recovery_lsn: self.recovery_lsn, end_lsn }
    }
}

} // verus!
