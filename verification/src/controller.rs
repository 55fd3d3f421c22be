//! The checkpoint controller: one owned instance that ties the Dirty Page
//! Tracker, WAL Size Monitor, Backpressure Controller, Checkpoint
//! Scheduler and Checkpoint Executor together. Transaction paths call
//! `mark_dirty` and the admission checks; one background context drives
//! `poll`, the batch results and `try_commit`; crash recovery reads the
//! last committed anchor.

use vstd::prelude::*;

use crate::backpressure::{AdmissionWait, BackpressureController, PressureLevel, ratio_exceeds_pct};
use crate::config::DatabaseConfig;
use crate::error::ConfigError;
use crate::executor::{CheckpointRecord, CheckpointRun, RunStatus, min_recovery_lsn};
use crate::monitor::WalSizeMonitor;
use crate::scheduler::{CheckpointScheduler, SchedulerState, TriggerKind};
use crate::tracker::{DirtyPageTracker, PageEntry};

verus! {

/// Whether some snapshot entry is for page `p`.
pub open spec fn in_snapshot(s: Seq<PageEntry>, p: u64) -> bool {
    exists|j: int| 0 <= j < s.len() && (#[trigger] s[j]).page_id == p
}

/// What one `poll` decided.
#[derive(Clone, Copy, Debug, PartialEq, Eq, Structural)]
pub struct PollOutcome {
    /// A checkpoint run started at this poll.
    pub started: bool,
    /// The stuck-backpressure watchdog fired: the hard limit has held
    /// with no checkpoint progress for longer than the watchdog interval.
    /// Fatal: the engine must refuse further writes.
    pub fatal_backpressure: bool,
}

/// The checkpoint controller. Times fed to it must be monotone, and the
/// WAL head positions fed to it must never run backwards.
pub struct CheckpointController {
    capacity: u64,
    config: crate::config::CheckpointConfig,
    max_retries: u64,
    in_flight_limit: usize,
    tracker: DirtyPageTracker,
    monitor: WalSizeMonitor,
    backpressure: BackpressureController,
    scheduler: CheckpointScheduler,
    run: Option<CheckpointRun>,
    last_record: Option<CheckpointRecord>,
    clock: u64,
    max_lsn_seen: u64,
}

impl CheckpointController {
    /// Buffer pool capacity, in pages.
    pub closed spec fn capacity(self) -> u64 {
        self.capacity
    }

    /// The checkpoint knobs the controller was built with.
    pub closed spec fn config(self) -> crate::config::CheckpointConfig {
        self.config
    }

    /// The dirty page table: page id to entry.
    pub closed spec fn dirty_table(self) -> Map<u64, PageEntry> {
        self.tracker.table()
    }

    /// The tracked dirty entries in insertion order.
    pub closed spec fn dirty_entries(self) -> Seq<PageEntry> {
        self.tracker.entry_seq()
    }

    /// The tracker's current version counter.
    pub closed spec fn tracker_version(self) -> u64 {
        self.tracker.current_version()
    }

    /// The scheduler's phase.
    pub closed spec fn scheduler_state(self) -> SchedulerState {
        self.scheduler.state()
    }

    /// When the most recent run started, if any.
    pub closed spec fn last_run_start(self) -> Option<u64> {
        self.scheduler.last_start()
    }

    /// Whether the pending trigger was forced by an external request.
    pub closed spec fn pending_forced(self) -> bool {
        self.scheduler.forced()
    }

    /// Whether a request is deferred behind a live or cooling-down run,
    /// and whether it includes an external request.
    pub closed spec fn pending_deferred(self) -> bool {
        self.scheduler.deferred()
    }

    /// Whether the deferred request includes an external one.
    pub closed spec fn pending_deferred_forced(self) -> bool {
        self.scheduler.deferred_forced()
    }

    /// The live checkpoint run, if one is in progress.
    pub closed spec fn live_run(self) -> Option<CheckpointRun> {
        self.run
    }

    /// The last committed recovery anchor, what crash recovery consumes.
    pub closed spec fn last_anchor(self) -> Option<CheckpointRecord> {
        self.last_record
    }

    /// The latest time fed to the controller.
    pub closed spec fn clock(self) -> u64 {
        self.clock
    }

    /// The highest log position the controller has seen.
    pub closed spec fn max_lsn_seen(self) -> u64 {
        self.max_lsn_seen
    }

    /// Whether the last observed WAL size was at or over the ceiling
    /// (the edge state of the size monitor).
    pub closed spec fn wal_over_limit(self) -> bool {
        self.monitor.over_limit()
    }

    /// When the current uninterrupted hard-limit episode began, if one is
    /// in progress.
    pub closed spec fn hard_since(self) -> Option<u64> {
        self.backpressure.hard_since()
    }

    /// How long the hard limit may hold without checkpoint progress
    /// before the condition is fatal.
    pub closed spec fn watchdog_interval(self) -> u64 {
        self.backpressure.watchdog_interval()
    }

    /// How long a blocked admission may wait before it times out.
    pub closed spec fn admission_deadline(self) -> u64 {
        self.backpressure.admission_deadline()
    }

    /// How many I/O batches a run may have in flight at once: the
    /// configured bound under `async_checkpoint`, one otherwise.
    pub closed spec fn in_flight_limit(self) -> usize {
        self.in_flight_limit
    }

    /// Room for another tracker insertion.
    pub open spec fn version_headroom(self) -> bool {
        self.tracker_version() < u64::MAX
    }

    /// The controller invariant: components well-formed and mutually
    /// consistent; exactly one live run exists while the scheduler is in
    /// `Running`; a live run flushes a snapshot no newer than the tracker
    /// and anchored at or below the highest seen log position; every
    /// tracked `recovery_lsn` is a seen log position.
    pub closed spec fn wf(self) -> bool {
        &&& self.config.valid()
        &&& self.max_retries < u64::MAX
        &&& self.in_flight_limit > 0
        &&& self.tracker.wf()
        &&& self.monitor.max_wal_size() == self.config.max_wal_size
        &&& self.backpressure.wf()
        &&& self.backpressure.soft_pct() == self.config.dirty_page_soft_limit_pct
        &&& self.backpressure.hard_pct() == self.config.dirty_page_hard_limit_pct
        &&& self.scheduler.wf()
        &&& self.scheduler.min_interval() == self.config.min_interval
        &&& self.scheduler.max_interval() == self.config.max_interval
        &&& (self.run is Some <==> self.scheduler.state() is Running)
        &&& (self.run matches Some(r) ==> r.wf() && (r.status() is Running || r.status()
            is Committing) && r.begin_lsn() <= self.max_lsn_seen && r.batch_size()
            == self.config.checkpoint_batch_size && r.max_retries() == self.max_retries
            && r.max_in_flight() == self.in_flight_limit && r.snapshot_version()
            <= self.tracker.current_version())
        &&& forall|i: int|
            0 <= i < self.tracker.entry_seq().len() ==> (
            #[trigger] self.tracker.entry_seq()[i]).recovery_lsn <= self.max_lsn_seen
        &&& (self.scheduler.last_start() matches Some(t) ==> t <= self.clock)
        &&& (self.backpressure.hard_since() matches Some(t) ==> t <= self.clock)
        &&& (self.last_record matches Some(rec) ==> rec.wf())
    }

    /// Builds a controller from the engine configuration, failing fast on
    /// an invalid one. `admission_deadline` bounds a blocked admission's
    /// wait, `watchdog_interval` bounds a no-progress hard-limit episode,
    /// `max_io_retries` bounds the failed attempts per batch, and
    /// `async_in_flight` bounds the concurrently in-flight batches of an
    /// asynchronous checkpoint (a synchronous one is capped at one).
    pub fn new(
        db: DatabaseConfig,
        admission_deadline: u64,
        watchdog_interval: u64,
        max_io_retries: u64,
        async_in_flight: usize,
    ) -> (r: Result<Self, ConfigError>)
        requires
            max_io_retries < u64::MAX,
        ensures
            r is Ok <==> db.checkpoint.valid() && async_in_flight > 0,
            db.checkpoint.valid() && async_in_flight == 0 ==> r == Result::<
                Self,
                ConfigError,
            >::Err(ConfigError::ZeroInFlightLimit),
            r matches Ok(c) ==> c.wf() && c.config() == db.checkpoint && c.capacity()
                == db.buffer_pool_size && c.scheduler_state() == SchedulerState::Idle
                && c.live_run() is None && c.last_anchor() is None && c.dirty_entries()
                == Seq::<PageEntry>::empty() && c.dirty_table() == Map::<u64, PageEntry>::empty()
                && c.tracker_version() == 0 && c.clock() == 0
                && c.max_lsn_seen() == 0 && !c.pending_forced() && !c.pending_deferred()
                && c.last_run_start() is None && !c.wal_over_limit() && c.hard_since() is None
                && c.watchdog_interval() == watchdog_interval && c.admission_deadline()
                == admission_deadline && c.in_flight_limit() == (
            if db.checkpoint.async_checkpoint {
                async_in_flight
            } else {
                1
            }),
    {
        let checkpoint = db.checkpoint;
        match checkpoint.validate() {
            Err(e) => Err(e),
            Ok(_) if async_in_flight == 0 => Err(ConfigError::ZeroInFlightLimit),
            Ok(_) => {
                match BackpressureController::new(
                    checkpoint.dirty_page_soft_limit_pct,
                    checkpoint.dirty_page_hard_limit_pct,
                    admission_deadline,
                    watchdog_interval,
                ) {
                    Err(e) => Err(e),
                    Ok(backpressure) => Ok(
                        CheckpointController {
                            capacity: db.buffer_pool_size as u64,
                            config: checkpoint,
                            max_retries: max_io_retries,
                            in_flight_limit: if checkpoint.async_checkpoint {
                                async_in_flight
                            } else {
                                1
                            },
                            tracker: DirtyPageTracker::new(),
                            monitor: WalSizeMonitor::new(checkpoint.max_wal_size),
                            backpressure,
                            scheduler: CheckpointScheduler::new(
                                checkpoint.min_interval,
                                checkpoint.max_interval,
                            ),
                            run: None,
                            last_record: None,
                            clock: 0,
                            max_lsn_seen: 0,
                        },
                    ),
                }
            },
        }
    }

    /// How many pages are tracked as dirty.
    pub fn dirty_page_count(&self) -> (n: usize)
        ensures
            n == self.dirty_entries().len(),
    {
        self.tracker.dirty_count()
    }

    /// The last committed recovery anchor.
    pub fn last_committed_anchor(&self) -> (rec: Option<CheckpointRecord>)
        ensures
            rec == self.last_anchor(),
    {
        self.last_record
    }

    /// The buffer pool records a dirtying of the page at log position
    /// `lsn`. First-dirty semantics: an already-tracked page keeps its
    /// original `recovery_lsn`; but every call stamps the entry with a
    /// fresh version, so a page written again after a live run's snapshot
    /// stays tracked across that run's commit.
    pub fn mark_dirty(&mut self, page_id: u64, lsn: u64)
        requires
            old(self).wf(),
            old(self).version_headroom(),
            lsn >= old(self).max_lsn_seen(),
        ensures
            final(self).wf(),
            final(self).dirty_table().contains_key(page_id),
            final(self).dirty_table() == old(self).dirty_table().insert(
                page_id,
                PageEntry {
                    page_id,
                    recovery_lsn: if old(self).dirty_table().contains_key(page_id) {
                        old(self).dirty_table()[page_id].recovery_lsn
                    } else {
                        lsn
                    },
                    version: (old(self).tracker_version() + 1) as u64,
                },
            ),
            final(self).dirty_entries().len() == old(self).dirty_entries().len() + (if old(self).dirty_table().contains_key(page_id) {
                0int
            } else {
                1int
            }),
            final(self).dirty_table()[page_id].recovery_lsn == if old(self).dirty_table().contains_key(page_id) {
                old(self).dirty_table()[page_id].recovery_lsn
            } else {
                lsn
            },
            // A page dirtied while a run is live outlives that run's
            // commit: its fresh version is above the snapshot version.
            old(self).live_run() matches Some(r) ==> final(self).dirty_table()[page_id].version
                > r.snapshot_version(),
            final(self).live_run() == old(self).live_run(),
            final(self).scheduler_state() == old(self).scheduler_state(),
            final(self).last_anchor() == old(self).last_anchor(),
            final(self).max_lsn_seen() == lsn,
            final(self).tracker_version() == old(self).tracker_version() + 1,
            final(self).config() == old(self).config(),
            final(self).capacity() == old(self).capacity(),
            final(self).clock() == old(self).clock(),
            final(self).last_run_start() == old(self).last_run_start(),
            final(self).pending_forced() == old(self).pending_forced(),
            final(self).pending_deferred() == old(self).pending_deferred(),
            final(self).pending_deferred_forced() == old(self).pending_deferred_forced(),
            final(self).wal_over_limit() == old(self).wal_over_limit(),
            final(self).hard_since() == old(self).hard_since(),
            final(self).watchdog_interval() == old(self).watchdog_interval(),
            final(self).admission_deadline() == old(self).admission_deadline(),
    {
        self.tracker.mark_dirty(page_id, lsn);
        self.max_lsn_seen = lsn;
    }

    /// An explicit external checkpoint request (for instance before a
    /// controlled shutdown). It is armed immediately when the scheduler
    /// is idle or already triggered, bypassing the spacing gate at the
    /// next `poll`; during a run or its cooldown it is coalesced into the
    /// single deferred request.
    pub fn request_checkpoint(&mut self)
        requires
            old(self).wf(),
        ensures
            final(self).wf(),
            old(self).scheduler_state() == SchedulerState::Idle || old(self).scheduler_state()
                == SchedulerState::Triggered ==> final(self).scheduler_state()
                == SchedulerState::Triggered && final(self).pending_forced(),
            old(self).scheduler_state() == SchedulerState::Running || old(self).scheduler_state()
                == SchedulerState::CoolingDown ==> final(self).scheduler_state() == old(self).scheduler_state() && final(self).pending_deferred() && final(self).pending_deferred_forced(),
            final(self).dirty_table() == old(self).dirty_table(),
            final(self).dirty_entries() == old(self).dirty_entries(),
            final(self).live_run() == old(self).live_run(),
            final(self).last_anchor() == old(self).last_anchor(),
            final(self).config() == old(self).config(),
            final(self).capacity() == old(self).capacity(),
            final(self).clock() == old(self).clock(),
            final(self).max_lsn_seen() == old(self).max_lsn_seen(),
            final(self).tracker_version() == old(self).tracker_version(),
            final(self).last_run_start() == old(self).last_run_start(),
            final(self).wal_over_limit() == old(self).wal_over_limit(),
            final(self).hard_since() == old(self).hard_since(),
            final(self).watchdog_interval() == old(self).watchdog_interval(),
            final(self).admission_deadline() == old(self).admission_deadline(),
    {
        self.scheduler.on_trigger(TriggerKind::ExternalRequest);
    }

    /// One turn of the background context at time `now`, observing the
    /// current WAL size and log head. Feeds the triggers (WAL ceiling,
    /// dirty-ratio limits, staleness timer), advances the cooldown, runs
    /// the stuck-backpressure watchdog, and starts a checkpoint run when
    /// one is due and the spacing gate allows it.
    ///
    /// While the dirty ratio stays at or below the soft limit and the WAL
    /// below its ceiling, an idle controller starts no run before
    /// `max_interval` has elapsed since the last start.
    pub fn poll(&mut self, now: u64, wal_size: u64, log_head: u64) -> (out: PollOutcome)
        requires
            old(self).wf(),
            now >= old(self).clock(),
            log_head >= old(self).max_lsn_seen(),
        ensures
            final(self).wf(),
            final(self).clock() == now,
            final(self).max_lsn_seen() == log_head,
            final(self).dirty_table() == old(self).dirty_table(),
            final(self).dirty_entries() == old(self).dirty_entries(),
            final(self).last_anchor() == old(self).last_anchor(),
            // What `started` means.
            out.started ==> old(self).live_run() is None && (final(self).live_run() matches Some(r)
                && r.begin_lsn() == log_head && r.snapshot_entries() == old(self).dirty_entries()
                && r.snapshot_version() == old(self).tracker_version() && r.batches_flushed() == 0
                && r.next_index() == 0 && r.submitted_index() == 0 && r.window_lengths()
                == Seq::<usize>::empty() && r.failures_on_current() == 0 && r.batch_size()
                == old(self).config().checkpoint_batch_size && r.max_in_flight() == old(
                self,
            ).in_flight_limit()
                && r.status() == (if old(self).dirty_entries().len() == 0 {
                RunStatus::Committing
            } else {
                RunStatus::Running
            })) && final(self).scheduler_state() == SchedulerState::Running && final(self).last_run_start() == Some(now),
            !out.started ==> final(self).live_run() == old(self).live_run() && final(self).last_run_start() == old(self).last_run_start(),
            // Quiet inputs, idle controller: nothing starts before
            // `max_interval` has elapsed.
            (old(self).scheduler_state() == SchedulerState::Idle && wal_size < old(self).config().max_wal_size && !ratio_exceeds_pct(
                old(self).dirty_entries().len() as u64,
                old(self).capacity(),
                old(self).config().dirty_page_soft_limit_pct,
            ) && (old(self).last_run_start() matches Some(t) ==> now - t < old(self).config().max_interval)) ==> !out.started && final(self).scheduler_state()
                == SchedulerState::Idle,
            // Quiet inputs, cooling-down controller with nothing
            // deferred: no start, and the cooldown ends exactly when
            // `min_interval` has passed since the run's start.
            (old(self).scheduler_state() == SchedulerState::CoolingDown && !old(self).pending_deferred() && wal_size < old(self).config().max_wal_size
                && !ratio_exceeds_pct(
                old(self).dirty_entries().len() as u64,
                old(self).capacity(),
                old(self).config().dirty_page_soft_limit_pct,
            ) && (old(self).last_run_start() matches Some(t))) ==> !out.started && final(self).scheduler_state() == (if now - old(self).last_run_start()->Some_0 >= old(self).config().min_interval {
                SchedulerState::Idle
            } else {
                SchedulerState::CoolingDown
            }) && !final(self).pending_deferred(),
            // Unforced starts respect the spacing gate.
            (out.started && !old(self).pending_forced() && !old(self).pending_deferred_forced()
                && (old(self).last_run_start() matches Some(t))) ==> now - old(self).last_run_start()->Some_0 >= old(self).config().min_interval,
            // A due checkpoint is started: a pending request with the
            // spacing gate open (waived when externally forced), a WAL
            // ceiling crossing, a soft-limit crossing, or the staleness
            // timer, reaching an idle scheduler; and a deferred request
            // once the cooldown has run out.
            (old(self).scheduler_state() == SchedulerState::Triggered && old(self).live_run()
                is None && (old(self).pending_forced() || (old(self).last_run_start() matches Some(
                t,
            ) ==> now - t >= old(self).config().min_interval))) ==> out.started,
            (old(self).scheduler_state() == SchedulerState::Idle && wal_size >= old(self).config().max_wal_size && !old(self).wal_over_limit() && (old(self).last_run_start()
                matches Some(t) ==> now - t >= old(self).config().min_interval)) ==> out.started,
            (old(self).scheduler_state() == SchedulerState::Idle && ratio_exceeds_pct(
                old(self).dirty_entries().len() as u64,
                old(self).capacity(),
                old(self).config().dirty_page_soft_limit_pct,
            ) && (old(self).last_run_start() matches Some(t) ==> now - t >= old(self).config().min_interval)) ==> out.started,
            (old(self).scheduler_state() == SchedulerState::Idle && (old(self).last_run_start()
                matches Some(t) && now - t >= old(self).config().max_interval)) ==> out.started,
            (old(self).scheduler_state() == SchedulerState::CoolingDown && (old(self).last_run_start() matches Some(t) && now - t >= old(self).config().min_interval) && (
            old(self).pending_deferred() || (wal_size >= old(self).config().max_wal_size && !old(self).wal_over_limit()) || ratio_exceeds_pct(
                old(self).dirty_entries().len() as u64,
                old(self).capacity(),
                old(self).config().dirty_page_soft_limit_pct,
            ))) ==> out.started,
            // The stuck-backpressure watchdog fires exactly when the hard
            // limit holds and its episode has outlived the watchdog
            // interval without a committed checkpoint.
            out.fatal_backpressure <==> (ratio_exceeds_pct(
                old(self).dirty_entries().len() as u64,
                old(self).capacity(),
                old(self).config().dirty_page_hard_limit_pct,
            ) && (old(self).hard_since() matches Some(t) && now - t > old(self).watchdog_interval())),
            // The hard-limit episode after this poll.
            !ratio_exceeds_pct(
                old(self).dirty_entries().len() as u64,
                old(self).capacity(),
                old(self).config().dirty_page_hard_limit_pct,
            ) ==> final(self).hard_since() is None,
            ratio_exceeds_pct(
                old(self).dirty_entries().len() as u64,
                old(self).capacity(),
                old(self).config().dirty_page_hard_limit_pct,
            ) ==> final(self).hard_since() == (if old(self).hard_since() is Some {
                old(self).hard_since()
            } else {
                Some(now)
            }),
            // The size monitor's edge state after this poll.
            final(self).wal_over_limit() == (wal_size >= old(self).config().max_wal_size),
            final(self).config() == old(self).config(),
            final(self).capacity() == old(self).capacity(),
            final(self).tracker_version() == old(self).tracker_version(),
            final(self).watchdog_interval() == old(self).watchdog_interval(),
            final(self).admission_deadline() == old(self).admission_deadline(),
    {
        self.clock = now;
        self.max_lsn_seen = log_head;
        let fired = self.monitor.observe(wal_size);
        if fired {
            self.scheduler.on_trigger(TriggerKind::WalSizeExceeded);
        }
        let dirty = self.tracker.dirty_count() as u64;
        let level = self.backpressure.evaluate(dirty, self.capacity);
        let fatal = self.backpressure.observe_pressure(dirty, self.capacity, now);
        match level {
            PressureLevel::Normal => {},
            PressureLevel::Soft | PressureLevel::Hard => {
                self.scheduler.on_trigger(TriggerKind::DirtySoftLimit);
            },
        }
        self.scheduler.tick(now);
        let started = if self.run.is_none() {
            self.scheduler.try_start(now)
        } else {
            false
        };
        if started {
            let snap = self.tracker.snapshot();
            let run = CheckpointRun::start(
                snap,
                log_head,
                self.config.checkpoint_batch_size,
                self.max_retries,
                self.in_flight_limit,
            );
            self.run = Some(run);
        }
        PollOutcome { started, fatal_backpressure: fatal }
    }

    /// The page ids of the next batch the I/O layer should submit, in
    /// snapshot order: while the oldest in-flight batch is being retried,
    /// its unacknowledged pages again; otherwise the next batch of the
    /// run's snapshot, as long as the in-flight bound (one for a
    /// synchronous checkpoint) leaves room. `None` when nothing can be
    /// handed out now.
    pub fn next_batch(&mut self) -> (batch: Option<Vec<u64>>)
        requires
            old(self).wf(),
        ensures
            final(self).wf(),
            batch is Some <==> (old(self).live_run() matches Some(r) && r.status()
                == RunStatus::Running && ((r.failures_on_current() > 0 && r.window_lengths().len()
                > 0) || (r.submitted_index() < r.snapshot_entries().len()
                && r.window_lengths().len() < r.max_in_flight()))),
            // Retrying the oldest batch: nothing changes.
            (old(self).live_run() matches Some(r) && r.status() == RunStatus::Running
                && r.failures_on_current() > 0 && r.window_lengths().len() > 0) ==> *final(self)
                == *old(self) && (batch matches Some(b) && b@ == (old(
                self,
            ).live_run()->Some_0).pending_pages()),
            // Submitting one more batch window.
            (old(self).live_run() matches Some(r) && r.status() == RunStatus::Running && !(
            r.failures_on_current() > 0 && r.window_lengths().len() > 0) && r.submitted_index()
                < r.snapshot_entries().len() && r.window_lengths().len() < r.max_in_flight()) ==> (
            final(self).live_run() matches Some(r2) && (old(self).live_run() matches Some(o) && {
                &&& r2.submitted_index() == o.submitted_index() + o.next_window_len()
                &&& r2.window_lengths() == o.window_lengths().push(o.next_window_len())
                &&& (batch matches Some(b) && b@.len() == o.next_window_len() && forall|j: int|
                    0 <= j < b@.len() ==> b@[j] == (#[trigger] o.snapshot_entries()[
                    o.submitted_index() + j]).page_id)
                &&& r2.next_index() == o.next_index()
                &&& r2.batches_flushed() == o.batches_flushed()
                &&& r2.failures_on_current() == o.failures_on_current()
                &&& r2.status() == o.status()
                &&& r2.snapshot_entries() == o.snapshot_entries()
                &&& r2.snapshot_version() == o.snapshot_version()
                &&& r2.begin_lsn() == o.begin_lsn()
                &&& r2.batch_size() == o.batch_size()
                &&& r2.max_retries() == o.max_retries()
                &&& r2.max_in_flight() == o.max_in_flight()
            })),
            batch is None ==> *final(self) == *old(self),
            final(self).dirty_table() == old(self).dirty_table(),
            final(self).dirty_entries() == old(self).dirty_entries(),
            final(self).last_anchor() == old(self).last_anchor(),
            final(self).scheduler_state() == old(self).scheduler_state(),
            final(self).clock() == old(self).clock(),
            final(self).max_lsn_seen() == old(self).max_lsn_seen(),
            final(self).config() == old(self).config(),
            final(self).capacity() == old(self).capacity(),
            final(self).in_flight_limit() == old(self).in_flight_limit(),
    {
        let r = self.run.take();
        match r {
            Some(mut run) => {
                let w = run.next_submission();
                self.run = Some(run);
                w
            },
            None => None,
        }
    }

    /// The I/O layer reports the fate of the batch in flight. On success
    /// the run advances to the next batch (or becomes ready to commit);
    /// on failure it retries the same batch until the retry budget is
    /// exhausted, then aborts: nothing durable was written, the dirty
    /// page table is untouched, and the next scheduled run retries from
    /// scratch. Returns whether the run aborted.
    pub fn on_batch_result(&mut self, success: bool) -> (aborted: bool)
        requires
            old(self).wf(),
            old(self).live_run() matches Some(r) && r.status() == RunStatus::Running
                && r.window_lengths().len() > 0,
        ensures
            final(self).wf(),
            final(self).dirty_table() == old(self).dirty_table(),
            final(self).dirty_entries() == old(self).dirty_entries(),
            final(self).last_anchor() == old(self).last_anchor(),
            success ==> !aborted && (final(self).live_run() matches Some(r) && (old(self).live_run() matches Some(o) && r.batches_flushed() == o.batches_flushed() + 1
                && r.next_index() == o.next_index() + o.window_lengths()[0]
                && r.window_lengths() == o.window_lengths().subrange(
                1,
                o.window_lengths().len() as int,
            ) && r.submitted_index() == o.submitted_index() && r.failures_on_current() == 0
                && r.snapshot_entries() == o.snapshot_entries() && r.snapshot_version()
                == o.snapshot_version() && r.begin_lsn() == o.begin_lsn() && r.batch_size()
                == o.batch_size() && r.max_retries() == o.max_retries() && r.max_in_flight()
                == o.max_in_flight() && r.status() == (if o.next_index() + o.window_lengths()[0]
                == o.snapshot_entries().len() {
                    RunStatus::Committing
                } else {
                    RunStatus::Running
                }) && r.pending_pages().len() == (if r.window_lengths().len() > 0 {
                    r.window_lengths()[0] as int
                } else {
                    0
                }) && (forall|j: int|
                0 <= j < r.pending_pages().len() ==> r.pending_pages()[j] == (
                #[trigger] o.snapshot_entries()[r.next_index() + j]).page_id))),
            !success ==> aborted == ((old(self).live_run()->Some_0).failures_on_current() + 1 > (
            old(self).live_run()->Some_0).max_retries()),
            !success && !aborted ==> (final(self).live_run() matches Some(r) && (old(self).live_run() matches Some(o) && r.status() == RunStatus::Running
                && r.failures_on_current() == o.failures_on_current() + 1 && r.batches_flushed()
                == o.batches_flushed() && r.next_index() == o.next_index() && r.submitted_index()
                == o.submitted_index() && r.window_lengths() == o.window_lengths()
                && r.pending_pages() == o.pending_pages() && r.snapshot_entries()
                == o.snapshot_entries() && r.snapshot_version() == o.snapshot_version()
                && r.begin_lsn() == o.begin_lsn() && r.batch_size() == o.batch_size()
                && r.max_retries() == o.max_retries() && r.max_in_flight()
                == o.max_in_flight())),
            aborted ==> final(self).live_run() is None && final(self).scheduler_state()
                == SchedulerState::CoolingDown,
            !aborted ==> final(self).scheduler_state() == old(self).scheduler_state(),
            final(self).config() == old(self).config(),
            final(self).capacity() == old(self).capacity(),
            final(self).clock() == old(self).clock(),
            final(self).max_lsn_seen() == old(self).max_lsn_seen(),
            final(self).tracker_version() == old(self).tracker_version(),
            final(self).last_run_start() == old(self).last_run_start(),
            final(self).pending_forced() == old(self).pending_forced(),
            final(self).pending_deferred() == old(self).pending_deferred(),
            final(self).pending_deferred_forced() == old(self).pending_deferred_forced(),
            final(self).wal_over_limit() == old(self).wal_over_limit(),
            final(self).hard_since() == old(self).hard_since(),
            final(self).watchdog_interval() == old(self).watchdog_interval(),
            final(self).admission_deadline() == old(self).admission_deadline(),
    {
        let r = self.run.take();
        match r {
            Some(mut run) => {
                if success {
                    run.on_batch_success();
                    self.run = Some(run);
                    false
                } else {
                    let aborted = run.on_batch_failure();
                    if aborted {
                        self.scheduler.on_run_complete();
                        true
                    } else {
                        self.run = Some(run);
                        false
                    }
                }
            },
            None => false,
        }
    }

    /// The I/O layer reports a partial batch failure: only the listed
    /// pages of the batch in flight failed, and only those are retried,
    /// against the same bounded retry budget. Returns whether the run
    /// aborted.
    pub fn on_batch_page_failures(&mut self, failed: &Vec<u64>) -> (aborted: bool)
        requires
            old(self).wf(),
            old(self).live_run() matches Some(r) && r.status() == RunStatus::Running
                && r.window_lengths().len() > 0,
            failed@.len() > 0,
            forall|j: int|
                0 <= j < failed@.len() ==> (old(self).live_run()->Some_0).pending_pages().contains(
                    #[trigger] failed@[j],
                ),
        ensures
            final(self).wf(),
            final(self).dirty_table() == old(self).dirty_table(),
            final(self).dirty_entries() == old(self).dirty_entries(),
            final(self).last_anchor() == old(self).last_anchor(),
            aborted == ((old(self).live_run()->Some_0).failures_on_current() + 1 > (old(self).live_run()->Some_0).max_retries()),
            !aborted ==> (final(self).live_run() matches Some(r) && (old(self).live_run()
                matches Some(o) && r.status() == RunStatus::Running && r.pending_pages() == failed@
                && r.failures_on_current() == o.failures_on_current() + 1 && r.next_index()
                == o.next_index() && r.submitted_index() == o.submitted_index()
                && r.window_lengths() == o.window_lengths() && r.batches_flushed()
                == o.batches_flushed() && r.snapshot_entries() == o.snapshot_entries()
                && r.snapshot_version() == o.snapshot_version() && r.begin_lsn() == o.begin_lsn()
                && r.batch_size() == o.batch_size() && r.max_retries() == o.max_retries()
                && r.max_in_flight() == o.max_in_flight())),
            aborted ==> final(self).live_run() is None && final(self).scheduler_state()
                == SchedulerState::CoolingDown,
            !aborted ==> final(self).scheduler_state() == old(self).scheduler_state(),
            final(self).config() == old(self).config(),
            final(self).capacity() == old(self).capacity(),
            final(self).clock() == old(self).clock(),
            final(self).max_lsn_seen() == old(self).max_lsn_seen(),
            final(self).tracker_version() == old(self).tracker_version(),
            final(self).last_run_start() == old(self).last_run_start(),
            final(self).pending_forced() == old(self).pending_forced(),
            final(self).pending_deferred() == old(self).pending_deferred(),
            final(self).pending_deferred_forced() == old(self).pending_deferred_forced(),
            final(self).wal_over_limit() == old(self).wal_over_limit(),
            final(self).hard_since() == old(self).hard_since(),
            final(self).watchdog_interval() == old(self).watchdog_interval(),
            final(self).admission_deadline() == old(self).admission_deadline(),
    {
        let r = self.run.take();
        match r {
            Some(mut run) => {
                let aborted = run.on_partial_failure(failed);
                if aborted {
                    self.scheduler.on_run_complete();
                    true
                } else {
                    self.run = Some(run);
                    false
                }
            },
            None => false,
        }
    }

    /// Commits the run once every batch is acknowledged durable, with
    /// `end_lsn` the current log head: clears the flushed, not re-dirtied
    /// pages from the tracker, persists the Checkpoint Record (the caller
    /// appends it to the WAL and truncates the log before
    /// `recovery_lsn`), and moves the scheduler into its cooldown.
    ///
    /// Returns the record exactly when a run was ready to commit. Pages
    /// dirtied or written again after the run's snapshot stay tracked
    /// (keeping their first-dirty `recovery_lsn`).
    pub fn try_commit(&mut self, end_lsn: u64) -> (rec: Option<CheckpointRecord>)
        requires
            old(self).wf(),
            end_lsn >= old(self).max_lsn_seen(),
        ensures
            final(self).wf(),
            rec is Some <==> (old(self).live_run() matches Some(r) && r.status()
                == RunStatus::Committing),
            rec matches Some(record) ==> (old(self).live_run() matches Some(r) && {
                &&& record.begin_lsn == r.begin_lsn()
                &&& record.recovery_lsn == min_recovery_lsn(r.snapshot_entries(), r.begin_lsn())
                &&& record.end_lsn == end_lsn
                &&& record.wf()
                &&& final(self).last_anchor() == Some(record)
                &&& final(self).live_run() is None
                &&& final(self).scheduler_state() == SchedulerState::CoolingDown
                &&& final(self).max_lsn_seen() == end_lsn
                &&& final(self).config() == old(self).config()
                &&& final(self).capacity() == old(self).capacity()
                &&& final(self).clock() == old(self).clock()
                &&& final(self).tracker_version() == old(self).tracker_version()
                &&& final(self).last_run_start() == old(self).last_run_start()
                &&& final(self).pending_forced() == old(self).pending_forced()
                &&& final(self).pending_deferred() == old(self).pending_deferred()
                &&& final(self).pending_deferred_forced() == old(self).pending_deferred_forced()
                &&& final(self).wal_over_limit() == old(self).wal_over_limit()
                &&& final(self).hard_since() is None
                &&& final(self).watchdog_interval() == old(self).watchdog_interval()
                &&& final(self).admission_deadline() == old(self).admission_deadline()
                // Exactly the snapshot pages not re-dirtied since the
                // snapshot are cleared.
                &&& forall|p: u64|
                    #[trigger] final(self).dirty_table().contains_key(p) <==> (old(self).dirty_table().contains_key(p) && !(in_snapshot(r.snapshot_entries(), p)
                        && old(self).dirty_table()[p].version <= r.snapshot_version()))
                &&& forall|p: u64|
                    #[trigger] final(self).dirty_table().contains_key(p) ==> final(self).dirty_table()[p] == old(self).dirty_table()[p]
                &&& final(self).dirty_entries().len() == final(self).dirty_table().len()
                &&& final(self).dirty_table().dom().finite()
            }),
            rec is None ==> *final(self) == *old(self),
    {
        let r = self.run.take();
        match r {
            Some(mut run) => {
                if matches!(run.status_now(), RunStatus::Committing) {
                    let ids = run.flushed_page_ids();
                    proof {
                        let snap = run.snapshot_entries();
                        assert forall|p: u64| ids@.contains(p) == in_snapshot(snap, p) by {
                            if ids@.contains(p) {
                                let j = choose|j: int| 0 <= j < ids@.len() && ids@[j] == p;
                                assert((#[trigger] snap[j]).page_id == p);
                            }
                            if in_snapshot(snap, p) {
                                let j = choose|j: int|
                                    0 <= j < snap.len() && (#[trigger] snap[j]).page_id == p;
                                assert(ids@[j] == p);
                            }
                        }
                    }
                    proof {
                        crate::tracker::lemma_tracker_key_ids(self.tracker);
                    }
                    self.tracker.clear_flushed(&ids, run.snapshot_version_now());
                    proof {
                        let olds = old(self).tracker.entry_seq();
                        assert forall|i: int| 0 <= i < self.tracker.entry_seq().len() implies (
                        #[trigger] self.tracker.entry_seq()[i]).recovery_lsn <= end_lsn by {
                            let e = self.tracker.entry_seq()[i];
                            assert(olds.contains(e));
                            let k = choose|k: int| 0 <= k < olds.len() && olds[k] == e;
                            assert(olds[k].recovery_lsn <= old(self).max_lsn_seen);
                        }
                    }
                    proof {
                        crate::tracker::lemma_tracker_table_len(self.tracker);
                    }
                    let record = run.commit(end_lsn);
                    self.scheduler.on_run_complete();
                    self.backpressure.note_progress();
                    self.last_record = Some(record);
                    self.max_lsn_seen = end_lsn;
                    Some(record)
                } else {
                    self.run = Some(run);
                    None
                }
            },
            None => None,
        }
    }

    /// Whether a new write-transaction admission may proceed right now:
    /// blocked exactly while the dirty ratio is above the hard limit.
    pub fn admission_allowed(&self) -> (granted: bool)
        requires
            self.wf(),
        ensures
            granted == !ratio_exceeds_pct(
                self.dirty_entries().len() as u64,
                self.capacity(),
                self.config().dirty_page_hard_limit_pct,
            ),
    {
        let dirty = self.tracker.dirty_count() as u64;
        self.backpressure.admission_open(dirty, self.capacity)
    }

    /// What a blocked admission does when it polls again: proceed once
    /// the dirty ratio is back at or below the soft limit, keep waiting
    /// within the deadline, fail with a retryable resource-exhaustion
    /// error after it.
    pub fn poll_admission(&self, wait_started: u64, now: u64) -> (w: AdmissionWait)
        requires
            self.wf(),
            now >= wait_started,
        ensures
            w == AdmissionWait::Proceed <==> !ratio_exceeds_pct(
                self.dirty_entries().len() as u64,
                self.capacity(),
                self.config().dirty_page_soft_limit_pct,
            ),
            w == AdmissionWait::TimedOut <==> (ratio_exceeds_pct(
                self.dirty_entries().len() as u64,
                self.capacity(),
                self.config().dirty_page_soft_limit_pct,
            ) && now - wait_started >= self.admission_deadline()),
            w == AdmissionWait::KeepWaiting <==> (ratio_exceeds_pct(
                self.dirty_entries().len() as u64,
                self.capacity(),
                self.config().dirty_page_soft_limit_pct,
            ) && now - wait_started < self.admission_deadline()),
    {
        let dirty = self.tracker.dirty_count() as u64;
        self.backpressure.poll_blocked_admission(dirty, self.capacity, wait_started, now)
    }
}

/// Law: a page re-dirtied after a run's snapshot was taken (its entry
/// version exceeds the snapshot version) stays tracked, unchanged, across
/// the run's commit, whose effect on the dirty page table is the relation
/// `try_commit` ensures between `before` and `after`.
pub proof fn lemma_redirtied_pages_survive_commit(
    before: Map<u64, PageEntry>,
    after: Map<u64, PageEntry>,
    snapshot: Seq<PageEntry>,
    snapshot_version: u64,
    p: u64,
)
    requires
        forall|q: u64|
            #[trigger] after.contains_key(q) <==> (before.contains_key(q) && !(in_snapshot(
                snapshot,
                q,
            ) && before[q].version <= snapshot_version)),
        forall|q: u64| #[trigger] after.contains_key(q) ==> after[q] == before[q],
        before.contains_key(p),
        before[p].version > snapshot_version,
    ensures
        after.contains_key(p),
        after[p] == before[p],
{
    assert(after.contains_key(p));
    assert(after[p] == before[p]);
}

/// Law: at most one checkpoint run is live at any time — the controller
/// holds a live run exactly while its scheduler is in `Running`, and it
/// holds at most one.
pub proof fn lemma_single_live_run(c: CheckpointController)
    requires
        c.wf(),
    ensures
        c.live_run() is Some <==> c.scheduler_state() == SchedulerState::Running,
{
}

} // verus!
