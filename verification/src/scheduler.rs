//! Checkpoint Scheduler: a timer- and event-driven state machine that
//! decides when a checkpoint run starts. It enforces the minimum spacing
//! between run starts (against checkpoint storms) and the maximum
//! staleness (a run at least every `max_interval`), and coalesces
//! concurrent trigger sources into a single run.

use vstd::prelude::*;

verus! {

/// The scheduler's phase.
#[derive(Clone, Copy, Debug, PartialEq, Eq, Structural)]
pub enum SchedulerState {
    /// Nothing requested.
    Idle,
    /// A checkpoint was requested and waits for the spacing gate.
    Triggered,
    /// The executor owns a live run.
    Running,
    /// A run just finished; new triggers are deferred until
    /// `min_interval` has passed since the run's start.
    CoolingDown,
}

/// What raised a checkpoint request.
#[derive(Clone, Copy, Debug, PartialEq, Eq, Structural)]
pub enum TriggerKind {
    /// `max_interval` elapsed since the last run started.
    MaxIntervalElapsed,
    /// The WAL reached `max_wal_size`.
    WalSizeExceeded,
    /// The dirty-page ratio crossed the soft limit.
    DirtySoftLimit,
    /// An explicit external request (for instance before a controlled
    /// shutdown); it bypasses the minimum-spacing gate.
    ExternalRequest,
}

/// Decides when a checkpoint run starts. Times are in milliseconds and
/// must be fed monotonically.
pub struct CheckpointScheduler {
    state: SchedulerState,
    last_start: Option<u64>,
    forced: bool,
    deferred: bool,
    deferred_forced: bool,
    min_interval: u64,
    max_interval: u64,
}

impl CheckpointScheduler {
    /// Current phase.
    pub closed spec fn state(self) -> SchedulerState {
        self.state
    }

    /// When the most recent run started, if any run ever did.
    pub closed spec fn last_start(self) -> Option<u64> {
        self.last_start
    }

    /// Whether the pending trigger includes an external request (which
    /// bypasses the minimum-spacing gate).
    pub closed spec fn forced(self) -> bool {
        self.forced
    }

    /// Whether a trigger arrived while a run was in progress or cooling
    /// down; at most one such deferred request is kept.
    pub closed spec fn deferred(self) -> bool {
        self.deferred
    }

    /// Whether the deferred request includes an external one.
    pub closed spec fn deferred_forced(self) -> bool {
        self.deferred_forced
    }

    /// Minimum spacing between run starts.
    pub closed spec fn min_interval(self) -> u64 {
        self.min_interval
    }

    /// Maximum staleness before the timer raises a trigger by itself.
    pub closed spec fn max_interval(self) -> u64 {
        self.max_interval
    }

    /// Valid intervals and a last-start stamp wherever a run is live or
    /// cooling down.
    pub closed spec fn wf(self) -> bool {
        &&& 0 < self.min_interval < self.max_interval
        &&& (self.state is Running || self.state is CoolingDown) ==> self.last_start is Some
    }

    /// Whether a start is allowed at `now`: a trigger is pending and
    /// either it was forced by an external request, or no run ever
    /// started, or `min_interval` has passed since the last start.
    pub open spec fn can_start(self, now: u64) -> bool {
        &&& self.state() is Triggered
        &&& (self.forced() || match self.last_start() {
            Option::None => true,
            Option::Some(t) => now - t >= self.min_interval(),
        })
    }

    /// The scheduler's phase, readable at run time.
    pub fn current_state(&self) -> (s: SchedulerState)
        ensures
            s == self.state(),
    {
        self.state
    }

    /// An idle scheduler; the first run will come from a trigger.
    pub fn new(min_interval: u64, max_interval: u64) -> (s: Self)
        requires
            0 < min_interval < max_interval,
        ensures
            s.wf(),
            s.state() == SchedulerState::Idle,
            s.last_start() is None,
            !s.forced(),
            !s.deferred(),
            s.min_interval() == min_interval,
            s.max_interval() == max_interval,
    {
        CheckpointScheduler {
            state: SchedulerState::Idle,
            last_start: None,
            forced: false,
            deferred: false,
            deferred_forced: false,
            min_interval,
            max_interval,
        }
    }

    /// Feeds one trigger. When idle it arms a request; while a request is
    /// already pending the trigger is absorbed into it; while a run is in
    /// progress or cooling down it is coalesced into at most one deferred
    /// request.
    pub fn on_trigger(&mut self, kind: TriggerKind)
        ensures
            final(self).wf() <==> old(self).wf(),
            final(self).last_start() == old(self).last_start(),
            final(self).min_interval() == old(self).min_interval(),
            final(self).max_interval() == old(self).max_interval(),
            old(self).state() == SchedulerState::Idle ==> final(self).state()
                == SchedulerState::Triggered && final(self).forced() == (kind
                == TriggerKind::ExternalRequest) && final(self).deferred() == old(self).deferred(),
            old(self).state() == SchedulerState::Triggered ==> final(self).state()
                == SchedulerState::Triggered && final(self).forced() == (old(self).forced() || kind
                == TriggerKind::ExternalRequest) && final(self).deferred() == old(self).deferred(),
            old(self).state() == SchedulerState::Running || old(self).state()
                == SchedulerState::CoolingDown ==> final(self).state() == old(self).state()
                && final(self).forced() == old(self).forced() && final(self).deferred()
                && final(self).deferred_forced() == (old(self).deferred_forced() || kind
                == TriggerKind::ExternalRequest),
    {
        let external = matches!(kind, TriggerKind::ExternalRequest);
        match self.state {
            SchedulerState::Idle => {
                self.state = SchedulerState::Triggered;
                self.forced = external;
            },
            SchedulerState::Triggered => {
                self.forced = self.forced || external;
            },
            SchedulerState::Running | SchedulerState::CoolingDown => {
                self.deferred = true;
                self.deferred_forced = self.deferred_forced || external;
            },
        }
    }

    /// Moves a pending request into a running checkpoint if the spacing
    /// gate allows it: `min_interval` since the previous start, waived
    /// for an external request. Returns whether a run starts now.
    pub fn try_start(&mut self, now: u64) -> (started: bool)
        requires
            old(self).wf(),
            old(self).last_start() matches Some(t) ==> now >= t,
        ensures
            final(self).wf(),
            started == old(self).can_start(now),
            started ==> final(self).state() == SchedulerState::Running && final(self).last_start()
                == Some(now) && !final(self).forced() && final(self).deferred()
                == old(self).deferred(),
            !started ==> *final(self) == *old(self),
            final(self).min_interval() == old(self).min_interval(),
            final(self).max_interval() == old(self).max_interval(),
            final(self).deferred() == old(self).deferred(),
            final(self).deferred_forced() == old(self).deferred_forced(),
    {
        match self.state {
            SchedulerState::Triggered => {
                let gate_open = self.forced || match self.last_start {
                    None => true,
                    Some(t) => now - t >= self.min_interval,
                };
                if gate_open {
                    self.state = SchedulerState::Running;
                    self.last_start = Some(now);
                    self.forced = false;
                    true
                } else {
                    false
                }
            },
            _ => false,
        }
    }

    /// The executor reported its run Committed or Aborted: the scheduler
    /// cools down until `min_interval` has passed since the run's start.
    pub fn on_run_complete(&mut self)
        requires
            old(self).wf(),
            old(self).state() == SchedulerState::Running,
        ensures
            final(self).wf(),
            final(self).state() == SchedulerState::CoolingDown,
            final(self).last_start() == old(self).last_start(),
            final(self).forced() == old(self).forced(),
            final(self).deferred() == old(self).deferred(),
            final(self).deferred_forced() == old(self).deferred_forced(),
            final(self).min_interval() == old(self).min_interval(),
            final(self).max_interval() == old(self).max_interval(),
    {
        self.state = SchedulerState::CoolingDown;
    }

    /// Advances the timers to `now`. A cooled-down scheduler returns to
    /// idle (or straight to a pending deferred request) once
    /// `min_interval` has passed since the last start; an idle scheduler
    /// arms the staleness trigger once `max_interval` has.
    pub fn tick(&mut self, now: u64)
        requires
            old(self).wf(),
            old(self).last_start() matches Some(t) ==> now >= t,
        ensures
            final(self).wf(),
            final(self).last_start() == old(self).last_start(),
            final(self).min_interval() == old(self).min_interval(),
            final(self).max_interval() == old(self).max_interval(),
            old(self).state() == SchedulerState::CoolingDown ==> {
                let t = old(self).last_start()->Some_0;
                if now - t >= old(self).min_interval() {
                    (if old(self).deferred() {
                        final(self).state() == SchedulerState::Triggered && final(self).forced()
                            == old(self).deferred_forced()
                    } else {
                        final(self).state() == SchedulerState::Idle && final(self).forced()
                            == old(self).forced()
                    }) && !final(self).deferred() && !final(self).deferred_forced()
                } else {
                    *final(self) == *old(self)
                }
            },
            old(self).state() == SchedulerState::Idle ==> {
                if old(self).last_start() matches Some(t) && now - t >= old(self).max_interval() {
                    final(self).state() == SchedulerState::Triggered && !final(self).forced()
                        && final(self).deferred() == old(self).deferred()
                } else {
                    *final(self) == *old(self)
                }
            },
            old(self).state() == SchedulerState::Running || old(self).state()
                == SchedulerState::Triggered ==> *final(self) == *old(self),
    {
        match self.state {
            SchedulerState::CoolingDown => {
                let t = match self.last_start {
                    Some(t) => t,
                    None => 0,
                };
                if now - t >= self.min_interval {
                    if self.deferred {
                        self.state = SchedulerState::Triggered;
                        self.forced = self.deferred_forced;
                    } else {
                        self.state = SchedulerState::Idle;
                    }
                    self.deferred = false;
                    self.deferred_forced = false;
                }
            },
            SchedulerState::Idle => {
                match self.last_start {
                    Some(t) => {
                        if now - t >= self.max_interval {
                            self.state = SchedulerState::Triggered;
                            self.forced = false;
                        }
                    },
                    None => {},
                }
            },
            _ => {},
        }
    }
}

/// Law: checkpoint starts that were not forced by an explicit external
/// request are spaced at least `min_interval` apart: whenever a start is
/// allowed at `now` with a previous start at `t` and no external request
/// pending, `now - t >= min_interval`.
pub proof fn lemma_unforced_start_spacing(s: CheckpointScheduler, now: u64, t: u64)
    requires
        s.wf(),
        s.can_start(now),
        !s.forced(),
        s.last_start() == Some(t),
        now >= t,
    ensures
        now - t >= s.min_interval(),
{
}

} // verus!
