//! Backpressure Controller: computes the dirty-page ratio on demand and
//! applies the soft policy (request a background checkpoint) and the hard
//! policy (block new write-transaction admissions until the ratio falls
//! back to the soft limit, with a bounded wait and a stuck-state
//! watchdog).

use vstd::prelude::*;

use crate::error::{AdmissionError, ConfigError};

verus! {

/// Where the dirty-page ratio stands relative to the two limits.
#[derive(Clone, Copy, Debug, PartialEq, Eq, Structural)]
pub enum PressureLevel {
    /// At or below the soft limit: no action.
    Normal,
    /// Above the soft limit but not above the hard one: a background
    /// checkpoint is requested, admissions proceed.
    Soft,
    /// Above the hard limit: new admissions block.
    Hard,
}

/// What a blocked admission should do at a polling instant.
#[derive(Clone, Copy, Debug, PartialEq, Eq, Structural)]
pub enum AdmissionWait {
    /// The dirty ratio fell back to the soft limit: proceed.
    Proceed,
    /// Still over the soft limit and within the deadline: keep waiting.
    KeepWaiting,
    /// The deadline elapsed with the ratio still over the soft limit:
    /// fail with a retryable resource-exhaustion error.
    TimedOut,
}

/// `dirty / capacity > pct / 100`, in exact integer arithmetic.
pub open spec fn ratio_exceeds_pct(dirty: u64, capacity: u64, pct: u64) -> bool {
    dirty * 100 > pct * capacity
}

/// Applies the soft and hard dirty-page limits. The hard limit is
/// strictly above the soft one (checked at construction).
pub struct BackpressureController {
    soft_pct: u64,
    hard_pct: u64,
    admission_deadline: u64,
    watchdog_interval: u64,
    hard_since: Option<u64>,
}

impl BackpressureController {
    /// Soft limit, in percent of the buffer pool.
    pub closed spec fn soft_pct(self) -> u64 {
        self.soft_pct
    }

    /// Hard limit, in percent of the buffer pool.
    pub closed spec fn hard_pct(self) -> u64 {
        self.hard_pct
    }

    /// How long a blocked admission may wait, in milliseconds.
    pub closed spec fn admission_deadline(self) -> u64 {
        self.admission_deadline
    }

    /// How long the hard limit may hold without checkpoint progress
    /// before the condition is fatal, in milliseconds.
    pub closed spec fn watchdog_interval(self) -> u64 {
        self.watchdog_interval
    }

    /// When the current uninterrupted hard-limit episode began, if one is
    /// in progress.
    pub closed spec fn hard_since(self) -> Option<u64> {
        self.hard_since
    }

    /// The limit pair the controller accepts.
    pub open spec fn limits_valid(soft_pct: u64, hard_pct: u64) -> bool {
        0 < soft_pct < hard_pct <= 100
    }

    /// A constructed controller always carries a valid limit pair.
    pub closed spec fn wf(self) -> bool {
        Self::limits_valid(self.soft_pct, self.hard_pct)
    }

    /// A controller for the given limits; fails fast on an invalid pair
    /// (hard must be strictly above soft and at most the whole pool).
    pub fn new(soft_pct: u64, hard_pct: u64, admission_deadline: u64, watchdog_interval: u64) -> (r:
        Result<Self, ConfigError>)
        ensures
            r is Ok <==> Self::limits_valid(soft_pct, hard_pct),
            r matches Ok(c) ==> c.wf() && c.soft_pct() == soft_pct && c.hard_pct() == hard_pct
                && c.admission_deadline() == admission_deadline && c.watchdog_interval()
                == watchdog_interval && c.hard_since() is None,
            soft_pct == 0 <==> r == Result::<Self, ConfigError>::Err(ConfigError::ZeroSoftLimit),
            soft_pct > 0 && hard_pct <= soft_pct <==> r == Result::<Self, ConfigError>::Err(
                ConfigError::HardLimitNotAboveSoft,
            ),
            soft_pct > 0 && hard_pct > soft_pct && hard_pct > 100 <==> r == Result::<
                Self,
                ConfigError,
            >::Err(ConfigError::HardLimitAboveFull),
    {
        if soft_pct == 0 {
            Err(ConfigError::ZeroSoftLimit)
        } else if hard_pct <= soft_pct {
            Err(ConfigError::HardLimitNotAboveSoft)
        } else if hard_pct > 100 {
            Err(ConfigError::HardLimitAboveFull)
        } else {
            Ok(
                BackpressureController {
                    soft_pct,
                    hard_pct,
                    admission_deadline,
                    watchdog_interval,
                    hard_since: None,
                },
            )
        }
    }

    /// Classifies the dirty ratio against the two limits.
    pub fn evaluate(&self, dirty: u64, capacity: u64) -> (level: PressureLevel)
        requires
            self.wf(),
        ensures
            level == PressureLevel::Hard <==> ratio_exceeds_pct(dirty, capacity, self.hard_pct()),
            level == PressureLevel::Soft <==> (!ratio_exceeds_pct(dirty, capacity, self.hard_pct())
                && ratio_exceeds_pct(dirty, capacity, self.soft_pct())),
            level == PressureLevel::Normal <==> !ratio_exceeds_pct(
                dirty,
                capacity,
                self.soft_pct(),
            ),
    {
        proof {
            assert(self.soft_pct < self.hard_pct ==> (dirty * 100 > self.hard_pct * capacity
                ==> dirty * 100 > self.soft_pct * capacity)) by (nonlinear_arith);
        }
        if exceeds_pct(dirty, capacity, self.hard_pct) {
            PressureLevel::Hard
        } else if exceeds_pct(dirty, capacity, self.soft_pct) {
            PressureLevel::Soft
        } else {
            PressureLevel::Normal
        }
    }

    /// Whether a new write-transaction admission may proceed immediately:
    /// it blocks exactly while the ratio is above the hard limit.
    pub fn admission_open(&self, dirty: u64, capacity: u64) -> (granted: bool)
        ensures
            granted == !ratio_exceeds_pct(dirty, capacity, self.hard_pct()),
    {
        !exceeds_pct(dirty, capacity, self.hard_pct)
    }

    /// What a blocked admission does when it polls again: it proceeds
    /// once the ratio is back at or below the soft limit, keeps waiting
    /// within the deadline, and fails with a resource-exhaustion error
    /// once the deadline elapses.
    pub fn poll_blocked_admission(&self, dirty: u64, capacity: u64, wait_started: u64, now: u64) -> (w:
        AdmissionWait)
        requires
            now >= wait_started,
        ensures
            w == AdmissionWait::Proceed <==> !ratio_exceeds_pct(dirty, capacity, self.soft_pct()),
            w == AdmissionWait::TimedOut <==> (ratio_exceeds_pct(dirty, capacity, self.soft_pct())
                && now - wait_started >= self.admission_deadline()),
            w == AdmissionWait::KeepWaiting <==> (ratio_exceeds_pct(
                dirty,
                capacity,
                self.soft_pct(),
            ) && now - wait_started < self.admission_deadline()),
    {
        if !exceeds_pct(dirty, capacity, self.soft_pct) {
            AdmissionWait::Proceed
        } else if now - wait_started >= self.admission_deadline {
            AdmissionWait::TimedOut
        } else {
            AdmissionWait::KeepWaiting
        }
    }

    /// Feeds one pressure observation to the stuck-state watchdog.
    /// Returns true exactly when the hard limit has now held, without any
    /// successful checkpoint in between (`note_progress` resets the
    /// episode), for longer than the watchdog interval: a fatal
    /// condition, the engine must refuse further writes.
    pub fn observe_pressure(&mut self, dirty: u64, capacity: u64, now: u64) -> (fatal: bool)
        requires
            old(self).hard_since() matches Some(t) ==> now >= t,
        ensures
            final(self).wf() <==> old(self).wf(),
            final(self).soft_pct() == old(self).soft_pct(),
            final(self).hard_pct() == old(self).hard_pct(),
            final(self).admission_deadline() == old(self).admission_deadline(),
            final(self).watchdog_interval() == old(self).watchdog_interval(),
            !ratio_exceeds_pct(dirty, capacity, old(self).hard_pct()) ==> final(self).hard_since()
                is None && !fatal,
            ratio_exceeds_pct(dirty, capacity, old(self).hard_pct()) ==> final(self).hard_since()
                == (if old(self).hard_since() is Some {
                old(self).hard_since()
            } else {
                Some(now)
            }),
            fatal <==> (ratio_exceeds_pct(dirty, capacity, old(self).hard_pct()) && (old(
                self,
            ).hard_since() matches Some(t) && now - t > old(self).watchdog_interval())),
    {
        if exceeds_pct(dirty, capacity, self.hard_pct) {
            match self.hard_since {
                Some(t) => now - t > self.watchdog_interval,
                None => {
                    self.hard_since = Some(now);
                    false
                },
            }
        } else {
            self.hard_since = None;
            false
        }
    }

    /// Records checkpoint progress (a committed run): the current
    /// hard-limit episode, if any, ends and the watchdog starts afresh.
    pub fn note_progress(&mut self)
        ensures
            final(self).wf() <==> old(self).wf(),
            final(self).soft_pct() == old(self).soft_pct(),
            final(self).hard_pct() == old(self).hard_pct(),
            final(self).admission_deadline() == old(self).admission_deadline(),
            final(self).watchdog_interval() == old(self).watchdog_interval(),
            final(self).hard_since() is None,
    {
        self.hard_since = None;
    }
}

/// The error a blocked write-transaction admission surfaces, if any: the
/// watchdog's fatal stuck-backpressure condition takes precedence, then
/// the bounded wait's deadline; a waiter that may proceed or keep waiting
/// sees no error.
pub fn admission_error(w: AdmissionWait, watchdog_fatal: bool) -> (e: Option<AdmissionError>)
    ensures
        watchdog_fatal ==> e == Some(AdmissionError::StuckBackpressure),
        !watchdog_fatal && w == AdmissionWait::TimedOut ==> e == Some(AdmissionError::Timeout),
        !watchdog_fatal && w != AdmissionWait::TimedOut ==> e is None,
{
    if watchdog_fatal {
        Some(AdmissionError::StuckBackpressure)
    } else if matches!(w, AdmissionWait::TimedOut) {
        Some(AdmissionError::Timeout)
    } else {
        None
    }
}

/// Exact integer comparison `dirty / capacity > pct / 100`, widened so no
/// intermediate product can overflow.
fn exceeds_pct(dirty: u64, capacity: u64, pct: u64) -> (b: bool)
    ensures
        b == ratio_exceeds_pct(dirty, capacity, pct),
{
    proof {
        assert(pct * capacity <= u64::MAX * u64::MAX) by (nonlinear_arith)
            requires
                pct <= u64::MAX,
                capacity <= u64::MAX,
        ;
    }
    (dirty as u128) * 100 > (pct as u128) * (capacity as u128)
}

} // verus!
