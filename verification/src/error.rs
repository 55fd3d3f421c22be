//! Error taxonomy of the checkpoint controller.

use vstd::prelude::*;

verus! {

/// A configuration rejected at construction (fail fast, never clamp).
#[derive(Clone, Copy, Debug, PartialEq, Eq, Structural)]
pub enum ConfigError {
    /// `min_interval` must be positive.
    ZeroMinInterval,
    /// `max_interval` must exceed `min_interval`.
    MaxIntervalNotAboveMin,
    /// `max_wal_size` must be positive.
    ZeroMaxWalSize,
    /// The soft dirty-page limit must be positive.
    ZeroSoftLimit,
    /// The hard dirty-page limit must exceed the soft one.
    HardLimitNotAboveSoft,
    /// The hard dirty-page limit cannot exceed the whole buffer pool.
    HardLimitAboveFull,
    /// `checkpoint_batch_size` must be positive.
    ZeroBatchSize,
    /// The in-flight batch bound for asynchronous checkpoints must be
    /// positive.
    ZeroInFlightLimit,
}

/// What a blocked write-transaction admission ends in when it cannot
/// proceed.
#[derive(Clone, Copy, Debug, PartialEq, Eq, Structural)]
pub enum AdmissionError {
    /// The bounded wait at the hard dirty-page limit elapsed with the
    /// dirty share still above the soft limit: a retryable
    /// resource-exhaustion error.
    Timeout,
    /// The hard limit has held with no checkpoint progress for longer
    /// than the watchdog interval: the engine cannot guarantee bounded
    /// recovery time and must refuse further writes.
    StuckBackpressure,
}

} // verus!
