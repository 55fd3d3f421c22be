//! Configuration of the checkpoint controller, with fail-fast validation.

use vstd::prelude::*;

use crate::error::ConfigError;

verus! {

/// Tuning knobs of the checkpoint controller. Intervals are in
/// milliseconds, sizes in bytes, limits in whole percent of the buffer
/// pool capacity.
#[derive(Clone, Copy, Debug, PartialEq, Eq, Structural)]
pub struct CheckpointConfig {
    /// Upper bound on the time since the last checkpoint start; once it
    /// elapses a checkpoint is triggered by the timer alone.
    pub max_interval: u64,
    /// Minimum spacing between checkpoint starts (guards against
    /// checkpoint storms).
    pub min_interval: u64,
    /// WAL size that forces a checkpoint.
    pub max_wal_size: u64,
    /// Dirty-page share of the buffer pool, in percent, above which a
    /// background checkpoint is requested.
    pub dirty_page_soft_limit_pct: u64,
    /// Dirty-page share of the buffer pool, in percent, above which new
    /// write-transaction admissions block until the share falls back to
    /// the soft limit.
    pub dirty_page_hard_limit_pct: u64,
    /// Pages flushed per I/O submission.
    pub checkpoint_batch_size: usize,
    /// Whether several batches may be in flight concurrently.
    pub async_checkpoint: bool,
}

impl CheckpointConfig {
    /// The combinations of fields that the controller accepts at
    /// construction; everything else is rejected, never silently clamped.
    pub open spec fn valid(self) -> bool {
        &&& self.min_interval > 0
        &&& self.max_interval > self.min_interval
        &&& self.max_wal_size > 0
        &&& 0 < self.dirty_page_soft_limit_pct
        &&& self.dirty_page_soft_limit_pct < self.dirty_page_hard_limit_pct
        &&& self.dirty_page_hard_limit_pct <= 100
        &&& self.checkpoint_batch_size > 0
    }

    /// Checks the configuration invariants, reporting the first violated
    /// one; returns `Ok` exactly on valid configurations.
    pub fn validate(&self) -> (r: Result<(), ConfigError>)
        ensures
            r is Ok <==> self.valid(),
            self.min_interval == 0 <==> r == Result::<(), ConfigError>::Err(
                ConfigError::ZeroMinInterval,
            ),
            self.min_interval > 0 && self.max_interval <= self.min_interval <==> r
                == Result::<(), ConfigError>::Err(ConfigError::MaxIntervalNotAboveMin),
            self.min_interval > 0 && self.max_interval > self.min_interval && self.max_wal_size
                == 0 <==> r == Result::<(), ConfigError>::Err(ConfigError::ZeroMaxWalSize),
            self.min_interval > 0 && self.max_interval > self.min_interval && self.max_wal_size > 0
                && self.dirty_page_soft_limit_pct == 0 <==> r == Result::<(), ConfigError>::Err(
                ConfigError::ZeroSoftLimit,
            ),
            self.min_interval > 0 && self.max_interval > self.min_interval && self.max_wal_size > 0
                && self.dirty_page_soft_limit_pct > 0 && self.dirty_page_hard_limit_pct
                <= self.dirty_page_soft_limit_pct <==> r == Result::<(), ConfigError>::Err(
                ConfigError::HardLimitNotAboveSoft,
            ),
            self.min_interval > 0 && self.max_interval > self.min_interval && self.max_wal_size > 0
                && self.dirty_page_soft_limit_pct > 0 && self.dirty_page_hard_limit_pct
                > self.dirty_page_soft_limit_pct && self.dirty_page_hard_limit_pct > 100 <==> r
                == Result::<(), ConfigError>::Err(ConfigError::HardLimitAboveFull),
            self.min_interval > 0 && self.max_interval > self.min_interval && self.max_wal_size > 0
                && self.dirty_page_soft_limit_pct > 0 && self.dirty_page_hard_limit_pct
                > self.dirty_page_soft_limit_pct && self.dirty_page_hard_limit_pct <= 100
                && self.checkpoint_batch_size == 0 <==> r == Result::<(), ConfigError>::Err(
                ConfigError::ZeroBatchSize,
            ),
    {
        if self.min_interval == 0 {
            Err(ConfigError::ZeroMinInterval)
        } else if self.max_interval <= self.min_interval {
            Err(ConfigError::MaxIntervalNotAboveMin)
        } else if self.max_wal_size == 0 {
            Err(ConfigError::ZeroMaxWalSize)
        } else if self.dirty_page_soft_limit_pct == 0 {
            Err(ConfigError::ZeroSoftLimit)
        } else if self.dirty_page_hard_limit_pct <= self.dirty_page_soft_limit_pct {
            Err(ConfigError::HardLimitNotAboveSoft)
        } else if self.dirty_page_hard_limit_pct > 100 {
            Err(ConfigError::HardLimitAboveFull)
        } else if self.checkpoint_batch_size == 0 {
            Err(ConfigError::ZeroBatchSize)
        } else {
            Ok(())
        }
    }

    /// The conservative production defaults: checkpoint at least once a
    /// minute, at most once every five seconds, force one when the WAL
    /// reaches 1 GiB, flush in the background from 70% dirty, block
    /// admissions from 90% dirty, flush 256 pages per batch, submit
    /// batches asynchronously.
    pub open spec fn standard() -> CheckpointConfig {
        CheckpointConfig {
            max_interval: 60_000,
            min_interval: 5_000,
            max_wal_size: 0x40000000,
            dirty_page_soft_limit_pct: 70,
            dirty_page_hard_limit_pct: 90,
            checkpoint_batch_size: 256,
            async_checkpoint: true,
        }
    }

    /// The standard defaults always pass validation.
    pub proof fn lemma_standard_valid()
        ensures
            CheckpointConfig::standard().valid(),
    {
    }
}

impl Default for CheckpointConfig {
    fn default() -> (c: Self)
        ensures
            c == CheckpointConfig::standard(),
            c.valid(),
    {
        CheckpointConfig {
            max_interval: 60_000,
            min_interval: 5_000,
            max_wal_size: 0x40000000,
            dirty_page_soft_limit_pct: 70,
            dirty_page_hard_limit_pct: 90,
            checkpoint_batch_size: 256,
            async_checkpoint: true,
        }
    }
}

/// Engine-wide configuration: the buffer pool geometry together with the
/// checkpoint controller's knobs.
#[derive(Clone, Copy, Debug, PartialEq, Eq, Structural)]
pub struct DatabaseConfig {
    /// Buffer pool capacity, in pages.
    pub buffer_pool_size: usize,
    /// Page size, in bytes.
    pub page_size: usize,
    /// Checkpoint controller knobs.
    pub checkpoint: CheckpointConfig,
}

} // verus!
