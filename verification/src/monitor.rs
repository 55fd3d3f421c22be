//! WAL Size Monitor: observes the log's length and raises an
//! edge-triggered checkpoint request when it reaches the configured
//! ceiling. Edge-triggering avoids redundant requests while the log stays
//! over the limit and a run is already in progress.

use vstd::prelude::*;

verus! {

/// Watches the WAL length against `max_wal_size`.
pub struct WalSizeMonitor {
    max_wal_size: u64,
    over_limit: bool,
}

impl WalSizeMonitor {
    /// The ceiling the monitor was constructed with.
    pub closed spec fn max_wal_size(self) -> u64 {
        self.max_wal_size
    }

    /// Whether the last observed size was at or over the ceiling.
    pub closed spec fn over_limit(self) -> bool {
        self.over_limit
    }

    /// A monitor for the given ceiling; no size observed yet, so the
    /// first observation at or over the ceiling fires.
    pub fn new(max_wal_size: u64) -> (m: Self)
        requires
            max_wal_size > 0,
        ensures
            m.max_wal_size() == max_wal_size,
            !m.over_limit(),
    {
        WalSizeMonitor { max_wal_size, over_limit: false }
    }

    /// Feeds the current WAL size to the monitor. Fires exactly once per
    /// threshold crossing: when the size reaches the ceiling and the
    /// previous observation was below it.
    pub fn observe(&mut self, current_size: u64) -> (fire: bool)
        ensures
            fire == (current_size >= old(self).max_wal_size() && !old(self).over_limit()),
            final(self).over_limit() == (current_size >= old(self).max_wal_size()),
            final(self).max_wal_size() == old(self).max_wal_size(),
    {
        let over = current_size >= self.max_wal_size;
        let fire = over && !self.over_limit;
        self.over_limit = over;
        fire
    }
}

} // verus!
