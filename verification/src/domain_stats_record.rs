//! One domain statistics record as the driver handed it out.

use vstd::prelude::*;

verus! {

/// One domain statistics record as the driver handed it out.
pub struct DomainStatsRecord {
    pub stat: u64,
}

impl DomainStatsRecord {
    /// The native handle this wrapper holds.
    pub fn get(&self) -> (r: u64)
        ensures
            r == self.stat,
    {
        self.stat
    }

    /// Wraps a native handle.
    pub fn from_stat(stat: u64) -> (r: DomainStatsRecord)
        ensures
            r.stat == stat,
    {
        DomainStatsRecord { stat }
    }
}

} // verus!
