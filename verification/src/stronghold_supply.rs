//! A stronghold's supply tally: counts delivered units and raises the
//! stronghold's signal the moment the second unit of a round arrives.

use vstd::prelude::*;

use crate::signal::Signal;

verus! {

/// Counts deliveries toward one stronghold and owns the signal that tells
/// it when its pair is complete.
pub struct StrongholdSupply {
    item_count: usize,
    stronghold_signal: Signal,
}

impl StrongholdSupply {
    /// How many units have been delivered.
    pub closed spec fn count(&self) -> int {
        self.item_count as int
    }

    /// Whether the stronghold's signal is raised.
    pub closed spec fn signalled(&self) -> bool {
        self.stronghold_signal.raised()
    }

    /// Creates a tally at zero around the stronghold's signal.
    pub fn new(stronghold_signal: Signal) -> (s: StrongholdSupply)
        ensures
            s.count() == 0,
            s.signalled() == stronghold_signal.raised(),
    {
        StrongholdSupply { item_count: 0, stronghold_signal }
    }

    /// Records one delivered unit; exactly when the tally reaches two, the
    /// stronghold's signal is raised.
    pub fn deliever_resource(&mut self)
        requires
            old(self).count() < usize::MAX,
        ensures
            final(self).count() == old(self).count() + 1,
            final(self).count() == 2 ==> final(self).signalled(),
            final(self).count() != 2 ==> final(self).signalled() == old(self).signalled(),
    {
        self.item_count += 1;
        if self.item_count == 2 {
            self.stronghold_signal.raise();
        }
    }

    /// Reads the signal without resetting it.
    pub fn is_signalled(&self) -> (r: bool)
        ensures
            r == self.signalled(),
    {
        self.stronghold_signal.is_raised()
    }
}

} // verus!
