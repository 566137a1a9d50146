//! The two flags that decide whether live propagation may act: whether the
//! network is reachable, and whether a reconciliation pass is running.

use vstd::prelude::*;

verus! {

/// Most propagation units in flight before the watcher waits for all of them.
pub const MAX_IN_FLIGHT: usize = 5;

/// Connectivity, written by the probe, and the pass flag, written by the
/// reconciliation loop alone.
pub struct SyncCoordinator {
    pub connectivity: bool,
    pub sweep_in_progress: bool,
}

impl SyncCoordinator {
    /// Nothing known to be reachable yet, and no pass running.
    pub fn new() -> (r: SyncCoordinator)
        ensures
            !r.connectivity,
            !r.sweep_in_progress,
    {
        SyncCoordinator { connectivity: false, sweep_in_progress: false }
    }

    /// Records what the reachability probe found.
    pub fn set_connectivity(&mut self, reachable: bool)
        ensures
            final(self).connectivity == reachable,
            final(self).sweep_in_progress == old(self).sweep_in_progress,
    {
        self.connectivity = reachable;
    }

    /// Whether the watcher may act on an event now: the network is reachable
    /// and no pass is running.
    pub fn may_propagate(&self) -> (r: bool)
        ensures
            r == (self.connectivity && !self.sweep_in_progress),
    {
        self.connectivity && !self.sweep_in_progress
    }

    /// Starts a pass where the network is reachable; true if it started.
    pub fn begin_sweep(&mut self) -> (r: bool)
        ensures
            r == old(self).connectivity,
            final(self).connectivity == old(self).connectivity,
            final(self).sweep_in_progress == (old(self).sweep_in_progress || r),
    {
        if self.connectivity {
            self.sweep_in_progress = true;
            true
        } else {
            false
        }
    }

    /// Ends a pass, whether it succeeded or failed.
    pub fn end_sweep(&mut self)
        ensures
            final(self).connectivity == old(self).connectivity,
            !final(self).sweep_in_progress,
    {
        self.sweep_in_progress = false;
    }
}

/// The count of propagation units dispatched since the last drain.
pub struct InFlight {
    pub count: usize,
}

impl InFlight {
    /// Below the cap between two dispatches.
    pub open spec fn wf(self) -> bool {
        self.count < MAX_IN_FLIGHT
    }

    /// Nothing in flight.
    pub fn new() -> (r: InFlight)
        ensures
            r.wf(),
            r.count == 0,
    {
        InFlight { count: 0 }
    }

    /// Counts one more dispatched unit. True when the cap is reached: the
    /// caller then waits for every unit in flight before dispatching more,
    /// and the count starts again from zero.
    pub fn dispatched(&mut self) -> (drain: bool)
        requires
            old(self).wf(),
        ensures
            final(self).wf(),
            drain == (old(self).count + 1 == MAX_IN_FLIGHT),
            drain ==> final(self).count == 0,
            !drain ==> final(self).count == old(self).count + 1,
    {
        if self.count + 1 == MAX_IN_FLIGHT {
            self.count = 0;
            true
        } else {
            self.count = self.count + 1;
            false
        }
    }
}

} // verus!
