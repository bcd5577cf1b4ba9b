//! Mutual-exclusion discipline for the shared resources.
//!
//! Three resources are shared across jobs: the wall clock, the display and
//! the serial port.  A job gets exclusive access for one short, synchronous
//! critical section at a time; on the hardware the acquire raises a priority
//! ceiling (masking the RTC interrupt for the section), so an interrupt whose
//! handler touches the same resource is deferred, never raced.  Here the
//! discipline is carried in the contracts: a job may acquire only when it
//! holds nothing, so critical sections never nest and never overlap — no job
//! observes a half-updated resource, and no deadlock is possible.

use vstd::prelude::*;

verus! {

/// The shared resources jobs contend for.
#[derive(Clone, Copy, PartialEq, Eq, Structural, Debug)]
pub enum ResourceId {
    /// The wall-clock state, written by the RTC interrupt job.
    Clock,
    /// The display contents and menu selection.
    Display,
    /// The serial port.
    Serial,
}

/// Which resource the running job currently holds, if any.
pub struct LockManager {
    /// The resource inside the current critical section; `None` between
    /// critical sections.
    pub held: Option<ResourceId>,
}

impl LockManager {
    /// Startup state: nothing held.
    pub fn new() -> (m: LockManager)
        ensures m.held is None,
    {
        LockManager { held: None }
    }

    /// Enter a critical section on `r`.  Only one resource may be held at a
    /// time, so a job must be outside every critical section to acquire —
    /// this is what rules out nested or overlapping access.
    pub fn acquire(&mut self, r: ResourceId)
        requires
            old(self).held is None,
        ensures
            final(self).held == Some(r),
    {
        self.held = Some(r);
    }

    /// Leave the critical section on `r`, which must be the one held.
    pub fn release(&mut self, r: ResourceId)
        requires
            old(self).held == Some(r),
        ensures
            final(self).held is None,
    {
        self.held = None;
    }
}

} // verus!
