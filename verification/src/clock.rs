//! Wall-clock timekeeping driven by the RTC compare-match interrupt.
//!
//! The hardware raises one interrupt per second.  Each interrupt advances the
//! seconds-since-midnight accumulator by one, wrapping at the end of the day,
//! and moves the compare deadline forward by a fixed tick count so the next
//! interrupt is scheduled; the caller writes the returned compare value into
//! the hardware register.

use vstd::prelude::*;

verus! {

/// Seconds in one day; the wall clock wraps at this value.
pub const SECONDS_PER_DAY: u32 = 86400;

/// Hardware counter ticks between successive compare-match interrupts.
pub const COMPARE_INCREMENT: u32 = 8;

/// Wall-clock value loaded at boot: 23:59:40.
pub const BOOT_SECONDS: u32 = 86380;

/// Compare value programmed for the first interrupt.
pub const FIRST_COMPARE: u32 = 8;

/// Hours shown for a given seconds-since-midnight count.
pub open spec fn hours_of(seconds: int) -> int {
    (seconds / 3600) % 24
}

/// Minutes shown for a given seconds-since-midnight count.
pub open spec fn minutes_of(seconds: int) -> int {
    (seconds / 60) % 60
}

/// Seconds shown for a given seconds-since-midnight count.
pub open spec fn secs_of(seconds: int) -> int {
    seconds % 60
}

/// The seconds count after `n` interrupts starting from `seconds`.
pub open spec fn seconds_after(seconds: int, n: nat) -> int
    decreases n,
{
    if n == 0 {
        seconds
    } else {
        (seconds_after(seconds, (n - 1) as nat) + 1) % (SECONDS_PER_DAY as int)
    }
}

/// Timekeeping state: the accumulator and the next compare deadline.
pub struct ClockState {
    /// Seconds since midnight, always below `SECONDS_PER_DAY`.
    pub seconds: u32,
    /// The deadline to program into the hardware compare register.
    pub next_compare: u32,
}

impl ClockState {
    /// The accumulator stays inside one day.
    pub open spec fn wf(self) -> bool {
        self.seconds < SECONDS_PER_DAY
    }

    /// Boot state: 23:59:40, first compare already programmed.
    pub fn new() -> (c: ClockState)
        ensures
            c.wf(),
            c.seconds == BOOT_SECONDS,
            c.next_compare == FIRST_COMPARE,
    {
        ClockState { seconds: BOOT_SECONDS, next_compare: FIRST_COMPARE }
    }

    /// One compare-match interrupt: advance the second counter with wraparound
    /// at the end of the day and move the compare deadline forward.  Returns
    /// the compare value the caller must write back to the hardware so the
    /// next interrupt fires.
    pub fn tick(&mut self) -> (compare: u32)
        requires
            old(self).wf(),
            old(self).next_compare + COMPARE_INCREMENT <= u32::MAX,
        ensures
            final(self).wf(),
            final(self).seconds == (old(self).seconds + 1) % (SECONDS_PER_DAY as int),
            final(self).next_compare == old(self).next_compare + COMPARE_INCREMENT,
            compare == final(self).next_compare,
    {
        if self.seconds + 1 == SECONDS_PER_DAY {
            self.seconds = 0;
        } else {
            self.seconds = self.seconds + 1;
        }
        self.next_compare = self.next_compare + COMPARE_INCREMENT;
        self.next_compare
    }

    /// Derived (hours, minutes, seconds) view of the accumulator, each
    /// component within its valid range.
    pub fn get_time(&self) -> (t: (u32, u32, u32))
        ensures
            t.0 == hours_of(self.seconds as int),
            t.1 == minutes_of(self.seconds as int),
            t.2 == secs_of(self.seconds as int),
            t.0 < 24,
            t.1 < 60,
            t.2 < 60,
    {
        let hrs = (self.seconds / 3600) % 24;
        let mins = (self.seconds / 60) % 60;
        let secs = self.seconds % 60;
        (hrs, mins, secs)
    }
}

/// Law: a run of `n` interrupts advances the accumulator by exactly `n`
/// seconds modulo one day — each interrupt adds one second, and the count
/// wraps from 86399 to 0 and never anywhere else.
pub proof fn lemma_seconds_after_modular(seconds: int, n: nat)
    requires
        0 <= seconds < SECONDS_PER_DAY,
    ensures
        seconds_after(seconds, n) == (seconds + n) % (SECONDS_PER_DAY as int),
        decreases n,
{
    let d = SECONDS_PER_DAY as int;
    if n == 0 {
        assert(seconds % d == seconds);
    } else {
        lemma_seconds_after_modular(seconds, (n - 1) as nat);
        vstd::arithmetic::div_mod::lemma_add_mod_noop(seconds + n - 1, 1, d);
        assert(1int % d == 1);
    }
}

} // verus!
