//! Buzzer square-wave plan.
//!
//! The buzzer is two push-pull pins driven in opposite phase; one audible
//! cycle is the pair high/low followed by low/high, each half held for a
//! fixed busy-wait.  The pin toggling and the waits are the host's work —
//! here is the plan it drives: the exact alternating sequence of pin states
//! for a requested number of cycles.

use vstd::prelude::*;

verus! {

/// One half-cycle of the square wave: the level of each buzzer pin.
#[derive(Clone, Copy, PartialEq, Eq, Structural, Debug)]
pub struct PinDrive {
    /// Level of the first buzzer pin.
    pub buzzer_1_high: bool,
    /// Level of the second buzzer pin.
    pub buzzer_2_high: bool,
}

/// The pin states at position `i` of the plan: the pins alternate and are
/// always in opposite phase.
pub open spec fn drive_at(i: int) -> PinDrive {
    if i % 2 == 0 {
        PinDrive { buzzer_1_high: true, buzzer_2_high: false }
    } else {
        PinDrive { buzzer_1_high: false, buzzer_2_high: true }
    }
}

/// The sequence of pin states for `cycles` audible cycles: two half-cycles
/// per cycle, alternating, the two pins always opposite.
pub fn beep_plan(cycles: u32) -> (plan: Vec<PinDrive>)
    ensures
        plan@.len() == 2 * cycles,
        forall|i: int| 0 <= i < plan@.len() ==> plan@[i] == drive_at(i),
        forall|i: int|
            0 <= i < plan@.len() ==> plan@[i].buzzer_1_high != plan@[i].buzzer_2_high,
{
    let mut plan: Vec<PinDrive> = Vec::new();
    let mut k: u32 = 0;
    while k < cycles
        invariant
            k <= cycles,
            plan@.len() == 2 * k,
            forall|i: int| 0 <= i < plan@.len() ==> plan@[i] == drive_at(i),
        decreases cycles - k,
    {
        plan.push(PinDrive { buzzer_1_high: true, buzzer_2_high: false });
        plan.push(PinDrive { buzzer_1_high: false, buzzer_2_high: true });
        k = k + 1;
    }
    proof {
        assert forall|i: int|
            0 <= i < plan@.len() implies plan@[i].buzzer_1_high != plan@[i].buzzer_2_high by {
            assert(plan@[i] == drive_at(i));
        }
    }
    plan
}

} // verus!
