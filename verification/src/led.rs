//! Status LED brightness control.
//!
//! Brightness is a PWM duty value in `[0, MAX_DUTY]`, adjusted in fixed steps
//! of a tenth of the range per brighten or dim press and clamped at both
//! bounds.  The caller programs the returned duty into the PWM peripheral.

use vstd::prelude::*;

verus! {

/// Largest duty value the PWM channel is configured with.
pub const MAX_DUTY: u16 = 1000;

/// Duty change per brighten or dim press: a tenth of the range.
pub const DUTY_STEP: u16 = 100;

/// The duty after one brighten press, clamped at `MAX_DUTY`.
pub open spec fn brightened(duty: int) -> int {
    if duty + DUTY_STEP <= MAX_DUTY {
        duty + DUTY_STEP
    } else {
        MAX_DUTY as int
    }
}

/// The duty after one dim press, clamped at zero.
pub open spec fn dimmed(duty: int) -> int {
    if duty >= DUTY_STEP {
        duty - DUTY_STEP
    } else {
        0
    }
}

/// One brightness adjustment request.
#[derive(Clone, Copy, PartialEq, Eq, Structural, Debug)]
pub enum DutyPress {
    Brighten,
    Dim,
}

/// The duty after a sequence of brighten/dim presses.
pub open spec fn duty_after(duty: int, presses: Seq<DutyPress>) -> int
    decreases presses.len(),
{
    if presses.len() == 0 {
        duty
    } else {
        let rest = duty_after(duty, presses.drop_last());
        match presses.last() {
            DutyPress::Brighten => brightened(rest),
            DutyPress::Dim => dimmed(rest),
        }
    }
}

/// LED brightness state.
pub struct Led {
    /// Current PWM duty, always in `[0, MAX_DUTY]`.
    pub duty: u16,
}

impl Led {
    /// The duty never leaves its range.
    pub open spec fn wf(self) -> bool {
        self.duty <= MAX_DUTY
    }

    /// Startup brightness: half the range.
    pub fn new() -> (led: Led)
        ensures
            led.wf(),
            led.duty == MAX_DUTY / 2,
    {
        Led { duty: MAX_DUTY / 2 }
    }

    /// One brighten press: one step up, clamped at `MAX_DUTY`.  Returns the
    /// duty for the caller to program into the PWM channel.
    pub fn brighten(&mut self) -> (duty: u16)
        requires
            old(self).wf(),
        ensures
            final(self).wf(),
            final(self).duty == brightened(old(self).duty as int),
            duty == final(self).duty,
    {
        if self.duty + DUTY_STEP <= MAX_DUTY {
            self.duty = self.duty + DUTY_STEP;
        } else {
            self.duty = MAX_DUTY;
        }
        self.duty
    }

    /// Toggle the LED between off and half brightness.  Returns the duty
    /// for the caller to program into the PWM channel.
    pub fn toggle(&mut self) -> (duty: u16)
        requires
            old(self).wf(),
        ensures
            final(self).wf(),
            final(self).duty == (if old(self).duty > 0 {
                0int
            } else {
                MAX_DUTY as int / 2
            }),
            duty == final(self).duty,
    {
        if self.duty > 0 {
            self.duty = 0;
        } else {
            self.duty = MAX_DUTY / 2;
        }
        self.duty
    }

    /// One dim press: one step down, clamped at zero.  Returns the duty for
    /// the caller to program into the PWM channel.
    pub fn dim(&mut self) -> (duty: u16)
        requires
            old(self).wf(),
        ensures
            final(self).wf(),
            final(self).duty == dimmed(old(self).duty as int),
            duty == final(self).duty,
    {
        if self.duty >= DUTY_STEP {
            self.duty = self.duty - DUTY_STEP;
        } else {
            self.duty = 0;
        }
        self.duty
    }
}

/// Law: after any sequence of brighten and dim presses the duty stays inside
/// `[0, MAX_DUTY]`, and clamping is idempotent at the bounds — a brighten at
/// `MAX_DUTY` leaves it there, a dim at zero leaves it at zero.
pub proof fn lemma_duty_clamped(duty: int, presses: Seq<DutyPress>)
    requires
        0 <= duty <= MAX_DUTY,
    ensures
        0 <= duty_after(duty, presses) <= MAX_DUTY,
        brightened(MAX_DUTY as int) == MAX_DUTY,
        dimmed(0) == 0,
        decreases presses.len(),
{
    if presses.len() > 0 {
        lemma_duty_clamped(duty, presses.drop_last());
    }
}

} // verus!
