//! Debounced digital input edge detector.
//!
//! A button pin is sampled at a fixed cadence (active-low: high means not
//! pressed).  A press event fires exactly when the previous sample was high
//! and the current one is low — once per release-to-press transition, never on
//! a sustained level.  The debounce is purely level-based and relies on
//! mechanical bounce settling within one poll interval; the poll cadence is a
//! parameter of the surrounding system, not of this detector.

use vstd::prelude::*;

verus! {

/// Per-button detector state: the level seen at the previous poll tick.
pub struct EdgeDetector {
    /// Previous sampled level; `true` means high (not pressed).
    pub prev_high: bool,
}

/// Whether a press fires at position `i` of a sample sequence, given the
/// level the detector held before the first sample.
pub open spec fn press_at(init_high: bool, samples: Seq<bool>, i: int) -> bool
    recommends 0 <= i < samples.len(),
{
    (if i == 0 { init_high } else { samples[i - 1] }) && !samples[i]
}

impl EdgeDetector {
    /// Startup state: the button is assumed not pressed (line high).
    pub fn new() -> (d: EdgeDetector)
        ensures d.prev_high,
    {
        EdgeDetector { prev_high: true }
    }

    /// Feed one raw sample.  Returns `true` exactly on a high-to-low
    /// transition; the sample becomes the new previous level.
    pub fn step(&mut self, raw_high: bool) -> (press: bool)
        ensures
            press == (old(self).prev_high && !raw_high),
            final(self).prev_high == raw_high,
    {
        let press = self.prev_high && !raw_high;
        self.prev_high = raw_high;
        press
    }

    /// Feed a whole sample sequence and report, per position, whether a press
    /// fired there.  Each position fires exactly under `press_at`: once per
    /// high-to-low transition, never on a sustained level.
    pub fn scan(&mut self, samples: &Vec<bool>) -> (events: Vec<bool>)
        ensures
            events@.len() == samples@.len(),
            forall|i: int|
                0 <= i < samples@.len() ==> events@[i] == press_at(
                    old(self).prev_high,
                    samples@,
                    i,
                ),
            final(self).prev_high == if samples@.len() == 0 {
                old(self).prev_high
            } else {
                samples@[samples@.len() - 1]
            },
    {
        let mut events: Vec<bool> = Vec::new();
        let mut k: usize = 0;
        while k < samples.len()
            invariant
                k <= samples@.len(),
                events@.len() == k,
                forall|i: int|
                    0 <= i < k ==> events@[i] == press_at(old(self).prev_high, samples@, i),
                self.prev_high == if k == 0 {
                    old(self).prev_high
                } else {
                    samples@[k - 1]
                },
            decreases samples@.len() - k,
        {
            let press = self.step(samples[k]);
            events.push(press);
            k = k + 1;
        }
        events
    }
}

/// Law: over any raw sample sequence, a press event fires at each position
/// where the level steps from high to low — so exactly once per transition —
/// and never during a sustained high or a sustained low run.
pub proof fn lemma_press_iff_edge(init_high: bool, samples: Seq<bool>, i: int)
    requires
        0 <= i < samples.len(),
    ensures
        (if i == 0 {
            init_high
        } else {
            samples[i - 1]
        }) && !samples[i] ==> press_at(init_high, samples, i),
        samples[i] ==> !press_at(init_high, samples, i),
        i > 0 && !samples[i - 1] ==> !press_at(init_high, samples, i),
{
}

} // verus!
