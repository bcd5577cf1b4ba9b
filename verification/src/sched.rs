//! Deadline-queue scheduler for the self-rescheduling periodic jobs.
//!
//! Four periodic jobs run besides the RTC interrupt job: temperature
//! sampling, serial polling, button polling and the buzzer beep.  Each job,
//! when it finishes, asks to run again after its fixed period relative to
//! "now", so jitter does not accumulate beyond one invocation's overrun.  The
//! queue has a fixed capacity; failure to re-arm is fatal for the whole
//! system, since an orphaned periodic duty cannot be recovered.

use vstd::prelude::*;

verus! {

/// The periodic jobs the dispatcher runs.
#[derive(Clone, Copy, PartialEq, Eq, Structural, Debug)]
pub enum JobKind {
    /// Sample the thermistor and render the temperature face.
    ReadTemperature,
    /// Drain and echo inbound serial bytes.
    PollSerial,
    /// Sample the three buttons and act on detected presses.
    ButtonPoll,
    /// Drive the buzzer for a fixed number of cycles.
    BeepTask,
}

/// Period of each job in milliseconds.
pub open spec fn spec_period_ms(kind: JobKind) -> u64 {
    match kind {
        JobKind::ReadTemperature => 1000,
        JobKind::PollSerial => 10,
        JobKind::ButtonPoll => 50,
        JobKind::BeepTask => 5000,
    }
}

/// Period of each job in milliseconds.
pub fn period_ms(kind: JobKind) -> (p: u64)
    ensures p == spec_period_ms(kind),
{
    match kind {
        JobKind::ReadTemperature => 1000,
        JobKind::PollSerial => 10,
        JobKind::ButtonPoll => 50,
        JobKind::BeepTask => 5000,
    }
}

/// One pending invocation: which job, and when it is due.
#[derive(Clone, Copy, PartialEq, Eq, Structural, Debug)]
pub struct Entry {
    /// The job to run.
    pub kind: JobKind,
    /// Due time in milliseconds since boot.
    pub due: u64,
}

/// Scheduling errors; saturation of the deadline queue is unrecoverable.
#[derive(Clone, Copy, PartialEq, Eq, Structural, Debug)]
pub enum SchedulerError {
    /// The deadline queue is full; a periodic duty would be orphaned.
    Saturated,
}

/// Most pending invocations the deadline queue can hold.
pub const QUEUE_CAPACITY: usize = 8;

/// The scheduler: a fixed-capacity queue of pending invocations.
pub struct Scheduler {
    /// The pending invocations, in no particular order.
    pub queue: Vec<Entry>,
}

impl Scheduler {
    /// The queue never exceeds its fixed capacity.
    pub open spec fn wf(self) -> bool {
        self.queue@.len() <= QUEUE_CAPACITY
    }

    /// An empty schedule.
    pub fn new() -> (s: Scheduler)
        ensures
            s.wf(),
            s.queue@.len() == 0,
    {
        Scheduler { queue: Vec::new() }
    }

    /// Ask for `kind` to run `delay` milliseconds after `now`.  Succeeds
    /// exactly when the queue has room, appending the new invocation; a full
    /// queue reports saturation and leaves the schedule unchanged.
    pub fn spawn_after(&mut self, kind: JobKind, now: u64, delay: u64) -> (r: Result<
        (),
        SchedulerError,
    >)
        requires
            old(self).wf(),
            now + delay <= u64::MAX,
        ensures
            final(self).wf(),
            (r is Ok) <==> old(self).queue@.len() < QUEUE_CAPACITY,
            (r is Ok) ==> (final(self).queue@ == old(self).queue@.push(
                Entry { kind, due: (now + delay) as u64 },
            )),
            (r is Err) ==> final(self).queue@ == old(self).queue@ && r == Err::<
                (),
                SchedulerError,
            >(SchedulerError::Saturated),
    {
        if self.queue.len() < QUEUE_CAPACITY {
            self.queue.push(Entry { kind, due: now + delay });
            Ok(())
        } else {
            Err(SchedulerError::Saturated)
        }
    }

    /// Take the pending invocation with the earliest due time, provided it is
    /// due at `now`.  Returns nothing exactly when no invocation is due; the
    /// schedule then stays unchanged.  When one is returned, it was pending,
    /// no pending invocation was due earlier, and it alone leaves the queue.
    pub fn pop_due(&mut self, now: u64) -> (r: Option<Entry>)
        requires
            old(self).wf(),
        ensures
            final(self).wf(),
            ((r is None) ==> final(self).queue@ == old(self).queue@ && (forall|j: int|
                0 <= j < old(self).queue@.len() ==> old(self).queue@[j].due > now)),
            (r matches Some(e) ==> e.due <= now && (forall|j: int|
                0 <= j < old(self).queue@.len() ==> old(self).queue@[j].due >= e.due)
                && (exists|i: int|
                0 <= i < old(self).queue@.len() && old(self).queue@[i] == e
                    && final(self).queue@ == old(self).queue@.remove(i))),
    {
        if self.queue.len() == 0 {
            return None;
        }
        let mut best: usize = 0;
        let mut k: usize = 1;
        while k < self.queue.len()
            invariant
                self.queue@ == old(self).queue@,
                0 < k <= self.queue@.len(),
                best < k,
                forall|j: int|
                    0 <= j < k ==> self.queue@[j].due >= self.queue@[best as int].due,
            decreases self.queue@.len() - k,
        {
            if self.queue[k].due < self.queue[best].due {
                best = k;
            }
            k = k + 1;
        }
        if self.queue[best].due <= now {
            let e = self.queue.remove(best);
            Some(e)
        } else {
            None
        }
    }
}

} // verus!
