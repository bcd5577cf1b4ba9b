//! The coordination core assembled: shared state, job bodies and dispatcher.
//!
//! One hardware thread runs everything.  The RTC compare interrupt may
//! preempt any periodic job; periodic jobs never preempt each other — the
//! dispatcher runs at most one job body per call, so bodies only interleave,
//! never overlap.  Each body works on plain values: the host environment
//! samples the sensors and pins, hands the values in, and performs the
//! returned effects (draws, serial writes, PWM duty, buzzer cycles) on the
//! peripherals.

use vstd::prelude::*;
use crate::clock::ClockState;
use crate::clock::hours_of;
use crate::clock::minutes_of;
use crate::clock::secs_of;
use crate::clock::COMPARE_INCREMENT;
use crate::clock::SECONDS_PER_DAY;
use crate::clock::BOOT_SECONDS;
use crate::clock::FIRST_COMPARE;
use crate::debounce::EdgeDetector;
use crate::display::Display;
use crate::display::Frame;
use crate::display::menu_frame;
use crate::led::Led;
use crate::led::brightened;
use crate::led::dimmed;
use crate::led::MAX_DUTY;
use crate::lock::LockManager;
use crate::lock::ResourceId;
use crate::menu::MenuState;
use crate::sched::Entry;
use crate::sched::JobKind;
use crate::sched::Scheduler;
use crate::sched::SchedulerError;
use crate::sched::spec_period_ms;
use crate::sched::period_ms;
use crate::sched::QUEUE_CAPACITY;

verus! {

/// On/off cycles the buzzer job drives per beep.
pub const BEEP_CYCLES: u32 = 2;

/// Raw button levels sampled by the host at one poll tick (active-low:
/// high means not pressed).
#[derive(Clone, Copy, PartialEq, Eq, Structural, Debug)]
pub struct ButtonSamples {
    /// Menu-toggle button line level.
    pub toggle_high: bool,
    /// Brighten button line level.
    pub brighten_high: bool,
    /// Dim button line level.
    pub dim_high: bool,
}

/// Environment values the host hands to the dispatcher for one call: the
/// jobs that happen to run consume what they need.
pub struct PollInputs {
    /// Latest temperature reading, in tenths of a degree Celsius.
    pub deci_celsius: i32,
    /// Bytes drained from the serial port since the last poll.
    pub serial_in: Vec<u8>,
    /// Raw button levels.
    pub buttons: ButtonSamples,
}

/// Observable effects of one job invocation, for the host to perform.
#[derive(PartialEq, Eq, Debug)]
pub struct JobEffects {
    /// A frame to draw, when the job rendered.
    pub render: Option<Frame>,
    /// Bytes to transmit on the serial port.
    pub serial_out: Vec<u8>,
    /// Buzzer on/off cycles to drive; zero when silent.
    pub beep_cycles: u32,
    /// A PWM duty to program, when the LED brightness changed.
    pub led_duty: Option<u16>,
}

/// The whole coordination state of the appliance.
pub struct AlarmClock {
    /// Wall-clock state, owned by the RTC interrupt job.
    pub clock: ClockState,
    /// Display resource: menu selection and last frame.
    pub display: Display,
    /// LED brightness state.
    pub led: Led,
    /// Edge detector for the menu-toggle button.
    pub toggle_button: EdgeDetector,
    /// Edge detector for the brighten button.
    pub brighten_button: EdgeDetector,
    /// Edge detector for the dim button.
    pub dim_button: EdgeDetector,
    /// The deadline queue of pending periodic invocations.
    pub scheduler: Scheduler,
    /// The mutual-exclusion state for the shared resources.
    pub locks: LockManager,
}

/// The clock frame for a given seconds-since-midnight count.
pub open spec fn time_frame(seconds: int) -> Frame {
    Frame::Time {
        hours: hours_of(seconds) as u32,
        minutes: minutes_of(seconds) as u32,
        seconds: secs_of(seconds) as u32,
    }
}

/// The deadline queue right after boot: the four periodic jobs, each armed
/// at its own period.
pub open spec fn boot_queue() -> Seq<Entry> {
    seq![
        Entry { kind: JobKind::ReadTemperature, due: 1000 },
        Entry { kind: JobKind::PollSerial, due: 10 },
        Entry { kind: JobKind::ButtonPoll, due: 50 },
        Entry { kind: JobKind::BeepTask, due: 5000 },
    ]
}

/// The three button detectors are unchanged between `pre` and `post`.
pub open spec fn same_buttons(pre: AlarmClock, post: AlarmClock) -> bool {
    &&& post.toggle_button == pre.toggle_button
    &&& post.brighten_button == pre.brighten_button
    &&& post.dim_button == pre.dim_button
}

/// Nothing observable changed between `pre` and `post`.
pub open spec fn unchanged(pre: AlarmClock, post: AlarmClock) -> bool {
    &&& post.clock == pre.clock
    &&& post.display == pre.display
    &&& post.led == pre.led
    &&& same_buttons(pre, post)
    &&& post.scheduler.queue@ == pre.scheduler.queue@
}

/// What one temperature-job invocation does, apart from its re-arm: the
/// reading is rendered if and only if the temperature face is active; on any
/// other face the display is left exactly as it was.
pub open spec fn temp_body_rel(pre: AlarmClock, post: AlarmClock, deci: i32, fx: JobEffects) -> bool {
    &&& post.clock == pre.clock
    &&& post.led == pre.led
    &&& same_buttons(pre, post)
    &&& post.display.menu_state == pre.display.menu_state
    &&& (pre.display.menu_state is Temperature ==> post.display.last_frame == Some(
        (Frame::Temperature { deci_celsius: deci }),
    ) && fx.render == Some((Frame::Temperature { deci_celsius: deci })))
    &&& (!(pre.display.menu_state is Temperature) ==> post.display.last_frame
        == pre.display.last_frame && fx.render is None)
    &&& fx.serial_out@.len() == 0
    &&& fx.beep_cycles == 0
    &&& fx.led_duty is None
}

/// What one serial-poll invocation does, apart from its re-arm: every
/// inbound byte is echoed back, in order; nothing else changes.
pub open spec fn serial_body_rel(pre: AlarmClock, post: AlarmClock, inbound: Seq<u8>, fx: JobEffects) -> bool {
    &&& post.clock == pre.clock
    &&& post.display == pre.display
    &&& post.led == pre.led
    &&& same_buttons(pre, post)
    &&& fx.serial_out@ == inbound
    &&& fx.render is None
    &&& fx.beep_cycles == 0
    &&& fx.led_duty is None
}

/// What one button-poll invocation does, apart from its re-arm: the three
/// detectors each take their sample; a toggle press advances the menu one
/// step and renders the new face; brighten and dim presses step the LED duty
/// with clamping, and the final duty is handed out to be programmed.
pub open spec fn button_body_rel(pre: AlarmClock, post: AlarmClock, samples: ButtonSamples, fx: JobEffects) -> bool {
    let toggle_press = pre.toggle_button.prev_high && !samples.toggle_high;
    let brighten_press = pre.brighten_button.prev_high && !samples.brighten_high;
    let dim_press = pre.dim_button.prev_high && !samples.dim_high;
    let duty_once = if brighten_press {
        brightened(pre.led.duty as int)
    } else {
        pre.led.duty as int
    };
    let duty_then = if dim_press {
        dimmed(duty_once)
    } else {
        duty_once
    };
    &&& post.clock == pre.clock
    &&& post.toggle_button.prev_high == samples.toggle_high
    &&& post.brighten_button.prev_high == samples.brighten_high
    &&& post.dim_button.prev_high == samples.dim_high
    &&& (toggle_press ==> post.display.menu_state == pre.display.menu_state.spec_next()
        && post.display.last_frame == Some(menu_frame(post.display.menu_state)))
    &&& (!toggle_press ==> post.display == pre.display)
    &&& post.led.duty == duty_then
    &&& fx.render == (if toggle_press {
        Some(menu_frame(post.display.menu_state))
    } else {
        None::<Frame>
    })
    &&& fx.led_duty == (if brighten_press || dim_press {
        Some(duty_then as u16)
    } else {
        None::<u16>
    })
    &&& fx.serial_out@.len() == 0
    &&& fx.beep_cycles == 0
}

/// What one buzzer invocation does, apart from its re-arm: it asks the host
/// for the fixed number of on/off cycles and touches nothing shared.
pub open spec fn beep_body_rel(pre: AlarmClock, post: AlarmClock, fx: JobEffects) -> bool {
    &&& post.clock == pre.clock
    &&& post.display == pre.display
    &&& post.led == pre.led
    &&& same_buttons(pre, post)
    &&& fx.beep_cycles == BEEP_CYCLES
    &&& fx.render is None
    &&& fx.led_duty is None
    &&& fx.serial_out@.len() == 0
}

impl AlarmClock {
    /// Every component is in its valid state and no critical section is
    /// open.
    pub open spec fn wf(self) -> bool {
        &&& self.clock.wf()
        &&& self.led.wf()
        &&& self.scheduler.wf()
        &&& self.locks.held is None
    }

    /// Boot the appliance: the clock face is selected, the wall clock starts
    /// at 23:59:40, the LED at half brightness, the buttons assumed not
    /// pressed, and the four periodic jobs armed at their periods.
    pub fn boot() -> (sys: AlarmClock)
        ensures
            sys.wf(),
            sys.clock.seconds == BOOT_SECONDS,
            sys.clock.next_compare == FIRST_COMPARE,
            sys.display.menu_state == MenuState::Clock,
            sys.display.last_frame is None,
            sys.led.duty == MAX_DUTY / 2,
            sys.toggle_button.prev_high,
            sys.brighten_button.prev_high,
            sys.dim_button.prev_high,
            sys.scheduler.queue@ == boot_queue(),
    {
        let mut scheduler = Scheduler::new();
        let _ = scheduler.spawn_after(JobKind::ReadTemperature, 0, period_ms(JobKind::ReadTemperature));
        let _ = scheduler.spawn_after(JobKind::PollSerial, 0, period_ms(JobKind::PollSerial));
        let _ = scheduler.spawn_after(JobKind::ButtonPoll, 0, period_ms(JobKind::ButtonPoll));
        let _ = scheduler.spawn_after(JobKind::BeepTask, 0, period_ms(JobKind::BeepTask));
        proof {
            assert(scheduler.queue@ =~= boot_queue());
        }
        AlarmClock {
            clock: ClockState::new(),
            display: Display::new(),
            led: Led::new(),
            toggle_button: EdgeDetector::new(),
            brighten_button: EdgeDetector::new(),
            dim_button: EdgeDetector::new(),
            scheduler,
            locks: LockManager::new(),
        }
    }

    /// The RTC compare-match interrupt job, highest priority.  Under the
    /// clock lock it advances the wall clock and computes the next compare
    /// deadline — the caller must write the returned value into the hardware
    /// compare register, after clearing the pending flag, so the next
    /// interrupt fires.  Under the display lock it then renders the fresh
    /// time, but only while the menu is on the clock face: any other face is
    /// the user's current view and is not overridden.
    pub fn rtc_interrupt(&mut self) -> (compare: u32)
        requires
            old(self).wf(),
            old(self).clock.next_compare + COMPARE_INCREMENT <= u32::MAX,
        ensures
            final(self).wf(),
            final(self).clock.seconds == (old(self).clock.seconds + 1) % (
            SECONDS_PER_DAY as int),
            final(self).clock.next_compare == old(self).clock.next_compare
                + COMPARE_INCREMENT,
            compare == final(self).clock.next_compare,
            final(self).display.menu_state == old(self).display.menu_state,
            (old(self).display.menu_state is Clock ==> final(self).display.last_frame
                == Some(time_frame(final(self).clock.seconds as int))),
            (!(old(self).display.menu_state is Clock) ==> final(self).display.last_frame
                == old(self).display.last_frame),
            final(self).led == old(self).led,
            same_buttons(*old(self), *final(self)),
            final(self).scheduler.queue@ == old(self).scheduler.queue@,
    {
        self.locks.acquire(ResourceId::Clock);
        let compare = self.clock.tick();
        self.locks.release(ResourceId::Clock);

        self.locks.acquire(ResourceId::Clock);
        let (hours, minutes, seconds) = self.clock.get_time();
        self.locks.release(ResourceId::Clock);

        self.locks.acquire(ResourceId::Display);
        match self.display.get_menu_state() {
            MenuState::Clock => {
                let _ = self.display.show_time(hours, minutes, seconds);
            },
            _ => {},
        }
        self.locks.release(ResourceId::Display);
        compare
    }

    /// The temperature job body: the host has sampled and converted the
    /// reading; under the display lock it is rendered if and only if the
    /// temperature face is active.  The job then re-arms itself one period
    /// from now; a full queue is reported as fatal saturation.
    pub fn read_temperature_job(&mut self, now: u64, deci_celsius: i32) -> (r: (
        JobEffects,
        Result<(), SchedulerError>,
    ))
        requires
            old(self).wf(),
            now + spec_period_ms(JobKind::ReadTemperature) <= u64::MAX,
        ensures
            final(self).wf(),
            temp_body_rel(*old(self), *final(self), deci_celsius, r.0),
            (r.1 is Ok) <==> old(self).scheduler.queue@.len() < QUEUE_CAPACITY,
            (r.1 is Ok) ==> final(self).scheduler.queue@ == old(self).scheduler.queue@.push(
                Entry {
                    kind: JobKind::ReadTemperature,
                    due: (now + spec_period_ms(JobKind::ReadTemperature)) as u64,
                },
            ),
            (r.1 is Err) ==> r.1 == Err::<(), SchedulerError>(SchedulerError::Saturated)
                && final(self).scheduler.queue@ == old(self).scheduler.queue@,
    {
        self.locks.acquire(ResourceId::Display);
        let mut render: Option<Frame> = None;
        match self.display.get_menu_state() {
            MenuState::Temperature => {
                let frame = self.display.show_temperature(deci_celsius);
                render = Some(frame);
            },
            _ => {},
        }
        self.locks.release(ResourceId::Display);
        let rearm = self.scheduler.spawn_after(
            JobKind::ReadTemperature,
            now,
            period_ms(JobKind::ReadTemperature),
        );
        (JobEffects { render, serial_out: Vec::new(), beep_cycles: 0, led_duty: None }, rearm)
    }

    /// The serial job body: under the serial lock, echo every inbound byte
    /// in order; the host transmits the returned bytes.  Re-arms one period
    /// from now.
    pub fn poll_serial_job(&mut self, now: u64, inbound: &Vec<u8>) -> (r: (
        JobEffects,
        Result<(), SchedulerError>,
    ))
        requires
            old(self).wf(),
            now + spec_period_ms(JobKind::PollSerial) <= u64::MAX,
        ensures
            final(self).wf(),
            serial_body_rel(*old(self), *final(self), inbound@, r.0),
            (r.1 is Ok) <==> old(self).scheduler.queue@.len() < QUEUE_CAPACITY,
            (r.1 is Ok) ==> final(self).scheduler.queue@ == old(self).scheduler.queue@.push(
                Entry {
                    kind: JobKind::PollSerial,
                    due: (now + spec_period_ms(JobKind::PollSerial)) as u64,
                },
            ),
            (r.1 is Err) ==> r.1 == Err::<(), SchedulerError>(SchedulerError::Saturated)
                && final(self).scheduler.queue@ == old(self).scheduler.queue@,
    {
        self.locks.acquire(ResourceId::Serial);
        let mut echoed: Vec<u8> = Vec::new();
        let mut k: usize = 0;
        while k < inbound.len()
            invariant
                k <= inbound@.len(),
                echoed@ == inbound@.take(k as int),
            decreases inbound@.len() - k,
        {
            echoed.push(inbound[k]);
            proof {
                assert(echoed@ =~= inbound@.take(k + 1));
            }
            k = k + 1;
        }
        proof {
            assert(echoed@ =~= inbound@);
        }
        self.locks.release(ResourceId::Serial);
        let rearm = self.scheduler.spawn_after(
            JobKind::PollSerial,
            now,
            period_ms(JobKind::PollSerial),
        );
        (JobEffects { render: None, serial_out: echoed, beep_cycles: 0, led_duty: None }, rearm)
    }

    /// The button job body: feed the three raw levels through their edge
    /// detectors; a toggle press advances the menu under the display lock
    /// and renders the new face; brighten and dim presses step the LED duty
    /// with clamping and hand the duty out to be programmed.  Re-arms one
    /// period from now.
    pub fn button_poll_job(&mut self, now: u64, samples: ButtonSamples) -> (r: (
        JobEffects,
        Result<(), SchedulerError>,
    ))
        requires
            old(self).wf(),
            now + spec_period_ms(JobKind::ButtonPoll) <= u64::MAX,
        ensures
            final(self).wf(),
            button_body_rel(*old(self), *final(self), samples, r.0),
            (r.1 is Ok) <==> old(self).scheduler.queue@.len() < QUEUE_CAPACITY,
            (r.1 is Ok) ==> final(self).scheduler.queue@ == old(self).scheduler.queue@.push(
                Entry {
                    kind: JobKind::ButtonPoll,
                    due: (now + spec_period_ms(JobKind::ButtonPoll)) as u64,
                },
            ),
            (r.1 is Err) ==> r.1 == Err::<(), SchedulerError>(SchedulerError::Saturated)
                && final(self).scheduler.queue@ == old(self).scheduler.queue@,
    {
        let toggle_press = self.toggle_button.step(samples.toggle_high);
        let brighten_press = self.brighten_button.step(samples.brighten_high);
        let dim_press = self.dim_button.step(samples.dim_high);

        let mut render: Option<Frame> = None;
        if toggle_press {
            self.locks.acquire(ResourceId::Display);
            self.display.next_menu();
            let frame = self.display.update_menu();
            self.locks.release(ResourceId::Display);
            render = Some(frame);
        }
        let mut led_duty: Option<u16> = None;
        if brighten_press {
            led_duty = Some(self.led.brighten());
        }
        if dim_press {
            led_duty = Some(self.led.dim());
        }
        let rearm = self.scheduler.spawn_after(
            JobKind::ButtonPoll,
            now,
            period_ms(JobKind::ButtonPoll),
        );
        (JobEffects { render, serial_out: Vec::new(), beep_cycles: 0, led_duty }, rearm)
    }

    /// The buzzer job body: ask the host to drive the fixed number of on/off
    /// cycles; nothing shared is touched.  Re-arms one period from now.
    pub fn beep_task_job(&mut self, now: u64) -> (r: (
        JobEffects,
        Result<(), SchedulerError>,
    ))
        requires
            old(self).wf(),
            now + spec_period_ms(JobKind::BeepTask) <= u64::MAX,
        ensures
            final(self).wf(),
            beep_body_rel(*old(self), *final(self), r.0),
            (r.1 is Ok) <==> old(self).scheduler.queue@.len() < QUEUE_CAPACITY,
            (r.1 is Ok) ==> final(self).scheduler.queue@ == old(self).scheduler.queue@.push(
                Entry {
                    kind: JobKind::BeepTask,
                    due: (now + spec_period_ms(JobKind::BeepTask)) as u64,
                },
            ),
            (r.1 is Err) ==> r.1 == Err::<(), SchedulerError>(SchedulerError::Saturated)
                && final(self).scheduler.queue@ == old(self).scheduler.queue@,
    {
        let rearm = self.scheduler.spawn_after(
            JobKind::BeepTask,
            now,
            period_ms(JobKind::BeepTask),
        );
        (
            JobEffects {
                render: None,
                serial_out: Vec::new(),
                beep_cycles: BEEP_CYCLES,
                led_duty: None,
            },
            rearm,
        )
    }

    /// The dispatcher: run the earliest-due periodic job, if one is due at
    /// `now`, and let it re-arm itself.  At most one job body runs per call.
    /// Because running a job frees its queue slot before the re-arm takes a
    /// new one, the closed system never saturates the schedule: the result
    /// is always `Ok`.  `Ok(None)` means nothing was due and nothing
    /// changed; `Ok(Some((kind, fx)))` names the job that ran and the
    /// effects the host must perform.
    pub fn run_due(&mut self, now: u64, inputs: &PollInputs) -> (r: Result<
        Option<(JobKind, JobEffects)>,
        SchedulerError,
    >)
        requires
            old(self).wf(),
            now + spec_period_ms(JobKind::BeepTask) <= u64::MAX,
        ensures
            final(self).wf(),
            r is Ok,
            (r matches Ok(inner) ==> {
                &&& (inner is None ==> unchanged(*old(self), *final(self)) && (forall|j: int|
                    0 <= j < old(self).scheduler.queue@.len() ==> old(
                        self,
                    ).scheduler.queue@[j].due > now))
                &&& (inner matches Some(run) ==> (exists|i: int|
                    0 <= i < old(self).scheduler.queue@.len() && old(
                        self,
                    ).scheduler.queue@[i].kind == run.0 && old(self).scheduler.queue@[i].due
                        <= now && (forall|j: int|
                        0 <= j < old(self).scheduler.queue@.len() ==> old(
                            self,
                        ).scheduler.queue@[j].due >= old(self).scheduler.queue@[i].due)
                        && final(self).scheduler.queue@ == old(self).scheduler.queue@.remove(
                        i,
                    ).push((Entry { kind: run.0, due: (now + spec_period_ms(run.0)) as u64 })))
                    && (match run.0 {
                        JobKind::ReadTemperature => temp_body_rel(
                            *old(self),
                            *final(self),
                            inputs.deci_celsius,
                            run.1,
                        ),
                        JobKind::PollSerial => serial_body_rel(
                            *old(self),
                            *final(self),
                            inputs.serial_in@,
                            run.1,
                        ),
                        JobKind::ButtonPoll => button_body_rel(
                            *old(self),
                            *final(self),
                            inputs.buttons,
                            run.1,
                        ),
                        JobKind::BeepTask => beep_body_rel(*old(self), *final(self), run.1),
                    }))
            }),
    {
        let popped = self.scheduler.pop_due(now);
        match popped {
            None => Ok(None),
            Some(entry) => {
                let (fx, rearm) = match entry.kind {
                    JobKind::ReadTemperature => self.read_temperature_job(
                        now,
                        inputs.deci_celsius,
                    ),
                    JobKind::PollSerial => self.poll_serial_job(now, &inputs.serial_in),
                    JobKind::ButtonPoll => self.button_poll_job(now, inputs.buttons),
                    JobKind::BeepTask => self.beep_task_job(now),
                };
                match rearm {
                    Ok(()) => Ok(Some((entry.kind, fx))),
                    Err(e) => Err(e),
                }
            },
        }
    }
}

} // verus!
