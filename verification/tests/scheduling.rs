use alarm_clock::display::Frame;
use alarm_clock::menu::MenuState;
use alarm_clock::sched::Entry;
use alarm_clock::sched::JobKind;
use alarm_clock::sched::Scheduler;
use alarm_clock::sched::SchedulerError;
use alarm_clock::sched::QUEUE_CAPACITY;
use alarm_clock::system::AlarmClock;
use alarm_clock::system::ButtonSamples;
use alarm_clock::system::PollInputs;
use alarm_clock::system::BEEP_CYCLES;

fn quiet_inputs() -> PollInputs {
    PollInputs {
        deci_celsius: 215,
        serial_in: Vec::new(),
        buttons: ButtonSamples { toggle_high: true, brighten_high: true, dim_high: true },
    }
}

#[test]
fn boot_arms_the_four_periodic_jobs() {
    let sys = AlarmClock::boot();
    assert_eq!(
        sys.scheduler.queue,
        vec![
            Entry { kind: JobKind::ReadTemperature, due: 1000 },
            Entry { kind: JobKind::PollSerial, due: 10 },
            Entry { kind: JobKind::ButtonPoll, due: 50 },
            Entry { kind: JobKind::BeepTask, due: 5000 },
        ]
    );
}

#[test]
fn spawn_fails_exactly_when_queue_is_full() {
    let mut s = Scheduler::new();
    for k in 0..QUEUE_CAPACITY {
        assert_eq!(s.spawn_after(JobKind::PollSerial, k as u64, 10), Ok(()));
    }
    assert_eq!(
        s.spawn_after(JobKind::PollSerial, 99, 10),
        Err(SchedulerError::Saturated)
    );
    assert_eq!(s.queue.len(), QUEUE_CAPACITY);
}

#[test]
fn pop_due_takes_the_earliest_due_entry() {
    let mut s = Scheduler::new();
    s.spawn_after(JobKind::ReadTemperature, 0, 1000).unwrap();
    s.spawn_after(JobKind::PollSerial, 0, 10).unwrap();
    s.spawn_after(JobKind::ButtonPoll, 0, 50).unwrap();
    assert_eq!(s.pop_due(5), None); // nothing due yet
    assert_eq!(
        s.pop_due(60),
        Some(Entry { kind: JobKind::PollSerial, due: 10 })
    );
    assert_eq!(
        s.pop_due(60),
        Some(Entry { kind: JobKind::ButtonPoll, due: 50 })
    );
    assert_eq!(s.pop_due(60), None); // temperature not due until 1000
    assert_eq!(s.pop_due(1000), Some(Entry { kind: JobKind::ReadTemperature, due: 1000 }));
    assert_eq!(s.pop_due(1000), None); // queue drained
}

#[test]
fn dispatcher_runs_jobs_in_due_order_and_rearms() {
    let mut sys = AlarmClock::boot();
    let inputs = quiet_inputs();
    assert_eq!(sys.run_due(5, &inputs), Ok(None));
    let first = sys.run_due(60, &inputs).unwrap().unwrap();
    assert_eq!(first.0, JobKind::PollSerial);
    let second = sys.run_due(60, &inputs).unwrap().unwrap();
    assert_eq!(second.0, JobKind::ButtonPoll);
    // both re-armed relative to now, so the queue keeps its four entries
    assert_eq!(sys.scheduler.queue.len(), 4);
    assert!(sys.scheduler.queue.contains(&Entry { kind: JobKind::PollSerial, due: 70 }));
    assert!(sys.scheduler.queue.contains(&Entry { kind: JobKind::ButtonPoll, due: 110 }));
}

#[test]
fn serial_job_echoes_inbound_bytes() {
    let mut sys = AlarmClock::boot();
    let inbound = vec![b'h', b'i', b'!'];
    let (fx, rearm) = sys.poll_serial_job(10, &inbound);
    assert_eq!(fx.serial_out, inbound);
    assert_eq!(fx.render, None);
    assert_eq!(rearm, Ok(()));
}

#[test]
fn beep_job_asks_for_the_fixed_cycle_count() {
    let mut sys = AlarmClock::boot();
    let (fx, rearm) = sys.beep_task_job(5000);
    assert_eq!(fx.beep_cycles, BEEP_CYCLES);
    assert_eq!(fx.beep_cycles, 2);
    assert_eq!(fx.render, None);
    assert_eq!(rearm, Ok(()));
}

#[test]
fn temperature_job_renders_only_on_temperature_face() {
    // Clock face: the job samples but must not render.
    let mut sys = AlarmClock::boot();
    let (fx, _) = sys.read_temperature_job(1000, 215);
    assert_eq!(fx.render, None);
    assert_eq!(sys.display.last_frame, None);

    // Temperature face: the reading is rendered.
    let toggle = ButtonSamples { toggle_high: false, brighten_high: true, dim_high: true };
    sys.button_poll_job(1050, toggle);
    assert_eq!(sys.display.menu_state, MenuState::Temperature);
    let (fx2, _) = sys.read_temperature_job(2000, 215);
    assert_eq!(fx2.render, Some(Frame::Temperature { deci_celsius: 215 }));

    // Settings face: the job still takes its reading, no render happens.
    let release = ButtonSamples { toggle_high: true, brighten_high: true, dim_high: true };
    sys.button_poll_job(2050, release);
    sys.button_poll_job(2100, toggle);
    assert_eq!(sys.display.menu_state, MenuState::Settings);
    let frame_before = sys.display.last_frame;
    let (fx3, _) = sys.read_temperature_job(3000, 215);
    assert_eq!(fx3.render, None);
    assert_eq!(sys.display.last_frame, frame_before);
}

#[test]
fn interrupts_interleave_with_jobs_without_torn_reads() {
    // The RTC interrupt may fire between any two job invocations.  However
    // the runs interleave, every time snapshot the jobs could observe is a
    // consistent derivation of a whole seconds count, and the wall clock
    // advances exactly once per interrupt.
    let mut sys = AlarmClock::boot();
    let inputs = quiet_inputs();
    let mut now: u64 = 0;
    let mut interrupts: u32 = 0;
    for step in 0..2000u64 {
        now += 5;
        if step % 3 == 0 {
            sys.rtc_interrupt();
            interrupts += 1;
        }
        sys.run_due(now, &inputs).unwrap();
        let (h, m, s) = sys.clock.get_time();
        assert!(h < 24 && m < 60 && s < 60);
        let whole = sys.clock.seconds;
        assert_eq!((whole / 3600) % 24, h);
        assert_eq!((whole / 60) % 60, m);
        assert_eq!(whole % 60, s);
        assert_eq!(whole, (86380 + interrupts) % 86400);
    }
}
