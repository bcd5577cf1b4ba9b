use alarm_clock::clock::ClockState;
use alarm_clock::display::time_text;
use alarm_clock::display::Frame;
use alarm_clock::menu::MenuState;
use alarm_clock::system::AlarmClock;

#[test]
fn tick_advances_one_second() {
    let mut c = ClockState::new();
    assert_eq!(c.seconds, 86380);
    assert_eq!(c.next_compare, 8);
    let compare = c.tick();
    assert_eq!(c.seconds, 86381);
    assert_eq!(c.next_compare, 16);
    assert_eq!(compare, 16);
}

#[test]
fn tick_wraps_at_midnight() {
    let mut c = ClockState::new();
    for _ in 0..19 {
        c.tick();
    }
    assert_eq!(c.seconds, 86399);
    let (h, m, s) = c.get_time();
    assert_eq!((h, m, s), (23, 59, 59));
    c.tick();
    assert_eq!(c.seconds, 0);
}

#[test]
fn twenty_interrupts_from_boot_cross_midnight() {
    let mut c = ClockState::new();
    for _ in 0..20 {
        c.tick();
    }
    assert_eq!(c.get_time(), (0, 0, 0));
}

#[test]
fn derived_time_stays_in_range_over_a_day() {
    let mut c = ClockState::new();
    for _ in 0..90000 {
        let (h, m, s) = c.get_time();
        assert!(h < 24);
        assert!(m < 60);
        assert!(s < 60);
        c.tick();
    }
    // one full day of interrupts returns to the boot reading
    let mut d = ClockState::new();
    for _ in 0..86400 {
        d.tick();
    }
    assert_eq!(d.get_time(), ClockState::new().get_time());
}

#[test]
fn get_time_derivation_is_exact() {
    let mut c = ClockState::new();
    // 23:59:40 at boot
    assert_eq!(c.get_time(), (23, 59, 40));
    for _ in 0..(20 + 3661) {
        c.tick();
    }
    // 20 ticks to midnight, then 3661 s = 01:01:01
    assert_eq!(c.get_time(), (1, 1, 1));
}

#[test]
fn time_text_formats_zero_padded() {
    assert_eq!(time_text(0, 0, 0), b"00:00:00".to_vec());
    assert_eq!(time_text(23, 59, 41), b"23:59:41".to_vec());
    assert_eq!(time_text(1, 2, 3), b"01:02:03".to_vec());
}

#[test]
fn rtc_interrupt_renders_only_on_clock_face() {
    let mut sys = AlarmClock::boot();
    let compare = sys.rtc_interrupt();
    assert_eq!(compare, 16);
    assert_eq!(
        sys.display.last_frame,
        Some(Frame::Time { hours: 23, minutes: 59, seconds: 41 })
    );

    // move to the temperature face: the interrupt must not override it
    let mut sys2 = AlarmClock::boot();
    sys2.display.next_menu();
    assert_eq!(sys2.display.menu_state, MenuState::Temperature);
    let frame_before = sys2.display.last_frame;
    sys2.rtc_interrupt();
    assert_eq!(sys2.display.last_frame, frame_before);
    assert_eq!(sys2.clock.seconds, 86381);
}
