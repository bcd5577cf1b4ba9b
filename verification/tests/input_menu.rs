use alarm_clock::buzzer::beep_plan;
use alarm_clock::debounce::EdgeDetector;
use alarm_clock::display::Display;
use alarm_clock::display::Frame;
use alarm_clock::display::PLACEHOLDER_DECI_CELSIUS;
use alarm_clock::led::Led;
use alarm_clock::led::DUTY_STEP;
use alarm_clock::led::MAX_DUTY;
use alarm_clock::menu::MenuState;
use alarm_clock::system::AlarmClock;
use alarm_clock::system::ButtonSamples;

#[test]
fn press_fires_once_per_high_to_low_transition() {
    let mut d = EdgeDetector::new();
    // high, high, low, low, high, low
    let samples = vec![true, true, false, false, true, false];
    let events = d.scan(&samples);
    assert_eq!(events, vec![false, false, true, false, false, true]);
}

#[test]
fn no_press_on_sustained_levels() {
    let mut low = EdgeDetector::new();
    let first = low.scan(&vec![false]);
    assert_eq!(first, vec![true]); // initial level is high, so the first low fires
    let sustained_low = low.scan(&vec![false, false, false]);
    assert_eq!(sustained_low, vec![false, false, false]);

    let mut high = EdgeDetector::new();
    let sustained_high = high.scan(&vec![true, true, true, true]);
    assert_eq!(sustained_high, vec![false, false, false, false]);
}

#[test]
fn menu_full_cycle_returns_to_clock() {
    let mut m = MenuState::Clock;
    m = m.next();
    assert_eq!(m, MenuState::Temperature);
    m = m.next();
    assert_eq!(m, MenuState::Settings);
    m = m.next();
    assert_eq!(m, MenuState::Clock);
}

#[test]
fn menu_position_is_press_count_mod_three() {
    let faces = [MenuState::Clock, MenuState::Temperature, MenuState::Settings];
    let mut m = MenuState::Clock;
    for n in 1..10usize {
        m = m.next();
        assert_eq!(m, faces[n % 3]);
    }
}

#[test]
fn duty_clamps_at_max_and_zero() {
    let mut led = Led::new();
    assert_eq!(led.duty, MAX_DUTY / 2);
    for _ in 0..20 {
        led.brighten();
        assert!(led.duty <= MAX_DUTY);
    }
    assert_eq!(led.duty, MAX_DUTY);
    led.brighten();
    assert_eq!(led.duty, MAX_DUTY); // clamping idempotent at the top
    for _ in 0..20 {
        led.dim();
    }
    assert_eq!(led.duty, 0);
    led.dim();
    assert_eq!(led.duty, 0); // clamping idempotent at the bottom
    led.brighten();
    assert_eq!(led.duty, DUTY_STEP);
}

#[test]
fn toggle_switches_between_off_and_half_brightness() {
    let mut led = Led::new();
    assert_eq!(led.toggle(), 0);
    assert_eq!(led.toggle(), MAX_DUTY / 2);
    led.brighten();
    assert_eq!(led.toggle(), 0); // any lit duty toggles to off
}

#[test]
fn beep_plan_alternates_opposite_pins() {
    let plan = beep_plan(2);
    assert_eq!(plan.len(), 4);
    for (i, drive) in plan.iter().enumerate() {
        assert_eq!(drive.buzzer_1_high, i % 2 == 0);
        assert_ne!(drive.buzzer_1_high, drive.buzzer_2_high);
    }
    assert_eq!(beep_plan(0).len(), 0);
}

#[test]
fn update_menu_draws_the_selected_face() {
    let mut d = Display::new();
    assert_eq!(d.last_frame, None);
    d.update_menu();
    assert_eq!(
        d.last_frame,
        Some(Frame::Time { hours: 12, minutes: 30, seconds: 45 })
    );
    d.next_menu();
    d.update_menu();
    assert_eq!(
        d.last_frame,
        Some(Frame::Temperature { deci_celsius: PLACEHOLDER_DECI_CELSIUS })
    );
    d.next_menu();
    d.update_menu();
    assert_eq!(d.last_frame, Some(Frame::Settings));
}

#[test]
fn three_toggle_presses_cycle_back_to_clock() {
    let mut sys = AlarmClock::boot();
    let pressed = ButtonSamples { toggle_high: false, brighten_high: true, dim_high: true };
    let released = ButtonSamples { toggle_high: true, brighten_high: true, dim_high: true };
    let mut now: u64 = 50;
    for _ in 0..3 {
        sys.button_poll_job(now, pressed);
        now += 50;
        sys.button_poll_job(now, released);
        now += 50;
    }
    assert_eq!(sys.display.menu_state, MenuState::Clock);
}

#[test]
fn held_toggle_advances_only_once() {
    let mut sys = AlarmClock::boot();
    let pressed = ButtonSamples { toggle_high: false, brighten_high: true, dim_high: true };
    sys.button_poll_job(50, pressed);
    sys.button_poll_job(100, pressed);
    sys.button_poll_job(150, pressed);
    assert_eq!(sys.display.menu_state, MenuState::Temperature);
}

#[test]
fn brighten_and_dim_presses_program_the_led() {
    let mut sys = AlarmClock::boot();
    let brighten = ButtonSamples { toggle_high: true, brighten_high: false, dim_high: true };
    let released = ButtonSamples { toggle_high: true, brighten_high: true, dim_high: true };
    let (fx, _) = sys.button_poll_job(50, brighten);
    assert_eq!(fx.led_duty, Some(MAX_DUTY / 2 + DUTY_STEP));
    assert_eq!(fx.render, None);
    let (fx2, _) = sys.button_poll_job(100, released);
    assert_eq!(fx2.led_duty, None);
    let dim = ButtonSamples { toggle_high: true, brighten_high: true, dim_high: false };
    let (fx3, _) = sys.button_poll_job(150, dim);
    assert_eq!(fx3.led_duty, Some(MAX_DUTY / 2));
}
