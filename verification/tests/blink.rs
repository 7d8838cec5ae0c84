use blinktherm::blink::{BlinkState, Level, WaitOutcome};
use blinktherm::signal::ButtonEvent;

#[test]
fn interval_sequence_halves_then_wraps() {
    // Starting at 1000 with floor 50: 1000 -> 500 -> 250 -> 125 -> 62, then a
    // halving to 31 falls below the floor and wraps back to 1000.
    let mut state = BlinkState::new();
    assert_eq!(state.interval_ms, 1000);
    let mut observed: Vec<u32> = Vec::new();
    for _ in 0..5 {
        state.on_button_press();
        observed.push(state.interval_ms);
    }
    assert_eq!(observed, vec![500, 250, 125, 62, 1000]);
}

#[test]
fn halving_stops_exactly_at_the_floor() {
    let mut state = BlinkState { level: Level::Low, interval_ms: 100, counter: 0 };
    state.on_button_press();
    assert_eq!(state.interval_ms, 50);
    state.on_button_press();
    assert_eq!(state.interval_ms, 1000);
}

#[test]
fn button_press_while_timer_pending_speeds_up_and_forces_high() {
    // Interval 1000, timer still running: the press wins the race. The next
    // interval becomes 500, the output is set high at once, and the counter
    // is untouched by the press itself.
    let mut state = BlinkState::new();
    let mut toggles: u32 = 0;
    while state.level == Level::High {
        // Drain into a known low phase first so the forced-high is visible.
        let (_, _) = state.step(WaitOutcome::TimedOut);
        toggles += 1;
        assert!(toggles < 3);
    }
    assert_eq!(state.interval_ms, 1000);
    let counter_before = state.counter;

    state.handle_wait_outcome(WaitOutcome::Event(ButtonEvent::Pressed));
    assert_eq!(state.interval_ms, 500);
    assert_eq!(state.level, Level::High);
    assert_eq!(state.counter, counter_before);

    let (applied, _) = state.apply_output();
    assert_eq!(applied, Level::High);
    assert_eq!(state.counter, counter_before + 1);
    assert_eq!(state.level, Level::Low);
}

#[test]
fn timeout_keeps_cadence_and_toggles_output() {
    let mut state = BlinkState::new();
    let (first, report_first) = state.step(WaitOutcome::TimedOut);
    assert_eq!(first, Level::High);
    assert!(!report_first);
    assert_eq!(state.interval_ms, 1000);
    assert_eq!(state.counter, 1);
    let (second, report_second) = state.step(WaitOutcome::TimedOut);
    assert_eq!(second, Level::Low);
    assert!(!report_second);
    assert_eq!(state.counter, 1);
    let (third, _) = state.step(WaitOutcome::TimedOut);
    assert_eq!(third, Level::High);
    assert_eq!(state.counter, 2);
}

#[test]
fn status_report_every_tenth_blink() {
    let mut state = BlinkState::new();
    let mut reports: Vec<u32> = Vec::new();
    for _ in 0..40 {
        let (applied, report) = state.step(WaitOutcome::TimedOut);
        if report {
            assert_eq!(applied, Level::High);
            reports.push(state.counter);
        }
    }
    assert_eq!(reports, vec![10, 20]);
}
