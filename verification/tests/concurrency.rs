use blinktherm::arbiter::AdcArbiter;
use blinktherm::calibration::TemperatureCalibration;
use blinktherm::provider::CalibrationProvider;
use blinktherm::signal::{ButtonEvent, EventSignal};

#[test]
fn two_signals_coalesce_into_one_event() {
    let mut signal = EventSignal::new();
    signal.signal(ButtonEvent::Pressed);
    signal.signal(ButtonEvent::Pressed);
    assert_eq!(signal.try_take(), Some(ButtonEvent::Pressed));
    assert_eq!(signal.try_take(), None);
}

#[test]
fn take_clears_the_slot() {
    let mut signal = EventSignal::new();
    assert!(!signal.signaled());
    assert_eq!(signal.try_take(), None);
    signal.signal(ButtonEvent::Pressed);
    assert!(signal.signaled());
    assert_eq!(signal.try_take(), Some(ButtonEvent::Pressed));
    assert!(!signal.signaled());
}

#[test]
fn acquire_is_exclusive_until_release() {
    // Two tasks contend for the converter; the critical sections cannot
    // overlap because the second acquisition is refused until the release.
    let mut arbiter = AdcArbiter::new();
    assert!(arbiter.try_acquire(1));
    assert_eq!(arbiter.current_holder(), Some(1));
    assert!(!arbiter.try_acquire(2));
    assert_eq!(arbiter.current_holder(), Some(1));
    arbiter.release(1);
    assert_eq!(arbiter.current_holder(), None);
    assert!(arbiter.try_acquire(2));
    assert_eq!(arbiter.current_holder(), Some(2));
    arbiter.release(2);
    assert_eq!(arbiter.current_holder(), None);
}

#[test]
fn reacquire_by_same_task_needs_release_too() {
    let mut arbiter = AdcArbiter::new();
    assert!(arbiter.try_acquire(7));
    assert!(!arbiter.try_acquire(7));
    arbiter.release(7);
    assert!(arbiter.try_acquire(7));
}

#[test]
fn calibration_is_read_once_and_shared() {
    let words = TemperatureCalibration { temp30_cal: 940, temp110_cal: 1280, vrefint_cal: 1530 };
    let mut provider = CalibrationProvider::new();
    assert_eq!(provider.read_count(), 0);
    assert_eq!(provider.try_get(), None);
    assert!(provider.needs_read());

    // First access: the source is read and the words are cached.
    provider.install(words);
    assert!(!provider.needs_read());

    // Every later access observes the one cached value and no further read.
    for _ in 0..3 {
        assert_eq!(provider.get(), words);
        assert_eq!(provider.try_get(), Some(words));
    }
    assert_eq!(provider.read_count(), 1);
}
