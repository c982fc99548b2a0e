use asr::runtime::Runtime;
use asr::time_convert::TickInterval;

#[test]
fn failed_open_constructs_nothing() {
    assert!(Runtime::open(false).is_none());
}

#[test]
fn successful_open_starts_at_the_default_tick_rate() {
    let handle = Runtime::open(true).unwrap();
    assert_eq!(handle.tick_rate_micros(), 1_000_000 / 120);
    handle.release();
}

#[test]
fn successful_step_replaces_the_tick_interval() {
    let mut handle = Runtime::new();
    let ok = handle.apply_step(Some(TickInterval::new(0, 16_666_666)));
    assert!(ok);
    assert_eq!(handle.tick_rate_micros(), 16_666);
}

#[test]
fn failed_step_keeps_the_previous_tick_interval() {
    let mut handle = Runtime::new();
    let ok = handle.apply_step(Some(TickInterval::new(2, 5_000)));
    assert!(ok);
    let failed = handle.apply_step(None);
    assert!(!failed);
    assert_eq!(handle.tick_rate_micros(), 2_000_005);
}

#[test]
fn release_consumes_the_handle_once() {
    let handle = Runtime::new();
    handle.release();
}
