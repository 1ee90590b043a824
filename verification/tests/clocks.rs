use std::sync::Arc;

use gardal::{Clock, FastClock, ManualClock, QuantaClock, StdClock, TokioClock};

#[test]
fn manual_clock_set_and_advance() {
    let clock = ManualClock::new(5);
    assert_eq!(5, clock.now());
    clock.advance(10);
    assert_eq!(15, clock.now());
    clock.set(3);
    assert_eq!(3, clock.now());
    let shared = Arc::new(ManualClock::default());
    assert_eq!(0, shared.now());
    shared.advance(7);
    assert_eq!(7, (&*shared).now());
}

#[test]
fn std_clock_starts_near_zero_and_moves_forward() {
    let clock = StdClock::default();
    let first = clock.now();
    let second = clock.now();
    assert!(first <= second);
    // far less than a minute passes during this test
    assert!(second < 60_000_000_000);
}

#[test]
fn quanta_clock_starts_near_zero_and_moves_forward() {
    let clock = QuantaClock::default();
    let first = clock.now();
    let second = clock.now();
    assert!(first <= second);
    assert!(second < 60_000_000_000);
}

#[test]
fn fast_clock_without_upkeep_stands_still() {
    let clock = FastClock::default();
    // without the upkeep thread quanta's recent time does not move
    assert_eq!(clock.now(), clock.now());
    assert!(clock.now() < 60_000_000_000);
}

#[test]
fn tokio_clock_starts_near_zero() {
    let clock = TokioClock::default();
    let first = clock.now();
    assert!(first <= clock.now());
    assert!(first < 60_000_000_000);
}
