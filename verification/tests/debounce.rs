//! Tests for the debounced edge detector.

use neotron_bmc::debounce::Debouncer;
use neotron_bmc::debounce::Edge;

#[test]
fn rising_edge_after_unanimous_window() {
    let mut d = Debouncer::new(2, false);
    assert_eq!(d.update(true), None);
    assert_eq!(d.update(true), Some(Edge::Rising));
    assert!(d.is_high());
}

#[test]
fn falling_edge_after_unanimous_window() {
    let mut d = Debouncer::new(2, true);
    assert_eq!(d.update(false), None);
    assert_eq!(d.update(false), Some(Edge::Falling));
    assert!(!d.is_high());
}

#[test]
fn idempotent_after_confirmation() {
    // Feeding a window more identical samples after it has confirmed that
    // value emits no further edge.
    let mut d = Debouncer::new(2, false);
    d.update(true);
    assert_eq!(d.update(true), Some(Edge::Rising));
    for _ in 0..10 {
        assert_eq!(d.update(true), None);
        assert!(d.is_high());
    }
}

#[test]
fn bounce_does_not_confirm() {
    // Alternating samples never fill the window unanimously.
    let mut d = Debouncer::new(2, false);
    for i in 0..20 {
        assert_eq!(d.update(i % 2 == 0), None);
        assert!(!d.is_high());
    }
}

#[test]
fn long_window_confirms_on_sixteenth_sample() {
    let mut d = Debouncer::new(16, false);
    for _ in 0..15 {
        assert_eq!(d.update(true), None);
    }
    assert_eq!(d.update(true), Some(Edge::Rising));
}

#[test]
fn interrupted_hold_starts_over() {
    let mut d = Debouncer::new(16, false);
    for _ in 0..10 {
        assert_eq!(d.update(true), None);
    }
    // One low sample breaks the run; sixteen more are needed again.
    assert_eq!(d.update(false), None);
    for _ in 0..15 {
        assert_eq!(d.update(true), None);
    }
    assert_eq!(d.update(true), Some(Edge::Rising));
}
