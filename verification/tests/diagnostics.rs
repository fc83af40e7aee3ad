use harper_desktop::diagnostics::{Throttle, REPORT_INTERVAL};

const START: u64 = 1_000_000_000_000;

#[test]
fn nothing_is_reported_unless_enabled() {
    let mut throttle = Throttle::new();
    assert!(!throttle.ready(false, START));
    assert!(throttle.ready(true, START));
}

#[test]
fn reports_are_at_least_an_interval_apart() {
    let mut throttle = Throttle::default();
    assert!(throttle.ready(true, START));
    assert!(!throttle.ready(true, START + REPORT_INTERVAL - 1));
    assert!(throttle.ready(true, START + REPORT_INTERVAL));
    assert!(!throttle.ready(true, START + REPORT_INTERVAL + 1));
}

#[test]
fn refused_calls_in_between_do_not_move_the_interval() {
    let mut throttle = Throttle::new();
    assert!(throttle.ready(true, START));
    for step in 1..10 {
        assert!(!throttle.ready(true, START + step * (REPORT_INTERVAL / 10)));
        assert!(!throttle.ready(false, START + step * (REPORT_INTERVAL / 10)));
    }
    assert!(!throttle.ready(false, START + REPORT_INTERVAL));
    assert!(throttle.ready(true, START + REPORT_INTERVAL));
}
