use endless_trial::timer::Timer;

#[test]
fn timer_not_ready_right_after_start() {
    let t = Timer::start_now_with_interval(1000, 5000);
    assert!(!t.is_ready(5000));
    assert!(!t.is_ready(5999));
}

#[test]
fn timer_becomes_ready_exactly_at_interval() {
    let t = Timer::start_now_with_interval(1000, 5000);
    assert!(t.is_ready(6000));
    assert!(t.is_ready(7500));
}

#[test]
fn timer_reset_restarts_the_interval() {
    let mut t = Timer::start_now_with_interval(250, 0);
    assert!(t.is_ready(250));
    t.reset(300);
    assert!(!t.is_ready(300));
    assert!(!t.is_ready(549));
    assert!(t.is_ready(550));
}

#[test]
fn timer_elapsed_counts_from_last_reset() {
    let mut t = Timer::start_now_with_interval(10_000, 2000);
    assert_eq!(t.elapsed(2500), 500);
    t.reset(4000);
    assert_eq!(t.elapsed(4000), 0);
    assert_eq!(t.elapsed(9000), 5000);
}

#[test]
fn zero_interval_timer_is_ready_immediately() {
    let t = Timer::start_now_with_interval(0, 100);
    assert!(t.is_ready(100));
}
