use oss_insight::timer::ExponentialBackoffTimer;

#[test]
fn new_timer_starts_at_min_delay() {
    let t = ExponentialBackoffTimer::new(17, 60, 3600);
    assert_eq!(t.deadline, 17);
    assert_eq!(t.delay, 60);
    assert_eq!(t.min_delay, 60);
    assert_eq!(t.max_delay, 3600);
}

#[test]
fn backoff_pushes_deadline_and_doubles_delay() {
    let mut t = ExponentialBackoffTimer::new(5, 60, 3600);
    t.backoff();
    assert_eq!(t.deadline, 65);
    assert_eq!(t.delay, 120);
    t.backoff();
    assert_eq!(t.deadline, 185);
    assert_eq!(t.delay, 240);
}

#[test]
fn backoff_delays_follow_doubling_schedule_to_ceiling() {
    let mut t = ExponentialBackoffTimer::new(0, 60, 3600);
    let expected = [120u64, 240, 480, 960, 1920, 3600, 3600, 3600];
    let mut last = t.delay;
    for e in expected {
        t.backoff();
        assert_eq!(t.delay, e);
        assert!(t.delay >= last);
        assert!(t.delay <= t.max_delay);
        last = t.delay;
    }
}

#[test]
fn backoff_with_equal_bounds_stays_put() {
    let mut t = ExponentialBackoffTimer::new(0, 10, 10);
    t.backoff();
    assert_eq!(t.deadline, 10);
    assert_eq!(t.delay, 10);
}

#[test]
fn remaining_wait_counts_down_and_floors_at_zero() {
    let t = ExponentialBackoffTimer::new(100, 60, 3600);
    assert_eq!(t.remaining_wait(40), 60);
    assert_eq!(t.remaining_wait(99), 1);
    // a deadline already reached or passed waits no longer
    assert_eq!(t.remaining_wait(100), 0);
    assert_eq!(t.remaining_wait(5000), 0);
}

#[test]
fn set_deadline_resets_delay_to_floor() {
    let mut t = ExponentialBackoffTimer::new(0, 60, 3600);
    for _ in 0..6 {
        t.backoff();
    }
    assert_eq!(t.delay, 3600);
    t.set_deadline(12345);
    assert_eq!(t.deadline, 12345);
    assert_eq!(t.delay, 60);
    assert_eq!(t.min_delay, 60);
    assert_eq!(t.max_delay, 3600);
}
