use oss_insight::fetch::{
    fetch_step, quota_reset_signal, reset_instant, retry_after_signal, step_fits, FetchEvent,
    ResponseHeaders,
};
use oss_insight::timer::ExponentialBackoffTimer;

fn headers(
    retry_after: Option<&str>,
    remaining: Option<&str>,
    reset: Option<&str>,
) -> ResponseHeaders {
    ResponseHeaders {
        retry_after: retry_after.map(|s| s.to_string()),
        ratelimit_remaining: remaining.map(|s| s.to_string()),
        ratelimit_reset: reset.map(|s| s.to_string()),
    }
}

#[test]
fn retry_after_parses_seconds() {
    assert_eq!(retry_after_signal(&headers(Some("30"), None, None)), Some(30));
    assert_eq!(retry_after_signal(&headers(Some("bad"), None, None)), None);
    assert_eq!(retry_after_signal(&headers(None, Some("0"), Some("5"))), None);
}

#[test]
fn quota_signal_needs_zero_remaining_and_a_reset() {
    assert_eq!(quota_reset_signal(&headers(None, Some("0"), Some("1700000000"))), Some(1700000000));
    assert_eq!(quota_reset_signal(&headers(None, Some("3"), Some("1700000000"))), None);
    assert_eq!(quota_reset_signal(&headers(None, Some("0"), None)), None);
    assert_eq!(quota_reset_signal(&headers(None, None, Some("1700000000"))), None);
    assert_eq!(quota_reset_signal(&headers(None, Some("x"), Some("1700000000"))), None);
    assert_eq!(quota_reset_signal(&headers(None, Some("0"), Some("x"))), None);
}

#[test]
fn reset_instant_converts_to_monotonic_clock() {
    // timestamp 80 seconds after epoch, wall clock at 50, monotonic at 100
    assert_eq!(reset_instant(100, 50, 80), 130);
    // a timestamp already in the past is clamped to now
    assert_eq!(reset_instant(100, 50, 20), 100);
    assert_eq!(reset_instant(100, 50, 50), 100);
}

#[test]
fn quota_exhaustion_reprograms_the_deadline() {
    let mut t = ExponentialBackoffTimer::new(0, 60, 3600);
    let ev = FetchEvent::Received {
        status: 200,
        headers: headers(None, Some("0"), Some("80")),
    };
    let done = fetch_step(&mut t, &ev, 100, 50);
    assert!(done);
    assert_eq!(t.deadline, 130);
    assert_eq!(t.delay, 60);
}

#[test]
fn past_reset_timestamp_never_moves_deadline_before_now() {
    let mut t = ExponentialBackoffTimer::new(0, 60, 3600);
    let ev = FetchEvent::Received {
        status: 200,
        headers: headers(None, Some("0"), Some("20")),
    };
    fetch_step(&mut t, &ev, 100, 50);
    assert_eq!(t.deadline, 100);
}

#[test]
fn quota_signal_overrides_retry_after() {
    let mut t = ExponentialBackoffTimer::new(0, 60, 3600);
    let ev = FetchEvent::Received {
        status: 200,
        headers: headers(Some("7"), Some("0"), Some("500")),
    };
    let done = fetch_step(&mut t, &ev, 0, 0);
    assert!(done);
    // the retry-after directive said 7; the quota signal, evaluated second, wins
    assert_eq!(t.deadline, 500);
}

#[test]
fn retry_after_alone_sets_deadline_and_resets_delay() {
    let mut t = ExponentialBackoffTimer::new(0, 60, 3600);
    for _ in 0..4 {
        t.backoff();
    }
    assert_eq!(t.delay, 960);
    let ev = FetchEvent::Received {
        status: 200,
        headers: headers(Some("30"), None, None),
    };
    fetch_step(&mut t, &ev, 1000, 999);
    assert_eq!(t.deadline, 1030);
    assert_eq!(t.delay, 60);
}

#[test]
fn failure_after_signal_backs_off_from_the_new_deadline() {
    let mut t = ExponentialBackoffTimer::new(0, 60, 3600);
    let ev = FetchEvent::Received {
        status: 403,
        headers: headers(None, Some("0"), Some("80")),
    };
    let done = fetch_step(&mut t, &ev, 100, 50);
    assert!(!done);
    // deadline 130 from the reset signal, plus the floor delay of 60
    assert_eq!(t.deadline, 190);
    assert_eq!(t.delay, 120);
}

#[test]
fn transport_failure_changes_nothing() {
    let mut t = ExponentialBackoffTimer::new(9, 60, 3600);
    let done = fetch_step(&mut t, &FetchEvent::TransportFailed, 77, 77);
    assert!(!done);
    assert_eq!(t.deadline, 9);
    assert_eq!(t.delay, 60);
}

#[test]
fn success_without_signals_leaves_timer_alone() {
    let mut t = ExponentialBackoffTimer::new(9, 60, 3600);
    let done = fetch_step(&mut t, &FetchEvent::Received { status: 200, headers: headers(None, None, None) }, 1, 1);
    assert!(done);
    assert_eq!(t.deadline, 9);
    assert_eq!(t.delay, 60);
}

#[test]
fn step_fits_accepts_ordinary_events_and_rejects_clock_overflow() {
    let t = ExponentialBackoffTimer::new(0, 60, 3600);
    assert!(step_fits(&t, &FetchEvent::TransportFailed, 0, 0));
    let ordinary = FetchEvent::Received {
        status: 403,
        headers: headers(Some("30"), Some("0"), Some("1700000000")),
    };
    assert!(step_fits(&t, &ordinary, 100, 1600000000));
    // a retry-after directive that would push the deadline past u64
    let absurd_retry = FetchEvent::Received {
        status: 200,
        headers: headers(Some("18446744073709551615"), None, None),
    };
    assert!(!step_fits(&t, &absurd_retry, 1, 1));
    // a reset timestamp whose delta to the wall clock overflows the clock
    let absurd_reset = FetchEvent::Received {
        status: 200,
        headers: headers(None, Some("0"), Some("18446744073709551615")),
    };
    assert!(!step_fits(&t, &absurd_reset, 1, 0));
}

#[test]
fn persistent_failure_retries_forever_with_growing_backoff() {
    // a nonexistent resource answers non-200 on every attempt: the loop
    // never reports done, and the self-throttling delay grows to the ceiling
    let mut t = ExponentialBackoffTimer::new(0, 60, 3600);
    let ev = FetchEvent::Received { status: 404, headers: headers(None, None, None) };
    let mut retries = 0u32;
    let mut last_delay = 0u64;
    for _ in 0..20 {
        let done = fetch_step(&mut t, &ev, 0, 0);
        assert!(!done);
        retries += 1;
        assert!(t.delay >= last_delay);
        assert!(t.delay <= t.max_delay);
        last_delay = t.delay;
    }
    assert_eq!(retries, 20);
    assert_eq!(t.delay, 3600);
}
