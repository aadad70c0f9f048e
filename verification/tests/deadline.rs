//! Deadlines, lengths of time and the clock.

use v4l_stream::deadline::Deadline;
use v4l_stream::time::{Clock, Duration, Instant};

fn at(nanos: u128) -> Instant {
    Instant { nanos }
}

#[test]
fn deadline_lies_a_timeout_after_the_begin() {
    let deadline = Deadline::from_timeout(Some(1500), at(7));
    assert_eq!(deadline.expires_at, Some(at(1_500_000_007)));
    assert_eq!(Deadline::from_timeout(None, at(7)).expires_at, None);
    assert_eq!(
        Deadline::from_timeout(Some(0), at(7)).expires_at,
        Some(at(7))
    );
}

#[test]
fn negative_timeout_is_read_as_unsigned() {
    let deadline = Deadline::from_timeout(Some(-1), at(0));
    assert_eq!(
        deadline.expires_at,
        Some(at(18_446_744_073_709_551_615_000_000))
    );
}

#[test]
fn no_deadline_waits_without_limit() {
    let deadline = Deadline { expires_at: None };
    assert_eq!(deadline.poll_timeout(at(u128::MAX)), -1);
    assert!(!deadline.expired(at(u128::MAX)));
}

#[test]
fn poll_timeout_counts_down_to_zero() {
    let deadline = Deadline {
        expires_at: Some(at(10_000_000)),
    };
    assert_eq!(deadline.poll_timeout(at(0)), 10);
    assert_eq!(deadline.poll_timeout(at(1)), 9);
    assert_eq!(deadline.poll_timeout(at(8_000_001)), 1);
    assert_eq!(deadline.poll_timeout(at(9_999_999)), 1);
    assert_eq!(deadline.poll_timeout(at(10_000_000)), 0);
    assert_eq!(deadline.poll_timeout(at(10_000_001)), 0);
}

#[test]
fn poll_timeout_is_capped() {
    let deadline = Deadline {
        expires_at: Some(at(3_000_000_000_000_000_000)),
    };
    assert_eq!(deadline.poll_timeout(at(0)), i32::MAX);
}

#[test]
fn deadline_expires_at_its_moment_and_stays_expired() {
    let deadline = Deadline {
        expires_at: Some(at(5)),
    };
    assert!(!deadline.expired(at(4)));
    assert!(deadline.expired(at(5)));
    assert!(deadline.expired(at(6)));
    assert!(deadline.expired(at(u128::MAX)));
}

#[test]
fn durations_convert() {
    assert_eq!(Duration::from_secs(2), Duration::from_millis(2000));
    assert_eq!(Duration::from_millis(3), Duration::from_nanos(3_000_000));
    assert_eq!(Duration::from_nanos(1_999_999).as_millis(), 1);
    assert!(Duration::from_nanos(0).is_zero());
    assert!(!Duration::from_nanos(1).is_zero());
    let std = std::time::Duration::new(7, 123_456_789);
    assert_eq!(
        Duration::from_nanos(std.as_nanos()).as_millis(),
        std.as_millis()
    );
}

#[test]
fn instants_measure_spans() {
    assert_eq!(at(5).after(Duration::from_nanos(4)), at(9));
    assert_eq!(
        at(9).checked_duration_since(at(5)),
        Some(Duration::from_nanos(4))
    );
    assert_eq!(
        at(5).checked_duration_since(at(5)),
        Some(Duration::from_nanos(0))
    );
    assert_eq!(at(5).checked_duration_since(at(6)), None);
}

#[test]
fn clock_counts_nanoseconds_from_its_start() {
    let outer = std::time::Instant::now();
    let mut clock = Clock::start();
    let inner = std::time::Instant::now();
    while inner.elapsed() < std::time::Duration::from_millis(3) {}
    let least = inner.elapsed().as_nanos();
    let reading = clock.now();
    let most = outer.elapsed().as_nanos();
    assert!(reading.nanos >= least);
    assert!(reading.nanos <= most);
    assert!(clock.now().nanos >= reading.nanos);
}

#[test]
fn noted_readings_never_go_back() {
    let mut clock = Clock::start();
    assert_eq!(clock.note(0), at(0));
    assert_eq!(clock.note(700), at(700));
    assert_eq!(clock.note(699), at(700));
    assert_eq!(clock.note(700), at(700));
    assert_eq!(clock.note(701), at(701));
    let far = 18_446_744_073_709_551_615_999_999_999;
    assert_eq!(clock.note(far), at(far));
    assert_eq!(clock.now(), at(far));
}

#[test]
fn clock_never_goes_back() {
    let mut clock = Clock::start();
    let mut last = clock.now();
    for _ in 0..1000 {
        let now = clock.now();
        assert!(now.nanos >= last.nanos);
        last = now;
    }
}

#[test]
fn waits_shrink_and_stay_within_the_timeout() {
    let deadline = Deadline::from_timeout(Some(3), at(1_000));
    let mut last = 3;
    for step in 0..40 {
        let wait = deadline.poll_timeout(at(1_000 + step * 100_000));
        assert!(0 <= wait && wait <= last);
        last = wait;
    }
    assert_eq!(last, 0);
}
