//! Spans of time and clock readings.

use k8s_controller::time::{Duration, Instant};
use k8s_controller::Action;

#[test]
fn durations_convert_like_those_of_std() {
    for (secs, nanos) in [(0, 0), (15, 1), (7, 999_999_999), (u64::MAX, 999_999_999)] {
        let ours = Duration::new(secs, nanos);
        let theirs = std::time::Duration::new(secs, nanos);
        assert_eq!(ours.as_nanos(), theirs.as_nanos());
        assert_eq!(ours.as_secs(), theirs.as_secs());
        assert_eq!(ours.subsec_nanos(), theirs.subsec_nanos());
    }
    assert_eq!(Duration::from_secs(3).as_nanos(), 3_000_000_000);
    assert_eq!(Duration::from_millis(1500).as_nanos(), 1_500_000_000);
    assert_eq!(Duration::from_millis(u64::MAX).as_secs(), u64::MAX / 1000);
}

#[test]
fn subtraction_stops_at_zero() {
    let long = Duration::from_secs(10);
    let short = Duration::from_millis(1);
    assert_eq!(long.saturating_sub(short), Duration::from_millis(9999));
    assert_eq!(short.saturating_sub(long), Duration::from_secs(0));
}

#[test]
fn elapsed_time_stops_at_zero() {
    let earlier = Instant::at(Duration::from_secs(3));
    let later = Instant::at(Duration::from_secs(8));
    assert_eq!(earlier.elapsed(later), Duration::from_secs(5));
    assert_eq!(later.elapsed(earlier), Duration::from_secs(0));
}

#[test]
fn actions_hold_their_delay() {
    let delay = Duration::from_secs(9);
    assert_eq!(Action::requeue(delay).requeue_after(), Some(delay));
    assert_eq!(Action::await_change().requeue_after(), None);
}
