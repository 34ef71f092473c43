use quanta::{Clock, Instant, Monotonic};
use std::time::Duration;

fn at(nanos: u64) -> Instant {
    Clock::from_reference(Monotonic::new()).scaled(nanos)
}

#[test]
fn instant_duration_since_later() {
    assert_eq!(at(1_500).duration_since(at(500)), Duration::from_nanos(1_000));
    assert_eq!(at(7).duration_since(at(7)), Duration::from_nanos(0));
}

#[test]
fn instant_checked_duration_since() {
    assert_eq!(at(10).checked_duration_since(at(4)), Some(Duration::from_nanos(6)));
    assert_eq!(at(4).checked_duration_since(at(10)), None);
}

#[test]
fn instant_saturating_duration_since() {
    assert_eq!(at(10).saturating_duration_since(at(4)), Duration::from_nanos(6));
    assert_eq!(at(4).saturating_duration_since(at(10)), Duration::new(0, 0));
}

#[test]
fn instant_checked_add_and_sub() {
    assert_eq!(at(100).checked_add(Duration::from_nanos(23)), Some(at(123)));
    assert_eq!(at(u64::MAX).checked_add(Duration::from_nanos(1)), None);
    assert_eq!(at(100).checked_sub(Duration::from_nanos(23)), Some(at(77)));
    assert_eq!(at(3).checked_sub(Duration::from_nanos(4)), None);
    // A duration of 2^64 ns or more never fits.
    let two_64 = Duration::new(18_446_744_073, 709_551_616);
    assert_eq!(at(0).checked_add(two_64), None);
    assert_eq!(at(5).checked_sub(two_64), None);
    assert_eq!(at(1).checked_add(Duration::from_secs(18_446_744_074)), None);
    let max = Duration::new(18_446_744_073, 709_551_615);
    assert_eq!(at(0).checked_add(max), Some(at(u64::MAX)));
    assert_eq!(at(u64::MAX).checked_sub(max), Some(at(0)));
}

#[test]
fn instant_add_then_sub_returns() {
    let start = at(1_000);
    let d = Duration::from_micros(3);
    let later = start.checked_add(d).unwrap();
    assert_eq!(later.checked_sub(d), Some(start));
    assert_eq!(later.duration_since(start), d);
    let earlier = start.checked_sub(d);
    assert_eq!(earlier, None);
    let earlier = later.checked_sub(Duration::from_nanos(1_000)).unwrap();
    assert_eq!(earlier.checked_add(Duration::from_nanos(1_000)), Some(later));
}

#[test]
fn instant_operators() {
    let t = at(1_000);
    assert_eq!((t + Duration::from_nanos(5)).as_u64(), 1_005);
    assert_eq!((t - Duration::from_nanos(5)).as_u64(), 995);
    assert_eq!(at(1_005) - t, Duration::from_nanos(5));
    let mut u = t;
    u += Duration::from_nanos(10);
    assert_eq!(u.as_u64(), 1_010);
    u -= Duration::from_nanos(20);
    assert_eq!(u.as_u64(), 990);
}

#[test]
fn instant_order_and_value() {
    assert!(at(1) < at(2));
    assert!(at(3) >= at(3));
    assert_eq!(at(42).as_u64(), 42);
    assert_eq!(at(1).partial_cmp(&at(2)), Some(std::cmp::Ordering::Less));
    assert_eq!(at(2).partial_cmp(&at(2)), Some(std::cmp::Ordering::Equal));
    assert_eq!(at(3).partial_cmp(&at(2)), Some(std::cmp::Ordering::Greater));
    assert_eq!(at(3).cmp(&at(2)), std::cmp::Ordering::Greater);
    assert!(at(u64::MAX) > at(0));
    assert_eq!(at(7), at(7));
}
