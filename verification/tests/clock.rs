use quanta::calibration::{
    calibration_deadline, calibration_expired, mul_div_po2_u64, spin_target, Calibration,
};
use quanta::clock::{ticks_to_nanos, timespec_to_nanos};
use quanta::{Clock, Counter, IntoNanoseconds, Monotonic, SourceKind};
use std::time::Duration;

fn calibrated() -> Calibration {
    // Anchor at reference 1000 / source 5000; then 3000 ns pass while 6000 cycles do.
    let mut cal = Calibration::new();
    cal.anchor(1_000, 5_000);
    assert!(cal.source_delta_in_range(11_000));
    cal.adjust_cal_ratio(4_000, 11_000);
    cal
}

#[test]
fn test_mock() {
    let (mut clock, mock) = Clock::mock();
    assert_eq!(clock.now(0).as_u64(), 0);
    mock.increment(42);
    assert_eq!(clock.now(0).as_u64(), 42);
}

#[test]
fn mock_moves_both_ways() {
    let (mut clock, mock) = Clock::mock();
    mock.increment(Duration::from_millis(1));
    assert_eq!(clock.now(0).as_u64(), 1_000_000);
    mock.decrement(500u64);
    assert_eq!(clock.now(77).as_u64(), 999_500);
    assert_eq!(clock.raw(5), 999_500);
    assert_eq!(clock.recent(5).as_u64(), 999_500);
    assert_eq!(mock.now(), 999_500);
    assert_eq!(mock.start(), 999_500);
    assert_eq!(mock.end(), 999_500);
    mock.decrement(1_000_000u64);
    assert_eq!(clock.now(0).as_u64(), u64::MAX - 499);
    assert_eq!(clock.source_kind(), SourceKind::Mocked);
}

#[test]
fn into_nanoseconds_values() {
    assert_eq!(5u64.into_nanos(), 5);
    assert_eq!(Duration::from_secs(2).into_nanos(), 2_000_000_000);
}

#[test]
fn reference_clock_is_identity() {
    let mut clock = Clock::from_reference(Monotonic::new());
    assert_eq!(clock.source_kind(), SourceKind::Reference);
    assert_eq!(clock.now(123).as_u64(), 123);
    assert_eq!(clock.now(100).as_u64(), 100);
    assert_eq!(clock.raw(7), 7);
    assert_eq!(clock.scaled(9).as_u64(), 9);
    assert_eq!(clock.recent(55).as_u64(), 55);
    assert_eq!(clock.delta(3, 10), Duration::from_nanos(7));
    assert_eq!(clock.delta(10, 3), Duration::new(0, 0));
    assert_eq!(clock.delta(4, 4), Duration::new(0, 0));
}

#[test]
fn counter_clock_scales_and_never_goes_back() {
    let mut clock = Clock::from_counter(Monotonic::new(), Counter::new(), calibrated());
    assert_eq!(clock.source_kind(), SourceKind::Counter);
    // 6000 cycles past the anchor are 3000 ns past it.
    assert_eq!(clock.scaled(11_000).as_u64(), 4_000);
    // Readings at or before the anchor land on the anchor's reference time.
    assert_eq!(clock.scaled(5_000).as_u64(), 1_000);
    assert_eq!(clock.scaled(10).as_u64(), 1_000);
    let first = clock.now(11_000);
    assert_eq!(first.as_u64(), 4_000);
    let second = clock.now(7_000);
    assert_eq!(second, first);
    let third = clock.now(13_000);
    assert_eq!(third.as_u64(), 5_000);
    assert_eq!(clock.delta(5_000, 11_000), Duration::from_nanos(3_000));
    assert_eq!(clock.delta(11_000, 5_000), Duration::new(0, 0));
    assert_eq!(clock.raw(13), 13);
    assert_eq!(clock.recent(99).as_u64(), 99);
}

#[test]
fn counter_clock_overflow_is_refused_by_checked_forms() {
    let mut cal = Calibration::new();
    cal.anchor(u64::MAX - 1, 0);
    let mut clock = Clock::from_counter(Monotonic::new(), Counter::new(), cal);
    // 4 cycles at ratio 1/2 are 2 ns; u64::MAX - 1 + 2 does not fit.
    assert_eq!(clock.try_scaled(4), None);
    assert_eq!(clock.try_scaled(2).map(|i| i.as_u64()), Some(u64::MAX));
    assert_eq!(clock.try_now(4), None);
    assert_eq!(clock.try_now(1).map(|i| i.as_u64()), Some(u64::MAX - 1));
    assert_eq!(clock.try_now(0).map(|i| i.as_u64()), Some(u64::MAX - 1));
}

#[test]
fn default_calibration_halves() {
    let cal = Calibration::default();
    assert_eq!(cal.scale(10), 5);
    assert_eq!(cal.scale_delta(9), 4);
    assert_eq!(cal.checked_scale(u64::MAX), Some(u64::MAX / 2));
}

#[test]
fn adjust_cal_ratio_uses_power_of_two_denominator() {
    let cal = calibrated();
    // src_d = 6000 rounds up to 8192 = 2^13; factor = 3000 * 8192 / 6000 = 4096.
    assert_eq!(cal.scale_delta(8_192), 4_096);
    assert_eq!(cal.scale_delta(6_000), 3_000);
}

#[test]
fn adjust_cal_ratio_edge_cases() {
    let mut cal = Calibration::new();
    cal.anchor(0, 0);
    // No source time passed: the ratio saturates.
    cal.adjust_cal_ratio(10, 0);
    assert_eq!(cal.scale_delta(1), u64::MAX);
    // Neither clock moved: the ratio is zero.
    cal.adjust_cal_ratio(0, 0);
    assert_eq!(cal.scale_delta(1_000), 0);
    // A source delta above 2^63 has no power-of-two ceiling in 64 bits.
    assert!(!cal.source_delta_in_range((1u64 << 63) + 1));
    assert!(cal.source_delta_in_range(1u64 << 63));
    // Exactly 2^63 is still fine: ratio 1 (factor 2^63 over shift 63).
    cal.adjust_cal_ratio(1u64 << 63, 1u64 << 63);
    assert_eq!(cal.scale_delta(12_345), 12_345);
    // Wrap-around readings count their distance modulo 2^64.
    let mut wrapped = Calibration::new();
    wrapped.anchor(u64::MAX - 9, u64::MAX - 19);
    assert!(wrapped.source_delta_in_range(20));
    wrapped.adjust_cal_ratio(10, 20);
    // ref_d = 20, src_d = 40 -> ceiling 64, factor 20 * 64 / 40 = 32, shift 6.
    assert_eq!(wrapped.scale_delta(64), 32);
}

#[test]
fn mul_div_po2_values() {
    assert_eq!(mul_div_po2_u64(10, 3, 1), 15);
    assert_eq!(mul_div_po2_u64(u64::MAX, u64::MAX, 64), 0xFFFF_FFFF_FFFF_FFFE);
    // The quotient is cut to its low 64 bits.
    assert_eq!(mul_div_po2_u64(u64::MAX, 4, 1), 0xFFFF_FFFF_FFFF_FFFE);
    assert_eq!(mul_div_po2_u64(7, 1, 127), 0);
}

#[test]
fn timespec_conversion() {
    assert_eq!(timespec_to_nanos(2, 5), Some(2_000_000_005));
    assert_eq!(timespec_to_nanos(0, 0), Some(0));
    assert_eq!(timespec_to_nanos(-1, 0), None);
    assert_eq!(timespec_to_nanos(1, -1), None);
    assert_eq!(timespec_to_nanos(18_446_744_073, 709_551_615), Some(u64::MAX));
    assert_eq!(timespec_to_nanos(18_446_744_073, 709_551_616), None);
    assert_eq!(timespec_to_nanos(i64::MAX, 0), None);
}

#[test]
fn calibration_schedule() {
    assert_eq!(calibration_deadline(1), Some(200_000_001));
    assert_eq!(calibration_deadline(u64::MAX - 5), None);
    assert_eq!(spin_target(10), Some(1_010));
    assert_eq!(spin_target(u64::MAX), None);
    assert!(!calibration_expired(200_000_000, 200_000_001));
    assert!(calibration_expired(200_000_001, 200_000_001));
    assert!(calibration_expired(300_000_000, 200_000_001));
}

#[test]
fn delta_is_scaled_difference_or_one_less() {
    let clock = Clock::from_counter(Monotonic::new(), Counter::new(), Calibration::new());
    // Ratio 1/2 anchored at zero: 5 -> 2, 8 -> 4, while the delta 3 scales to 1.
    let s = clock.scaled(5).as_u64();
    let e = clock.scaled(8).as_u64();
    let d = clock.delta(5, 8).as_nanos() as u64;
    assert_eq!((s, e, d), (2, 4, 1));
    assert!(d == e - s || d + 1 == e - s);
    // From an even start the two agree exactly.
    assert_eq!(clock.delta(4, 8).as_nanos() as u64, clock.scaled(8).as_u64() - clock.scaled(4).as_u64());
}

#[test]
fn platform_tick_conversion() {
    assert_eq!(ticks_to_nanos(7, 1_000_000_000, 10_000_000), Some(700));
    assert_eq!(ticks_to_nanos(3, 125, 3), Some(125));
    assert_eq!(ticks_to_nanos(1, 125, 3), Some(41));
    assert_eq!(ticks_to_nanos(5, 1, 0), None);
    assert_eq!(ticks_to_nanos(u64::MAX, 2, 1), None);
    assert_eq!(ticks_to_nanos(u64::MAX, 2, 2), Some(u64::MAX));
}
