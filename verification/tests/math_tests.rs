//! Tests for speeds, time spans and unit rounding.

use purr_core::math::{ByteSpeed, DurationRange, RoundToUnit, TimeSpan};
use purr_core::WhisperModel;

#[test]
fn test_round_to_unit() {
    assert_eq!(123u64.round_to_unit(10), 100);
    assert_eq!(512u64.round_to_unit(10), 500);
    assert_eq!((678u64 * 1024).round_to_unit(2), 512 * 1024);
    assert_eq!(
        (4usize * 1024 * 1024 * 1024).round_to_unit(1024),
        4 * 1024 * 1024 * 1024
    );
    assert_eq!(7u64.round_to_unit(10), 0);
}

#[test]
fn test_speed_multiplication() {
    let speed = ByteSpeed::mul(2, ByteSpeed::bps());
    assert_eq!(speed.dividend, (2, "B"));
    assert_eq!(speed.divisor, (TimeSpan::from_secs(1), "s"));
}

#[test]
fn test_speed_to_byte_speed() {
    let speed = ByteSpeed::throughput(512 * 1024, TimeSpan::from_secs(16));
    let byte_speed = speed.reduce();
    assert_eq!(byte_speed.dividend, (32, "KB"));
    assert_eq!(byte_speed.divisor, (TimeSpan::from_secs(1), "s"));
}

#[test]
fn test_throughput_zero_is_safe() {
    let speed = ByteSpeed::throughput(0, TimeSpan::from_secs(10));
    assert_eq!(speed.dividend, (1, "B"));
    let speed = ByteSpeed::throughput(1024, TimeSpan::from_secs(0));
    assert_eq!(speed.dividend, (1, "B"));
}

#[test]
fn test_reduce_unit_ladder() {
    let mk = |v: u64| ByteSpeed::mul(v, ByteSpeed::bps()).reduce();
    assert_eq!(mk(999).dividend, (999, "B"));
    assert_eq!(mk(1_000).dividend, (1, "KB"));
    assert_eq!(mk(2_500_000).dividend, (2, "MB"));
    assert_eq!(mk(3_000_000_000).dividend, (3, "GB"));
    assert_eq!(mk(4_000_000_000_000).dividend, (4, "TB"));
    assert_eq!(mk(5_000_000_000_000_000).dividend, (5, "PB"));
}

#[test]
fn test_duration_range_contains_and_len() {
    let range = DurationRange::new(TimeSpan::from_secs(2), TimeSpan::from_secs(5));
    assert!(range.contains(TimeSpan::from_secs(2)));
    assert!(range.contains(TimeSpan::new(3, 500_000_000)));
    assert!(range.contains(TimeSpan::from_secs(5)));
    assert!(!range.contains(TimeSpan::new(1, 999_999_999)));
    assert!(!range.contains(TimeSpan::new(5, 1)));
    assert_eq!(range.len(), TimeSpan::from_secs(3));
}

#[test]
fn test_unit_range() {
    let value = TimeSpan::new(67, 350_000_000);
    let unit = TimeSpan::new(60, 100_000_000);
    let range = DurationRange::unit_range(value, unit);
    assert_eq!(range.0, TimeSpan::new(60, 300_000_000));
    assert_eq!(range.1, TimeSpan::new(120, 400_000_000));
}

#[test]
fn test_estimated_download_time() {
    // 142 MB at 1,048,576 bytes per second: 142 seconds.
    let speed = ByteSpeed::mul(1024 * 1024, ByteSpeed::bps());
    let t = WhisperModel::Base.estimated_download_time(speed);
    assert_eq!(t, TimeSpan::from_secs(142));
    // A zero speed saturates instead of dividing by zero.
    let t = WhisperModel::Base.estimated_download_time(ByteSpeed::mul(0, ByteSpeed::bps()));
    assert_eq!(t, TimeSpan::new(u64::MAX, 999_999_999));
}
