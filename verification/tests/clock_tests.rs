use tick_engine::clock::{from_clock, sec_to_timestamp};
use tick_engine::render::render_timestamp;

#[test]
fn decompose_zero() {
    assert_eq!(sec_to_timestamp(0), (0, 0, 0, false));
}

#[test]
fn decompose_negative() {
    assert_eq!(sec_to_timestamp(-3661), (1, 1, 1, true));
}

#[test]
fn decompose_day_boundary() {
    assert_eq!(sec_to_timestamp(86399), (59, 59, 23, false));
    assert_eq!(sec_to_timestamp(86400), (0, 0, 24, false));
}

#[test]
fn decompose_large_hours() {
    // Hours are unbounded: no wrap at twenty-four.
    assert_eq!(sec_to_timestamp(360_000), (0, 0, 100, false));
}

#[test]
fn round_trip_magnitude() {
    for &sec in &[0i64, 1, -1, 59, -59, 3600, -3661, 86399, -86400, 123_456_789, -987_654_321] {
        let (s, m, h, neg) = sec_to_timestamp(sec);
        assert_eq!(neg, sec < 0);
        assert_eq!(from_clock(h, m, s, neg), sec);
    }
}

#[test]
fn round_trip_extremes() {
    let (s, m, h, neg) = sec_to_timestamp(i64::MAX);
    assert_eq!(from_clock(h, m, s, neg), i64::MAX);
    let (s, m, h, neg) = sec_to_timestamp(i64::MIN);
    assert!(neg);
    assert_eq!(from_clock(h, m, s, neg), i64::MIN);
}

#[test]
fn render_positive() {
    assert_eq!(render_timestamp(0, 0, 0, false), "00:00:00");
    assert_eq!(render_timestamp(1, 2, 3, false), "01:02:03");
    assert_eq!(render_timestamp(23, 59, 59, false), "23:59:59");
}

#[test]
fn render_negative_sign() {
    assert_eq!(render_timestamp(0, 0, 1, true), "-00:00:01");
}

#[test]
fn render_wide_hours() {
    // An hour count of one hundred or more keeps all its digits.
    assert_eq!(render_timestamp(100, 0, 0, false), "100:00:00");
    assert_eq!(render_timestamp(2_562_047_788_015_215, 30, 7, true), "-2562047788015215:30:07");
}
