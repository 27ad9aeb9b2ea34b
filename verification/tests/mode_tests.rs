use tick_engine::clock::SECONDS_IN_DAY;
use tick_engine::mode::Mode;

#[test]
fn captions() {
    assert_eq!(Mode::Counter.get_desc(), "Time to Start Counting Up from:");
    assert_eq!(Mode::Timer.get_desc(), "Time to Start Counting Down from:");
    assert_eq!(Mode::SystemTime.get_desc(), "Time to add to Current Local Time:");
}

#[test]
fn display_names() {
    assert_eq!(Mode::Counter.display_name(), "Counter (Up)");
    assert_eq!(Mode::Timer.display_name(), "Timer (Down)");
    assert_eq!(Mode::SystemTime.display_name(), "SystemTime");
}

#[test]
fn default_mode_counts_up() {
    assert_eq!(Mode::default(), Mode::Counter);
}

#[test]
fn count_up_progression() {
    for n in 0..10u64 {
        let a = Mode::Counter.get_timestamp(10, n, 0);
        assert_eq!(a.value, 10 + n as i64);
        assert!(!a.saturated);
        assert!(!a.negative);
    }
}

#[test]
fn count_up_saturates_at_max() {
    let a = Mode::Counter.get_timestamp(i64::MAX - 2, 2, 0);
    assert_eq!(a.value, i64::MAX);
    assert!(!a.saturated);
    let b = Mode::Counter.get_timestamp(i64::MAX - 2, 3, 0);
    assert_eq!(b.value, i64::MAX);
    assert!(b.saturated);
}

#[test]
fn count_down_progression() {
    for n in 0..10u64 {
        let a = Mode::Timer.get_timestamp(5, n, 0);
        assert_eq!(a.value, 5 - n as i64);
        assert!(!a.saturated);
        assert_eq!(a.negative, n > 5);
    }
}

#[test]
fn count_down_saturates_at_min() {
    let a = Mode::Timer.get_timestamp(i64::MIN + 2, 2, 0);
    assert_eq!(a.value, i64::MIN);
    assert!(!a.saturated);
    let b = Mode::Timer.get_timestamp(i64::MIN + 2, 3, 0);
    assert_eq!(b.value, i64::MIN);
    assert!(b.saturated);
}

#[test]
fn count_down_past_due_display() {
    let a = Mode::Timer.get_timestamp(5, 6, 0);
    assert_eq!(a.value, -1);
    assert!(a.negative);
    assert_eq!((a.hours, a.minutes, a.seconds), (0, 0, 1));
}

#[test]
fn wall_clock_wraps_and_never_saturates() {
    // One hundred thousand ticks of wall-clock time: the value stays a
    // valid second-of-day and steps forward by one, wrapping at midnight.
    let start: i64 = 86_395;
    let mut previous: Option<i64> = None;
    for n in 0..100_000u64 {
        let tod = n % SECONDS_IN_DAY;
        let a = Mode::SystemTime.get_timestamp(start, n, tod);
        assert!(!a.saturated);
        assert!(!a.negative);
        assert!(0 <= a.value && a.value < SECONDS_IN_DAY as i64);
        if let Some(p) = previous {
            assert_eq!(a.value, (p + 1) % SECONDS_IN_DAY as i64);
        }
        previous = Some(a.value);
    }
}

#[test]
fn wall_clock_negative_offset() {
    let a = Mode::SystemTime.get_timestamp(-10, 99, 5);
    assert_eq!(a.value, 86_395);
    assert!(!a.saturated);
    assert!(!a.negative);
}

#[test]
fn wall_clock_huge_offsets_reduce_to_one_day() {
    let a = Mode::SystemTime.get_timestamp(i64::MAX, 0, 0);
    assert!(0 <= a.value && a.value < SECONDS_IN_DAY as i64);
    let b = Mode::SystemTime.get_timestamp(i64::MIN, 0, 0);
    assert!(0 <= b.value && b.value < SECONDS_IN_DAY as i64);
    let c = Mode::SystemTime.get_timestamp(86_400, 0, 123);
    assert_eq!(c.value, 123);
}
