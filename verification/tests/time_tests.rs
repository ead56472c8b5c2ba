use syncplay_core::time::{add_ms, elapsed_ms, format_seconds, format_time, seconds_of, sub_ms};

#[test]
fn format_time_writes_minutes_and_seconds() {
    assert_eq!(format_time(0), "00:00");
    assert_eq!(format_time(10_000), "00:10");
    assert_eq!(format_time(100_000), "01:40");
    assert_eq!(format_time(59_499), "00:59");
    assert_eq!(format_time(59_500), "01:00");
}

#[test]
fn format_time_writes_hours_days_weeks() {
    assert_eq!(format_time(3_661_000), "01:01:01");
    assert_eq!(format_time(86_400_000 + 3_661_000), "1d, 01:01:01");
    assert_eq!(format_time(604_800_000 + 2 * 86_400_000 + 5_000), "1w, 2d, 00:00:05");
}

#[test]
fn format_time_writes_the_sign() {
    assert_eq!(format_time(-10_000), "-00:10");
    assert_eq!(format_time(-400), "00:00");
    assert_eq!(format_time(-500), "-00:01");
}

#[test]
fn format_seconds_writes_whole_seconds() {
    assert_eq!(format_seconds(10_000), "10");
    assert_eq!(format_seconds(0), "0");
    assert_eq!(format_seconds(1_499), "1");
    assert_eq!(format_seconds(1_500), "2");
    assert_eq!(format_seconds(-3_000), "-3");
}

#[test]
fn seconds_of_rounds_half_away_from_zero() {
    assert_eq!(seconds_of(499), 0);
    assert_eq!(seconds_of(500), 1);
    assert_eq!(seconds_of(-500), 1);
    assert_eq!(seconds_of(i64::MAX), 9_223_372_036_854_776);
    assert_eq!(seconds_of(i64::MIN), 9_223_372_036_854_776);
}

#[test]
fn sums_stay_in_range() {
    assert_eq!(add_ms(1, 2), 3);
    assert_eq!(add_ms(i64::MAX, 1), i64::MAX);
    assert_eq!(add_ms(i64::MIN, -1), i64::MIN);
    assert_eq!(sub_ms(5, 7), -2);
    assert_eq!(sub_ms(i64::MIN, 1), i64::MIN);
    assert_eq!(sub_ms(i64::MAX, -1), i64::MAX);
    assert_eq!(sub_ms(0, i64::MIN), i64::MAX);
}

#[test]
fn elapsed_is_never_negative() {
    assert_eq!(elapsed_ms(10, 3), 7);
    assert_eq!(elapsed_ms(3, 10), 0);
    assert_eq!(elapsed_ms(u64::MAX, 0), u64::MAX);
}
