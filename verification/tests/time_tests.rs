use capybara::time::{format_duration, format_position, Duration};

#[test]
fn format_duration_of_nothing_is_not_available() {
    assert_eq!(format_duration(Duration::zero()), "n/a");
    assert_eq!(format_duration(Duration::from_millis(999)), "n/a");
}

#[test]
fn format_duration_seconds_only() {
    assert_eq!(format_duration(Duration::from_secs(5)), "5s");
    assert_eq!(format_duration(Duration::from_secs(59)), "59s");
    assert_eq!(format_duration(Duration::from_millis(1999)), "1s");
}

#[test]
fn format_duration_minutes() {
    assert_eq!(format_duration(Duration::from_secs(60)), "1m");
    assert_eq!(format_duration(Duration::from_secs(65)), "1m 5s");
    assert_eq!(format_duration(Duration::from_secs(180)), "3m");
    assert_eq!(format_duration(Duration::from_secs(420)), "7m");
    assert_eq!(format_duration(Duration::from_secs(3599)), "59m 59s");
}

#[test]
fn format_duration_hours() {
    assert_eq!(format_duration(Duration::from_secs(3600)), "1h");
    assert_eq!(format_duration(Duration::from_secs(3605)), "1h 5s");
    assert_eq!(format_duration(Duration::from_secs(3660)), "1h 1m");
    assert_eq!(format_duration(Duration::from_secs(3661)), "1h 1m 1s");
    assert_eq!(format_duration(Duration::from_secs(90000)), "25h");
}

#[test]
fn format_duration_of_the_longest_std_span() {
    let d = Duration::from_secs(u64::MAX);
    assert_eq!(format_duration(d), "5124095576030431h 15s");
}

#[test]
fn duration_constructors_agree() {
    assert_eq!(Duration::from_secs(2), Duration::from_millis(2000));
    assert_eq!(Duration::from_secs(2), Duration::from_nanos(2_000_000_000));
    assert_eq!(Duration::from_secs(2).as_nanos(), 2_000_000_000);
    assert_eq!(Duration::from_millis(2999).as_secs(), 2);
    assert!(Duration::zero().is_zero());
    assert!(!Duration::from_nanos(1).is_zero());
}

#[test]
fn duration_sums_saturate() {
    let a = Duration::from_secs(180);
    let b = Duration::from_secs(240);
    assert_eq!(a.saturating_add(b), Duration::from_secs(420));
    let top = Duration::from_nanos(u128::MAX);
    assert_eq!(top.saturating_add(a), top);
}

#[test]
fn duration_differences() {
    let a = Duration::from_secs(180);
    let b = Duration::from_secs(240);
    assert_eq!(b.checked_sub(a), Some(Duration::from_secs(60)));
    assert_eq!(a.checked_sub(b), None);
    assert_eq!(a.checked_sub(a), Some(Duration::zero()));
    assert_eq!(b.saturating_sub(a), Duration::from_secs(60));
    assert_eq!(a.saturating_sub(b), Duration::zero());
}

#[test]
fn debug_string_picks_the_unit() {
    assert_eq!(Duration::zero().debug_string(), "0ns");
    assert_eq!(Duration::from_nanos(999).debug_string(), "999ns");
    assert_eq!(Duration::from_nanos(1_000).debug_string(), "1µs");
    assert_eq!(Duration::from_nanos(1_500).debug_string(), "1.5µs");
    assert_eq!(Duration::from_millis(250).debug_string(), "250ms");
    assert_eq!(Duration::from_nanos(1_234_000).debug_string(), "1.234ms");
    assert_eq!(Duration::from_secs(30).debug_string(), "30s");
    assert_eq!(Duration::from_millis(1_500).debug_string(), "1.5s");
    assert_eq!(Duration::from_nanos(1_000_000_001).debug_string(), "1.000000001s");
    assert_eq!(Duration::from_millis(90_250).debug_string(), "90.25s");
    assert_eq!(Duration::from_millis(10_050).debug_string(), "10.05s");
}

#[test]
fn debug_string_agrees_with_std() {
    let samples: [u64; 16] = [
        0,
        1,
        12,
        999,
        1_000,
        1_001,
        20_500,
        999_999,
        1_000_000,
        1_000_100,
        123_456_789,
        1_000_000_000,
        1_000_000_010,
        59_999_999_999,
        3_600_000_000_000,
        u64::MAX,
    ];
    for n in samples {
        let expected = format!("{:?}", std::time::Duration::from_nanos(n));
        assert_eq!(Duration::from_nanos(n as u128).debug_string(), expected);
    }
}

#[test]
fn format_duration_puts_one_blank_between_units_and_none_behind() {
    assert_eq!(format_duration(Duration::from_secs(7200 + 5)), "2h 5s");
    assert_eq!(format_duration(Duration::from_secs(3600 + 120)), "1h 2m");
    assert_eq!(format_duration(Duration::from_secs(3725)), "1h 2m 5s");
    for secs in [1u64, 59, 60, 61, 3599, 3600, 3601, 86399, 86400] {
        let text = format_duration(Duration::from_secs(secs));
        assert!(!text.ends_with(' '));
        assert!(!text.starts_with(' '));
        assert!(!text.contains("  "));
    }
}

#[test]
fn format_position_shows_the_start_as_zero_seconds() {
    assert_eq!(format_position(Duration::zero()), "0s");
    assert_eq!(format_position(Duration::from_millis(999)), "0s");
    assert_eq!(format_position(Duration::from_secs(1)), "1s");
    assert_eq!(format_position(Duration::from_secs(45)), "45s");
    assert_eq!(format_position(Duration::from_secs(60)), "1m");
    assert_eq!(format_position(Duration::from_secs(3661)), "1h 1m 1s");
}
