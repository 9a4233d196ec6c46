use audit_viewer::clock::{age_is_known, epoch_ms, now_ms, rel_time};

#[test]
fn no_moment_has_no_age() {
    assert_eq!(rel_time(1_000_000, None), "");
}

#[test]
fn ages_use_the_largest_unit() {
    let now = 1_700_000_000_000;
    assert_eq!(rel_time(now, Some(now)), "0s");
    assert_eq!(rel_time(now, Some(now - 999)), "0s");
    assert_eq!(rel_time(now, Some(now - 1_000)), "1s");
    assert_eq!(rel_time(now, Some(now - 59_999)), "59s");
    assert_eq!(rel_time(now, Some(now - 60_000)), "1m");
    assert_eq!(rel_time(now, Some(now - 3_599_999)), "59m");
    assert_eq!(rel_time(now, Some(now - 3_600_000)), "1h");
    assert_eq!(rel_time(now, Some(now - 72_000_000_000)), "20000h");
}

#[test]
fn a_moment_ahead_is_now() {
    assert_eq!(rel_time(1_000, Some(90_000_000)), "0s");
    assert_eq!(rel_time(0, Some(i64::MAX)), "0s");
}

#[test]
fn extreme_spans_are_told_apart() {
    assert!(age_is_known(0, None));
    assert!(age_is_known(0, Some(i64::MAX)));
    assert!(age_is_known(-1, Some(i64::MIN)));
    assert!(!age_is_known(0, Some(i64::MIN)));
    assert!(!age_is_known(i64::MAX, Some(-1)));
    assert_eq!(rel_time(-1, Some(i64::MIN)), "2562047788015h");
}

#[test]
fn epoch_milliseconds_are_taken_over() {
    assert_eq!(epoch_ms(None), 0);
    assert_eq!(epoch_ms(Some(1_700_000_000_123)), 1_700_000_000_123);
    assert_eq!(epoch_ms(Some(u128::from(u64::MAX))), -1);
}

#[test]
fn the_clock_shows_a_time_after_the_epoch() {
    let first = now_ms();
    let second = now_ms();
    assert!(first > 1_500_000_000_000);
    assert!(second - first < 60_000);
}
