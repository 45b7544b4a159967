use chrono::{FixedOffset, Local, NaiveDate, TimeZone};
use loud_alarm::moment::Moment;
use loud_alarm::schedule::{
    local_target_offset, next_occurrence, next_occurrence_at_offset, seconds_until,
    target_local_seconds, validate,
};

fn at_offset(offset: i32, y: i32, mo: u32, d: u32, h: u32, mi: u32, s: u32) -> Moment {
    let dt = FixedOffset::east_opt(offset)
        .unwrap()
        .with_ymd_and_hms(y, mo, d, h, mi, s)
        .unwrap();
    Moment::new(dt.timestamp(), dt.timestamp_subsec_nanos(), dt.offset().local_minus_utc()).unwrap()
}

fn at(y: i32, mo: u32, d: u32, h: u32, mi: u32, s: u32) -> Moment {
    at_offset(0, y, mo, d, h, mi, s)
}

#[test]
fn later_today_stays_today() {
    let now = at(2026, 6, 22, 13, 30, 0);
    let next = next_occurrence(now, 17, 0);
    assert_eq!(next, at(2026, 6, 22, 17, 0, 0));
}

#[test]
fn earlier_today_rolls_to_tomorrow() {
    let now = at(2026, 6, 22, 18, 0, 0);
    let next = next_occurrence(now, 17, 0);
    assert_eq!(next, at(2026, 6, 23, 17, 0, 0));
}

#[test]
fn exactly_now_rolls_to_tomorrow() {
    let now = at(2026, 6, 22, 17, 0, 0);
    let next = next_occurrence(now, 17, 0);
    assert_eq!(next, at(2026, 6, 23, 17, 0, 0));
}

#[test]
fn seconds_until_is_correct_and_clamped() {
    let now = at(2026, 6, 22, 16, 59, 0);
    let target = at(2026, 6, 22, 17, 0, 0);
    assert_eq!(seconds_until(now, target), 60);
    assert_eq!(seconds_until(target, now), 0);
}

#[test]
fn validate_rejects_out_of_range() {
    assert!(validate(17, 0).is_ok());
    assert!(validate(23, 59).is_ok());
    assert!(validate(24, 0).is_err());
    assert!(validate(0, 60).is_err());
}

#[test]
fn validate_messages_name_the_field() {
    assert_eq!(validate(24, 0), Err("hour 24 out of range (0-23)".to_string()));
    assert_eq!(validate(25, 75), Err("hour 25 out of range (0-23)".to_string()));
    assert_eq!(validate(0, 60), Err("minute 60 out of range (0-59)".to_string()));
    assert_eq!(validate(4294967295, 0), Err("hour 4294967295 out of range (0-23)".to_string()));
    assert_eq!(validate(0, 0), Ok(()));
}

#[test]
fn seconds_within_the_minute_are_dropped() {
    let now = at(2026, 6, 22, 13, 30, 45);
    let next = next_occurrence(now, 13, 31);
    assert_eq!(next, at(2026, 6, 22, 13, 31, 0));
    let same_minute = next_occurrence(now, 13, 30);
    assert_eq!(same_minute, at(2026, 6, 23, 13, 30, 0));
}

#[test]
fn nanoseconds_are_dropped_and_count_toward_now() {
    let base = at(2026, 6, 22, 16, 59, 59);
    let now = Moment::new(base.timestamp, 500_000_000, 0).unwrap();
    let next = next_occurrence(now, 17, 0);
    assert_eq!(next, at(2026, 6, 22, 17, 0, 0));
    // Half a second away rounds down to zero whole seconds.
    assert_eq!(seconds_until(now, next), 0);
    assert_eq!(seconds_until(base, next), 1);
}

#[test]
fn local_time_follows_the_offset() {
    // 23:30 at UTC+02:00 is 21:30 UTC; 07:00 local comes the next local day.
    let now = at_offset(7200, 2026, 6, 22, 23, 30, 0);
    let next = next_occurrence(now, 7, 0);
    assert_eq!(next, at_offset(7200, 2026, 6, 23, 7, 0, 0));
    assert_eq!(next.offset, 7200);
    assert_eq!(seconds_until(now, next), 7 * 3600 + 30 * 60);
    // Negative offset: 01:00 at UTC-05:00 with a target of 23:59 stays on the same local day.
    let now = at_offset(-18000, 2026, 1, 1, 1, 0, 0);
    let next = next_occurrence(now, 23, 59);
    assert_eq!(next, at_offset(-18000, 2026, 1, 1, 23, 59, 0));
}

#[test]
fn next_occurrence_is_within_a_day() {
    for (h, m) in [(0u32, 0u32), (6, 15), (13, 30), (13, 29), (23, 59)] {
        let now = at(2026, 12, 31, 13, 30, 0);
        let next = next_occurrence(now, h, m);
        let secs = seconds_until(now, next);
        assert!(secs > 0 && secs <= 86_400, "{h}:{m} gave {secs}");
    }
}

#[test]
fn next_occurrence_before_the_epoch() {
    let now = at(1960, 3, 1, 10, 0, 0);
    let next = next_occurrence(now, 9, 0);
    assert_eq!(next, at(1960, 3, 2, 9, 0, 0));
}

#[test]
fn seconds_until_rounds_down() {
    let now = at(2026, 6, 22, 16, 0, 0);
    let target = Moment::new(now.timestamp + 90, 999_999_999, 0).unwrap();
    assert_eq!(seconds_until(now, target), 90);
    assert_eq!(seconds_until(now, now), 0);
}

#[test]
fn moment_new_checks_its_parts() {
    assert!(Moment::new(0, 0, 0).is_some());
    assert!(Moment::new(0, 1_000_000_000, 0).is_none());
    assert!(Moment::new(0, 0, 86_400).is_none());
    assert!(Moment::new(0, 0, -86_399).is_some());
    assert!(Moment::new(8_099_999_654_400, 0, 0).is_some());
    assert!(Moment::new(8_099_999_654_401, 0, 0).is_none());
    assert!(Moment::new(-8_099_999_654_400, 0, 0).is_some());
    assert!(Moment::new(-8_099_999_654_401, 0, 0).is_none());
}

#[test]
fn moment_comparisons_follow_the_instant() {
    let a = Moment::new(100, 5, 3600).unwrap();
    let b = Moment::new(100, 6, -3600).unwrap();
    assert!(b.is_after(&a));
    assert!(!a.is_after(&b));
    assert!(a.is_at_or_after(&a));
    assert!(!a.is_after(&a));
}

#[test]
fn next_occurrence_at_the_edge_of_the_range() {
    for ts in [8_099_999_654_400i64, -8_099_999_654_400] {
        for offset in [-86_399, 0, 86_399] {
            let now = Moment::new(ts, 999_999_999, offset).unwrap();
            for (h, m) in [(0u32, 0u32), (23, 59)] {
                let next = next_occurrence(now, h, m);
                let secs = seconds_until(now, next);
                assert!((0..=86_400).contains(&secs));
                assert!(next.is_after(&now));
                assert_eq!(next.nanos, 0);
                assert_eq!(next.offset, offset);
                let local = next.timestamp + next.offset as i64;
                assert_eq!(local.rem_euclid(86_400), (h * 3600 + m * 60) as i64);
            }
        }
    }
}

#[test]
fn next_occurrence_at_offset_reads_today_at_that_offset() {
    // At 01:00 (UTC+01:00) a clock that springs forward to UTC+02:00 later
    // today has 09:00 today at UTC+02:00.
    let now = at_offset(3600, 2026, 3, 29, 1, 0, 0);
    let next = next_occurrence_at_offset(now, 9, 0, 7200);
    assert_eq!(next, at_offset(7200, 2026, 3, 29, 9, 0, 0));
    assert_eq!(seconds_until(now, next), 7 * 3600);
    // At its own offset it is the fixed-offset schedule.
    assert_eq!(next_occurrence_at_offset(now, 9, 0, 3600), next_occurrence(now, 9, 0));
    assert_eq!(next_occurrence_at_offset(now, 0, 30, 3600), next_occurrence(now, 0, 30));
    // Passed today: one day (86 400 s) after today's time at that offset.
    let later = at_offset(3600, 2026, 3, 29, 12, 0, 0);
    let next = next_occurrence_at_offset(later, 9, 0, 7200);
    assert_eq!(next.timestamp, at_offset(7200, 2026, 3, 29, 9, 0, 0).timestamp + 86_400);
    assert_eq!(next.offset, 7200);
}

#[test]
fn local_target_offset_is_the_local_zone_offset() {
    let now = at(2026, 6, 22, 9, 0, 0);
    let naive = NaiveDate::from_ymd_opt(2026, 6, 22).unwrap().and_hms_opt(12, 0, 0).unwrap();
    let expected = Local.offset_from_local_datetime(&naive).single().map(|o| o.local_minus_utc());
    let (asked, answer) = local_target_offset(now, 12, 0);
    assert_eq!(asked, target_local_seconds(now, 12, 0));
    assert_eq!(asked, at(2026, 6, 22, 12, 0, 0).timestamp);
    assert_eq!(answer, expected);
}

#[test]
fn target_local_seconds_is_today_at_that_time() {
    let now = at_offset(7200, 2026, 6, 22, 23, 30, 15);
    let target = at_offset(7200, 2026, 6, 22, 6, 45, 0);
    assert_eq!(target_local_seconds(now, 6, 45), target.timestamp + 7200);
    let now = at_offset(-18000, 1969, 12, 31, 20, 0, 0);
    assert_eq!(target_local_seconds(now, 0, 0), -86_400);
}
