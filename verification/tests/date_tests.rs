use chrono::{Datelike, Duration, NaiveDate, TimeZone, Utc};
use db_back_tool::date::{
    backup_date_text,
    is_expired_by_retention_days, is_yesterday_before, parse_backup_date,
    retention_cutoff_day, retention_days_or_default, UtcTime,
};

fn day(y: i32, m: u32, d: u32) -> i32 {
    NaiveDate::from_ymd_opt(y, m, d).unwrap().num_days_from_ce()
}

#[test]
fn test_parse_backup_date_extracts_date_from_filename() {
    let date = parse_backup_date("mydb_20260608_143025.7z").unwrap();
    assert_eq!(date, NaiveDate::from_ymd_opt(2026, 6, 8).unwrap().num_days_from_ce());
}

#[test]
fn parse_backup_date_handles_underscores_and_rejects_other_names() {
    assert_eq!(parse_backup_date("my_db_20260101_000000.7z"), Some(day(2026, 1, 1)));
    assert_eq!(parse_backup_date("20260101_000000.7z"), Some(day(2026, 1, 1)));
    assert_eq!(parse_backup_date("mydb_20260608_143025.sql"), None);
    assert_eq!(parse_backup_date("mydb.7z"), None);
    assert_eq!(parse_backup_date("mydb_20261340_143025.7z"), None);
    assert_eq!(parse_backup_date(".7z"), None);
}

#[test]
fn test_is_expired_by_retention_days_keeps_recent_two_days_by_default() {
    let today = day(2026, 6, 8);
    assert!(!is_expired_by_retention_days(day(2026, 6, 8), today, None));
    assert!(!is_expired_by_retention_days(day(2026, 6, 7), today, None));
    assert!(is_expired_by_retention_days(day(2026, 6, 6), today, None));
}

#[test]
fn retention_days_set_the_window() {
    let today = day(2026, 6, 8);
    assert_eq!(retention_days_or_default(None), 2);
    assert_eq!(retention_days_or_default(Some(7)), 7);
    assert!(!is_expired_by_retention_days(day(2026, 6, 2), today, Some(7)));
    assert!(is_expired_by_retention_days(day(2026, 6, 1), today, Some(7)));
    assert!(!is_expired_by_retention_days(day(2026, 6, 8), today, Some(1)));
    assert!(is_expired_by_retention_days(day(2026, 6, 7), today, Some(1)));
    assert!(is_expired_by_retention_days(day(2026, 6, 8), today, Some(0)));
    assert_eq!(retention_cutoff_day(today, Some(7)), Some(day(2026, 6, 2)));
    assert_eq!(retention_cutoff_day(today, Some(u32::MAX)), None);
}

#[test]
fn days_of_instants_follow_utc() {
    let t = Utc.with_ymd_and_hms(2026, 6, 8, 23, 59, 59).unwrap();
    let u = UtcTime::from_timestamp(t.timestamp(), 0).unwrap();
    assert_eq!(u.date_naive(), day(2026, 6, 8));
    let before_epoch = UtcTime::from_timestamp(-1, 0).unwrap();
    assert_eq!(before_epoch.date_naive(), day(1969, 12, 31));
    assert!(UtcTime::from_timestamp(i64::MAX, 0).is_none());
    assert!(UtcTime::from_timestamp(0, 1_500_000_000).is_none());
    assert!(UtcTime::from_timestamp(59, 1_500_000_000).is_some());
    assert_eq!(u.format_backup_stamp(), "20260608_235959");
}

#[test]
fn is_yesterday_before_compares_with_the_day_before_today() {
    let today = Utc::now().date_naive();
    let at = |d: NaiveDate| {
        let t = Utc.from_utc_datetime(&d.and_hms_opt(12, 0, 0).unwrap());
        UtcTime::from_timestamp(t.timestamp(), 0).unwrap()
    };
    let t = today.num_days_from_ce();
    assert!(!is_yesterday_before(at(today), t));
    assert!(!is_yesterday_before(at(today - Duration::days(1)), t));
    assert!(is_yesterday_before(at(today - Duration::days(2)), t));
}

#[test]
fn backup_date_text_takes_the_field_before_the_time() {
    assert_eq!(backup_date_text("mydb_20260608_143025.7z"), Some("20260608"));
    assert_eq!(backup_date_text("a_b_c_d.7z"), Some("c"));
    assert_eq!(backup_date_text("x_y.7z"), Some("x"));
    assert_eq!(backup_date_text("xy.7z"), None);
    assert_eq!(backup_date_text("x_y_z.zip"), None);
}

#[test]
fn a_longer_retention_keeps_more() {
    let today = day(2026, 6, 8);
    for back in 0..20 {
        let d = today - back;
        if is_expired_by_retention_days(d, today, Some(10)) {
            assert!(is_expired_by_retention_days(d, today, Some(5)));
            assert!(is_expired_by_retention_days(d, today, None));
        }
        assert_eq!(is_expired_by_retention_days(d, today, Some(10)), back >= 10);
    }
}

#[test]
fn backup_stamps_read_back_as_their_day() {
    // 2026-06-08T02:10:25Z, the first day of year 1 and the last of 9999.
    for (secs, y, m, d) in [
        (1780884625i64, 2026, 6, 8),
        (-62135596800, 1, 1, 1),
        (253402300799, 9999, 12, 31),
    ] {
        let stamp = UtcTime::from_timestamp(secs, 0).unwrap().format_backup_stamp();
        assert_eq!(stamp.len(), 15);
        for db in ["mydb", "my_db", ""] {
            assert_eq!(parse_backup_date(&format!("{db}_{stamp}.7z")), Some(day(y, m, d)));
        }
    }
    assert_eq!(UtcTime::from_timestamp(1780884625, 0).unwrap().format_backup_stamp(), "20260608_021025");
    assert_eq!(UtcTime::from_timestamp(-62135596800, 0).unwrap().format_backup_stamp(), "00010101_000000");
}
