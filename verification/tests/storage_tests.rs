use chrono::{Datelike, NaiveDate, TimeZone, Utc};
use db_back_tool::date::UtcTime;
use db_back_tool::error::Error;
use db_back_tool::storage::{
    any_non_empty, build_object_key, check_remote_upload_size, file_name, find_remote_item_by_key,
    select_expired_remote_files, CosItem,
};

fn utc(y: i32, m: u32, d: u32, hh: u32, mm: u32, ss: u32) -> UtcTime {
    let dt = Utc.from_utc_datetime(
        &NaiveDate::from_ymd_opt(y, m, d)
            .unwrap()
            .and_hms_opt(hh, mm, ss)
            .unwrap(),
    );
    UtcTime::from_timestamp(dt.timestamp(), dt.timestamp_subsec_nanos()).unwrap()
}

fn day(y: i32, m: u32, d: u32) -> i32 {
    NaiveDate::from_ymd_opt(y, m, d).unwrap().num_days_from_ce()
}

fn item(key: &str, time: UtcTime, size: u64) -> CosItem {
    CosItem {
        key: key.to_string(),
        last_modified: time,
        size,
    }
}

#[test]
fn test_select_expired_remote_files_uses_retention_days() {
    let today = day(2026, 6, 8);
    let files = vec![
        item("db/demo_20260608_010101.7z", utc(2026, 6, 8, 1, 1, 1), 10),
        item("db/demo_20260606_010101.7z", utc(2026, 6, 6, 1, 1, 1), 10),
    ];

    let expired = select_expired_remote_files(files, today, Some(2));
    assert_eq!(expired.len(), 1);
    assert_eq!(expired[0].key, "db/demo_20260606_010101.7z");
}

#[test]
fn test_find_remote_item_by_key_matches_exact_key() {
    let files = vec![item("db/demo.7z", utc(2026, 6, 8, 1, 1, 1), 10)];

    let matched = find_remote_item_by_key(&files, "db/demo.7z").unwrap();
    assert_eq!(matched.size, 10);
}

#[test]
fn find_remote_item_by_key_takes_the_first_match_and_rejects_prefixes() {
    let files = vec![
        item("db/demo.7z.bak", utc(2026, 6, 8, 1, 1, 1), 1),
        item("db/demo.7z", utc(2026, 6, 8, 1, 1, 1), 2),
        item("db/demo.7z", utc(2026, 6, 8, 1, 1, 1), 3),
    ];
    assert_eq!(find_remote_item_by_key(&files, "db/demo.7z").unwrap().size, 2);
    assert!(find_remote_item_by_key(&files, "db/demo").is_none());
    assert!(find_remote_item_by_key(&[], "db/demo.7z").is_none());
}

#[test]
fn test_verify_remote_upload_size_detects_mismatch() {
    let files = vec![item("db/demo.7z", utc(2026, 6, 8, 1, 1, 1), 3)];
    let (_, key) = build_object_key("/tmp/demo.7z", "db").unwrap();

    let err = check_remote_upload_size(&files, &key, 5).unwrap_err();
    assert!(matches!(err, Error::Integrity(message) if message.contains("size mismatch")));
}

#[test]
fn remote_upload_size_messages_are_exact() {
    let files = vec![item("db/demo.7z", utc(2026, 6, 8, 1, 1, 1), 3)];
    match check_remote_upload_size(&files, "db/demo.7z", 12345).unwrap_err() {
        Error::Integrity(m) => assert_eq!(
            m,
            "uploaded object 'db/demo.7z' size mismatch: local=12345, remote=3"
        ),
        other => panic!("unexpected error: {other:?}"),
    }
    match check_remote_upload_size(&files, "db/other.7z", 3).unwrap_err() {
        Error::Integrity(m) => assert_eq!(
            m,
            "uploaded object 'db/other.7z' not found during verification"
        ),
        other => panic!("unexpected error: {other:?}"),
    }
    assert!(check_remote_upload_size(&files, "db/demo.7z", 3).is_ok());
}

#[test]
fn test_build_object_key_supports_prefix_without_trailing_slash() {
    let (file_name, key) = build_object_key("/tmp/demo.7z", "db").unwrap();
    assert_eq!(file_name, "demo.7z");
    assert_eq!(key, "db/demo.7z");
}

#[test]
fn build_object_key_keeps_a_trailing_slash_and_rejects_nameless_paths() {
    let (file_name, key) = build_object_key("/var/backups/mydb_20260608_020000.7z", "db/").unwrap();
    assert_eq!(file_name, "mydb_20260608_020000.7z");
    assert_eq!(key, "db/mydb_20260608_020000.7z");

    match build_object_key("/tmp/..", "db") {
        Err(Error::InvalidConfig(m)) => assert_eq!(m, "Invalid file path: /tmp/.."),
        other => panic!("unexpected result: {other:?}"),
    }
}

#[test]
fn select_expired_remote_files_skips_empty_objects_and_keeps_order() {
    let today = day(2026, 6, 8);
    let files = vec![
        item("a", utc(2026, 6, 1, 0, 0, 0), 5),
        item("b", utc(2026, 6, 1, 0, 0, 0), 0),
        item("c", utc(2026, 6, 7, 23, 59, 59), 5),
        item("d", utc(2026, 5, 1, 12, 0, 0), 7),
    ];
    let keys: Vec<String> = select_expired_remote_files(files, today, None)
        .into_iter()
        .map(|i| i.key)
        .collect();
    assert_eq!(keys, vec!["a".to_string(), "d".to_string()]);
}

#[test]
fn cos_items_compare_by_modification_time() {
    let a = item("a", utc(2026, 6, 1, 0, 0, 0), 5);
    let b = item("b", utc(2026, 6, 1, 0, 0, 0), 9);
    let c = item("c", utc(2026, 6, 2, 0, 0, 0), 5);
    assert!(a == b);
    assert!(a < c);
    assert!(c > b);
}

#[test]
fn object_keys_from_given_file_names() {
    let (n, k) = db_back_tool::storage::object_key_from_name("/x/a.7z", "db", Some("a.7z".to_string())).unwrap();
    assert_eq!((n.as_str(), k.as_str()), ("a.7z", "db/a.7z"));
    let (_, k) = db_back_tool::storage::object_key_from_name("/x/a.7z", "", Some("a.7z".to_string())).unwrap();
    assert_eq!(k, "/a.7z");
    match db_back_tool::storage::object_key_from_name("/", "db", None) {
        Err(Error::InvalidConfig(m)) => assert_eq!(m, "Invalid file path: /"),
        other => panic!("unexpected result: {other:?}"),
    }
}

#[test]
fn file_names_follow_unix_paths() {
    let cases = [
        "/tmp/demo.7z", "demo.7z", "a/b/", "a/b//", "a/b/.", "a/./b/./", "a/..", "..", ".", "./",
        "/", "//", "", "./a", "/a/.b", "a/.../", "x/..y", "../a", "a//b",
    ];
    for p in cases {
        let expected = std::path::Path::new(p)
            .file_name()
            .map(|n| n.to_string_lossy().into_owned());
        assert_eq!(file_name(p), expected, "path {p:?}");
    }
    assert_eq!(file_name("/tmp/demo.7z"), Some("demo.7z".to_string()));
    assert_eq!(file_name("foo.txt/."), Some("foo.txt".to_string()));
    assert_eq!(file_name("foo.txt/.."), None);
}

#[test]
fn empty_listings_need_no_retention_cutoff() {
    let today = day(2026, 6, 8);
    assert!(select_expired_remote_files(Vec::new(), today, Some(u32::MAX)).is_empty());
    let files = vec![item("a", utc(2026, 6, 1, 0, 0, 0), 0), item("b", utc(1990, 1, 1, 0, 0, 0), 0)];
    assert!(!any_non_empty(&files));
    assert!(select_expired_remote_files(files, today, Some(u32::MAX)).is_empty());
    assert!(any_non_empty(&[item("c", utc(2026, 6, 1, 0, 0, 0), 1)]));
}
