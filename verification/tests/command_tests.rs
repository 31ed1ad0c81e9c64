use db_back_tool::cleanup::{plan_local_cleanup, retention_cutoff_needed, select_local_backups_to_remove};
use db_back_tool::storage::select_expired_remote_files;
use db_back_tool::command::{
    check_file_non_empty, Action, BackupJob, DeleteJob, Event, UploadJob,
};
use db_back_tool::config::{AppConfig, CosProvider, DbType};
use db_back_tool::date::UtcTime;
use db_back_tool::error::{Error, IoError, IoErrorKind};
use db_back_tool::storage::CosItem;

fn app(provider: CosProvider) -> AppConfig {
    AppConfig {
        backup_dir: b"/var/backups".to_vec(),
        db_type: DbType::Postgresql,
        cos_provider: provider,
        cos_path: "db".to_string(),
        compress_password: "pwd".to_string(),
        retention_days: None,
    }
}

fn at_day(secs: i64) -> UtcTime {
    UtcTime::from_timestamp(secs, 0).unwrap()
}

#[test]
fn empty_and_unreadable_files_are_reported() {
    assert_eq!(check_file_non_empty("a.7z", Ok(5)).unwrap(), 5);
    match check_file_non_empty("a.7z", Ok(0)) {
        Err(Error::Integrity(m)) => assert_eq!(m, "file 'a.7z' is empty"),
        other => panic!("unexpected: {other:?}"),
    }
    let io = IoError { kind: IoErrorKind::NotFound, message: "no such file".to_string() };
    match check_file_non_empty("a.7z", Err(io)) {
        Err(Error::Io(e)) => {
            assert_eq!(e.kind, IoErrorKind::NotFound);
            assert_eq!(e.message, "Failed to stat file 'a.7z': no such file");
        }
        other => panic!("unexpected: {other:?}"),
    }
}

#[test]
fn backup_runs_dump_compress_check_remove_notify() {
    let job = BackupJob::new("mydb".into(), "/var/backups".into(), "pwd".into(), true);
    let (job, a) = job.step(Event::Started);
    assert!(matches!(a, Action::Dump { ref database_name, ref backup_dir } if database_name == "mydb" && backup_dir == "/var/backups"));
    let (job, a) = job.step(Event::Dumped(Ok("/var/backups/mydb_x.sql".into())));
    assert!(matches!(a, Action::Compress { ref input, ref password } if input == "/var/backups/mydb_x.sql" && password == "pwd"));
    let (job, a) = job.step(Event::Compressed(Ok("/var/backups/mydb_x.7z".into())));
    assert!(matches!(a, Action::Measure { ref path } if path == "/var/backups/mydb_x.7z"));
    let (job, a) = job.step(Event::Measured(Ok(42)));
    assert!(matches!(a, Action::RemoveFile { ref path } if path == "/var/backups/mydb_x.sql"));
    let (job, a) = job.step(Event::Removed);
    match a {
        Action::Notify { data } => {
            assert_eq!(data.title, "备份进度");
            assert_eq!(data.message, "数据库 mydb 备份成功");
        }
        other => panic!("unexpected: {other:?}"),
    }
    let (_, a) = job.step(Event::Notified(Err("timeout".into())));
    assert!(matches!(a, Action::Finish { result: Err(Error::Notification(ref m)) } if m == "timeout"));
}

#[test]
fn backup_keeps_the_dump_when_the_archive_is_empty() {
    let job = BackupJob::new("mydb".into(), "/b".into(), "pwd".into(), false);
    let (job, _) = job.step(Event::Started);
    let (job, _) = job.step(Event::Dumped(Ok("/b/d.sql".into())));
    let (job, _) = job.step(Event::Compressed(Ok("/b/d.7z".into())));
    let (_, a) = job.step(Event::Measured(Ok(0)));
    assert!(matches!(a, Action::Finish { result: Err(Error::Integrity(ref m)) } if m == "file '/b/d.7z' is empty"));
}

#[test]
fn backup_without_webhook_finishes_after_removal() {
    let job = BackupJob::new("mydb".into(), "/b".into(), "pwd".into(), false);
    let (job, _) = job.step(Event::Started);
    let (job, _) = job.step(Event::Dumped(Ok("/b/d.sql".into())));
    let (job, _) = job.step(Event::Compressed(Ok("/b/d.7z".into())));
    let (job, _) = job.step(Event::Measured(Ok(9)));
    let (_, a) = job.step(Event::Removed);
    assert!(matches!(a, Action::Finish { result: Ok(()) }));
}

#[test]
fn upload_requires_a_file_or_all() {
    let job = UploadJob::new(None, false, &app(CosProvider::S3), false);
    let (_, a) = job.step(Event::Started);
    assert!(matches!(a, Action::Finish { result: Err(Error::CommandExecution(ref m)) } if m == "Please specify either --file or --all flag"));
}

#[test]
fn upload_of_a_missing_file_fails() {
    let job = UploadJob::new(Some("/b/x.7z".into()), false, &app(CosProvider::S3), false);
    let (job, a) = job.step(Event::Started);
    assert!(matches!(a, Action::CheckExists { ref path } if path == "/b/x.7z"));
    let (_, a) = job.step(Event::Exists(false));
    assert!(matches!(a, Action::Finish { result: Err(Error::FileNotFound(ref p)) } if p == "/b/x.7z"));
}

#[test]
fn upload_of_a_file_is_verified_remotely() {
    let job = UploadJob::new(Some("/b/x.7z".into()), false, &app(CosProvider::TencentCos), true);
    let (job, _) = job.step(Event::Started);
    let (job, _) = job.step(Event::Exists(true));
    let (job, a) = job.step(Event::Measured(Ok(5)));
    assert!(matches!(a, Action::UploadFile { ref path, ref cos_path } if path == "/b/x.7z" && cos_path == "db"));
    let (job, a) = job.step(Event::FileUploaded(true));
    assert!(matches!(a, Action::List { ref prefix } if prefix == "db/x.7z"));
    let listing = vec![CosItem { key: "db/x.7z".into(), last_modified: at_day(0), size: 5 }];
    let (job, a) = job.step(Event::Listed(Ok(listing)));
    match a {
        Action::Notify { data } => assert_eq!(data.message, "/b/x.7z 上传成功"),
        other => panic!("unexpected: {other:?}"),
    }
    let (_, a) = job.step(Event::Notified(Ok(())));
    assert!(matches!(a, Action::Finish { result: Ok(()) }));
}

#[test]
fn upload_failure_is_reported_with_the_path() {
    let job = UploadJob::new(Some("/b/x.7z".into()), false, &app(CosProvider::S3), false);
    let (job, _) = job.step(Event::Started);
    let (job, _) = job.step(Event::Exists(true));
    let (job, _) = job.step(Event::Measured(Ok(5)));
    let (_, a) = job.step(Event::FileUploaded(false));
    assert!(matches!(a, Action::Finish { result: Err(Error::StorageUpload { ref path, ref message }) } if path == "/b/x.7z" && message == "upload failed"));
}

#[test]
fn local_upload_of_everything_skips_remote_checks() {
    let job = UploadJob::new(None, true, &app(CosProvider::LocalStorage), true);
    let (job, a) = job.step(Event::Started);
    assert!(matches!(a, Action::UploadAll { ref dir, ref cos_path } if dir == b"/var/backups" && cos_path == "db"));
    let (_, a) = job.step(Event::AllUploaded(Some(vec!["/var/backups/a.7z".into()])));
    match a {
        Action::Notify { data } => assert_eq!(data.message, "所有备份文件上传成功"),
        other => panic!("unexpected: {other:?}"),
    }
}

#[test]
fn remote_upload_of_everything_checks_each_archive() {
    let job = UploadJob::new(None, true, &app(CosProvider::AliyunOss), false);
    let (job, _) = job.step(Event::Started);
    let paths = vec!["/var/backups/a.7z".to_string(), "/var/backups/b.7z".to_string()];
    let (job, a) = job.step(Event::AllUploaded(Some(paths)));
    assert!(matches!(a, Action::Measure { ref path } if path == "/var/backups/a.7z"));
    let (job, a) = job.step(Event::Measured(Ok(3)));
    assert!(matches!(a, Action::List { ref prefix } if prefix == "db/a.7z"));
    let listing = vec![CosItem { key: "db/a.7z".into(), last_modified: at_day(0), size: 3 }];
    let (job, a) = job.step(Event::Listed(Ok(listing)));
    assert!(matches!(a, Action::Measure { ref path } if path == "/var/backups/b.7z"));
    let (job, _) = job.step(Event::Measured(Ok(4)));
    let listing = vec![CosItem { key: "db/b.7z".into(), last_modified: at_day(0), size: 2 }];
    let (_, a) = job.step(Event::Listed(Ok(listing)));
    assert!(matches!(a, Action::Finish { result: Err(Error::Integrity(ref m)) } if m == "uploaded object 'db/b.7z' size mismatch: local=4, remote=2"));
}

#[test]
fn upload_of_everything_reports_a_failed_batch() {
    let job = UploadJob::new(None, true, &app(CosProvider::S3), false);
    let (job, _) = job.step(Event::Started);
    let (_, a) = job.step(Event::AllUploaded(None));
    assert!(matches!(a, Action::Finish { result: Err(Error::Storage(ref m)) } if m == "upload failed"));
}

#[test]
fn delete_requires_a_key_or_all() {
    let job = DeleteJob::new(None, false, "db".into(), None, 739775);
    let (_, a) = job.step(Event::Started);
    assert!(matches!(a, Action::Finish { result: Err(Error::CommandExecution(ref m)) } if m == "Please specify either --key or --all flag"));
}

#[test]
fn delete_by_key_reports_the_storage_error() {
    let job = DeleteJob::new(Some("db/x.7z".into()), false, "db".into(), None, 739775);
    let (job, a) = job.step(Event::Started);
    assert!(matches!(a, Action::Delete { ref key } if key == "db/x.7z"));
    let (_, a) = job.step(Event::Deleted(Err("denied".into())));
    assert!(matches!(a, Action::Finish { result: Err(Error::StorageDelete { ref key, ref message }) } if key == "db/x.7z" && message == "denied"));
}

#[test]
fn delete_all_removes_expired_objects_in_order() {
    // 2026-06-08 is day 739775; 1780963200 is 2026-06-09T00:00:00Z.
    let day_secs = |days_before_june_9: i64| 1780963200 - days_before_june_9 * 86400 + 3600;
    let listing = vec![
        CosItem { key: "db/old1.7z".into(), last_modified: at_day(day_secs(5)), size: 9 },
        CosItem { key: "db/today.7z".into(), last_modified: at_day(day_secs(1)), size: 9 },
        CosItem { key: "db/empty.7z".into(), last_modified: at_day(day_secs(5)), size: 0 },
        CosItem { key: "db/old2.7z".into(), last_modified: at_day(day_secs(3)), size: 9 },
    ];
    let job = DeleteJob::new(None, true, "db".into(), None, 739775);
    let (job, a) = job.step(Event::Started);
    assert!(matches!(a, Action::List { ref prefix } if prefix == "db"));
    let (job, a) = job.step(Event::Listed(Ok(listing)));
    assert!(matches!(a, Action::Delete { ref key } if key == "db/old1.7z"));
    let (job, a) = job.step(Event::Deleted(Ok(())));
    assert!(matches!(a, Action::Delete { ref key } if key == "db/old2.7z"));
    let (_, a) = job.step(Event::Deleted(Err("boom".into())));
    assert!(matches!(a, Action::Finish { result: Err(Error::StorageDelete { ref key, ref message }) } if key == "db/old2.7z" && message == "delete failed"));
}

#[test]
fn delete_all_with_nothing_expired_finishes() {
    let job = DeleteJob::new(None, true, "db".into(), Some(30), 739775);
    let (job, _) = job.step(Event::Started);
    let (_, a) = job.step(Event::Listed(Ok(Vec::new())));
    assert!(matches!(a, Action::Finish { result: Ok(()) }));
}

#[test]
fn a_failed_dump_ends_the_backup_with_its_error() {
    let job = BackupJob::new("mydb".into(), "/b".into(), "pwd".into(), true);
    let (job, _) = job.step(Event::Started);
    let failure = Error::DatabaseBackup("pg_dump failed for database mydb: boom".into());
    let (_, a) = job.step(Event::Dumped(Err(failure)));
    assert!(matches!(a, Action::Finish { result: Err(Error::DatabaseBackup(ref m)) } if m.ends_with("boom")));
}

#[test]
fn local_and_remote_cleanup_agree_on_each_day() {
    // Day 739775 is 2026-06-08; 1780876800 is its midnight in UTC.
    let today = 739775;
    let midnight = 1780876800i64;
    for days_back in 0..6i64 {
        for retention in [None, Some(1), Some(3)] {
            let secs = midnight - days_back * 86400 + 60;
            let name = db_back_tool::date::UtcTime::from_timestamp(secs, 0)
                .unwrap()
                .format_backup_stamp();
            let names = vec![Some(format!("db_{name}.7z"))];
            let local = !select_local_backups_to_remove(&names, &names, today, retention).is_empty();
            let remote = !select_expired_remote_files(
                vec![CosItem { key: format!("db/db_{name}.7z"), last_modified: at_day(secs), size: 1 }],
                today,
                retention,
            )
            .is_empty();
            assert_eq!(local, remote, "day -{days_back}, retention {retention:?}");
        }
    }
}

#[test]
fn delete_all_judges_empty_listings_without_a_cutoff() {
    // With a retention of u32::MAX days no cutoff is representable, yet a
    // listing of empty objects deletes nothing and the command succeeds.
    let job = DeleteJob::new(None, true, "db".into(), Some(u32::MAX), 739775);
    let (job, a) = job.step(Event::Started);
    assert!(matches!(a, Action::List { ref prefix } if prefix == "db"));
    let listing = vec![CosItem { key: "db/e.7z".into(), last_modified: at_day(0), size: 0 }];
    let (_, a) = job.step(Event::Listed(Ok(listing)));
    assert!(matches!(a, Action::Finish { result: Ok(()) }));

    let job = DeleteJob::new(None, true, "db".into(), Some(u32::MAX), 739775);
    let (job, _) = job.step(Event::Started);
    let (_, a) = job.step(Event::Listed(Err("offline".into())));
    assert!(matches!(a, Action::Finish { result: Err(Error::StorageList(ref m)) } if m == "offline"));
}

#[test]
fn cleanup_needs_a_cutoff_only_for_listed_dates() {
    let known = vec![Some("a_20260101_000000.7z".to_string()), None];
    let undated = vec![Some("notes.7z".to_string()), None, Some("b_20260102_000000.7z".to_string())];
    assert!(!retention_cutoff_needed(&known, &undated));
    assert!(select_local_backups_to_remove(&known, &undated, 739775, Some(u32::MAX)).is_empty());
    let dated = vec![None, Some("c_20260101_120000.7z".to_string())];
    assert!(retention_cutoff_needed(&known, &dated));
    assert!(!retention_cutoff_needed(&Vec::new(), &dated));
}

#[test]
fn stat_failures_keep_their_kind() {
    let io = IoError { kind: IoErrorKind::PermissionDenied, message: "denied".to_string() };
    match check_file_non_empty("a.7z", Err(io)) {
        Err(Error::Io(e)) => assert_eq!(e.kind, IoErrorKind::PermissionDenied),
        other => panic!("unexpected: {other:?}"),
    }
}

#[test]
fn local_cleanup_plan_refuses_only_when_a_listed_date_meets_no_cutoff() {
    let known = vec![Some("a_20260101_000000.7z".to_string())];
    let dated = vec![Some("notes.7z".to_string()), Some("c_20260101_120000.7z".to_string())];
    assert_eq!(plan_local_cleanup(&known, &dated, 739775, Some(u32::MAX)), None);
    assert_eq!(plan_local_cleanup(&known, &dated, 739775, None), Some(vec![1]));
    let undated = vec![Some("notes.7z".to_string()), None];
    assert_eq!(plan_local_cleanup(&known, &undated, 739775, Some(u32::MAX)), Some(vec![]));
}
