use chrono::{Datelike, Duration, Utc};
use db_back_tool::cleanup::{backup_glob_pattern, select_local_backups_to_remove};
use db_back_tool::compression::{compress_command, compression_failure, explain_7z_spawn_error, path_with_7z_extension};
use db_back_tool::config::{
    get_webhook, password_from_file, password_source, path_join, AliyunOssConfig, AllConfig,
    AppConfig, CosProvider, DbType, MySqlConfig, PasswordSource, PostgreSqlConfig, S3OssConfig,
    StorageTarget, TencentCosConfig, WebHookConfig,
};
use db_back_tool::database::{dump_failure, DatabaseClient, MySql, PostgreSql};
use db_back_tool::date::UtcTime;
use db_back_tool::error::{Error, IoError, IoErrorKind};
use db_back_tool::text::trim;

fn all_config(db_type: DbType, webhook: Option<WebHookConfig>) -> AllConfig {
    AllConfig {
        app: AppConfig {
            backup_dir: b"/tmp/dbbackup".to_vec(),
            db_type,
            cos_provider: CosProvider::TencentCos,
            cos_path: "db/".to_string(),
            compress_password: "testpassword".to_string(),
            retention_days: Some(7),
        },
        tencent_cos: TencentCosConfig {
            secret_id: "testid".to_string(),
            secret_key: "testkey".to_string(),
            region: "ap-guangzhou".to_string(),
            bucket: "testbucket".to_string(),
        },
        postgresql: PostgreSqlConfig {
            host: "localhost".to_string(),
            port: 5432,
            username: "user".to_string(),
            password: "pass".to_string(),
        },
        mysql: MySqlConfig {
            host: "dbhost".to_string(),
            port: 3306,
            username: "root".to_string(),
            password: "secret".to_string(),
        },
        aliyun_oss: AliyunOssConfig {
            secret_id: "testid".to_string(),
            secret_key: "testkey".to_string(),
            end_point: "ap-guangzhou".to_string(),
            bucket: "testbucket".to_string(),
        },
        s3: S3OssConfig {
            secret_id: "AKIDuhLs".to_string(),
            secret_key: "dGnCj8".to_string(),
            end_point: Some("oss-cn-shanghai.aliyuncs.com".to_string()),
            bucket: "bucket-1234567".to_string(),
            region: Some("ap-shanghai".to_string()),
        },
        webhook,
    }
}

#[test]
fn test_explain_7z_spawn_error_includes_install_hint_for_missing_binary() {
    let error = IoError { kind: IoErrorKind::NotFound, message: "missing".to_string() };
    let mapped = explain_7z_spawn_error(error);

    assert!(matches!(mapped, Error::Compression(message) if message.contains("p7zip-full")));
}

#[test]
fn other_spawn_errors_are_passed_on() {
    let error = IoError { kind: IoErrorKind::Other, message: "denied".to_string() };
    assert!(matches!(explain_7z_spawn_error(error), Error::Io(e) if e.message == "denied"));
}

#[test]
fn compression_runs_7z_with_encrypted_headers() {
    let c = compress_command("/b/mydb_20260608_020000.sql", "pw");
    assert_eq!(c.program, "7z");
    assert_eq!(c.output_path, "/b/mydb_20260608_020000.7z");
    assert_eq!(
        c.args,
        vec!["a", "-t7z", "-m0=lzma2", "-mhe=on", "/b/mydb_20260608_020000.7z", "/b/mydb_20260608_020000.sql"]
    );
    assert_eq!(c.env_name, "7Z_PASSWORD");
    assert_eq!(c.env_value, "pw");
}

#[test]
fn compression_failures_carry_the_trimmed_stderr() {
    assert!(matches!(compression_failure("  \n"), Error::Compression(m) if m == "7z compression failed"));
    assert!(matches!(compression_failure(" bad password \n"), Error::Compression(m) if m == "7z compression failed: bad password"));
}

#[test]
fn database_follows_the_configured_type() {
    let config = all_config(DbType::MySql, None);
    match config.app.database(&config) {
        DatabaseClient::MySql(m) => assert_eq!(m.config().host, "dbhost"),
        other => panic!("unexpected: {other:?}"),
    }
    let config = all_config(DbType::Postgresql, None);
    assert!(matches!(config.app.database(&config), DatabaseClient::Postgresql(_)));
    assert_eq!(config.app.get_backup_dir(), b"/tmp/dbbackup".to_vec());
}

#[test]
fn dump_commands_name_the_file_by_database_and_time() {
    let config = all_config(DbType::Postgresql, None);
    let now = UtcTime::from_timestamp(1780884625, 0).unwrap(); // 2026-06-08T02:10:25Z
    let pg = PostgreSql::new(&config.postgresql).dump_command("mydb", "/b", now);
    assert_eq!(pg.program, "pg_dump");
    assert_eq!(pg.args, vec!["-h", "localhost", "-p", "5432", "-U", "user", "-d", "mydb"]);
    assert_eq!(pg.env_name, "PGPASSWORD");
    assert_eq!(pg.env_value, "pass");
    assert_eq!(pg.backup_path, "/b/mydb_20260608_021025.sql");
    assert_eq!(pg.failure_prefix, "pg_dump failed for database mydb");

    let my = MySql::new(&config.mysql).dump_command("shop", "/b/", now);
    assert_eq!(my.program, "mysqldump");
    assert_eq!(my.args, vec!["-h", "dbhost", "-P", "3306", "-u", "root", "shop"]);
    assert_eq!(my.env_name, "MYSQL_PWD");
    assert_eq!(my.env_value, "secret");
    assert_eq!(my.backup_path, "/b/shop_20260608_021025.sql");

    match dump_failure(&pg.failure_prefix, "boom\n") {
        Error::DatabaseBackup(m) => assert_eq!(m, "pg_dump failed for database mydb: boom\n"),
        other => panic!("unexpected: {other:?}"),
    }
}

#[test]
fn webhook_is_taken_from_the_configuration() {
    assert!(get_webhook(&all_config(DbType::Postgresql, None)).is_none());
    let hook = WebHookConfig { url: "https://x/hook".to_string(), token: Some("t".to_string()) };
    let w = get_webhook(&all_config(DbType::Postgresql, Some(hook))).unwrap();
    assert_eq!(w.url, "https://x/hook");
    assert_eq!(w.token, Some("t".to_string()));
}

#[test]
fn default_app_config_lives_in_the_home_directory() {
    let c = AppConfig::default_with_home(Some(b"/home/u".to_vec()));
    assert_eq!(c.backup_dir, b"/home/u/.dbbackup".to_vec());
    assert_eq!(c.db_type, DbType::Postgresql);
    assert_eq!(c.cos_provider, CosProvider::TencentCos);
    assert_eq!(c.cos_path, "db/");
    assert_eq!(c.compress_password, "dbbackuppassword");
    assert_eq!(c.retention_days, None);
    assert_eq!(AppConfig::default_with_home(None).backup_dir, b"~/.dbbackup".to_vec());
    assert_eq!(AppConfig::default_with_home(Some(b"/home/u/".to_vec())).backup_dir, b"/home/u/.dbbackup".to_vec());
    assert!(AppConfig::default().backup_dir.ends_with(b".dbbackup"));
}

#[test]
fn paths_join_like_std() {
    assert_eq!(path_join("/a", "b"), "/a/b");
    assert_eq!(path_join("/a/", "b"), "/a/b");
    assert_eq!(path_join("", "b"), "b");
    assert_eq!(path_join("/a", "/c"), "/c");
    assert_eq!(backup_glob_pattern("/var/backups"), "/var/backups/*.7z");
}

fn resolve(cli: Option<String>, file: Option<(&str, &str)>, env: Option<&str>) -> Option<String> {
    match password_source(cli, file.map(|(p, _)| p.to_string())) {
        PasswordSource::Given(p) => Some(p),
        PasswordSource::File(path) => {
            let content = file.unwrap().1.to_string();
            password_from_file(&path, Ok(content)).unwrap()
        }
        PasswordSource::Environment => env.map(|e| e.to_string()),
    }
}

#[test]
fn test_resolve_password_prefers_cli_password() {
    let resolved = resolve(
        Some("from-cli".to_string()),
        Some(("pwd.txt", "from-file\n")),
        Some("from-env"),
    );
    assert_eq!(resolved, Some("from-cli".to_string()));
}

#[test]
fn test_resolve_password_uses_password_file_before_env() {
    let resolved = resolve(None, Some(("pwd.txt", "from-file\n")), Some("from-env"));
    assert_eq!(resolved, Some("from-file".to_string()));
}

#[test]
fn test_resolve_password_falls_back_to_env() {
    let resolved = resolve(None, None, Some("from-env"));
    assert_eq!(resolved, Some("from-env".to_string()));
}

#[test]
fn unreadable_password_file_is_reported() {
    let err = IoError { kind: IoErrorKind::NotFound, message: "gone".to_string() };
    match password_from_file("/etc/pw", Err(err)) {
        Err(Error::Io(e)) => assert_eq!(e.message, "Failed to read password file '/etc/pw': gone"),
        other => panic!("unexpected: {other:?}"),
    }
}

#[test]
fn test_cleanup_old_backups_keeps_recent_files_by_retention_days() {
    let today = Utc::now().date_naive();
    let yesterday = today - Duration::days(1);
    let two_days_ago = today - Duration::days(2);
    let names: Vec<Option<String>> = [today, yesterday, two_days_ago]
        .iter()
        .map(|d| Some(format!("demo_{}_010101.7z", d.format("%Y%m%d"))))
        .collect();

    let removed = select_local_backups_to_remove(&names, &names, today.num_days_from_ce(), Some(2));
    assert_eq!(removed, vec![2]);
}

#[test]
fn cleanup_keeps_undated_names_and_dates_missing_from_the_first_listing() {
    let today = 739775; // 2026-06-08
    let known = vec![Some("a_20260101_000000.7z".to_string()), None];
    let candidates = vec![
        Some("a_20260101_000000.7z".to_string()),
        Some("b_20260102_000000.7z".to_string()),
        Some("notes.7z".to_string()),
        None,
        Some("c_20260101_120000.7z".to_string()),
    ];
    assert_eq!(select_local_backups_to_remove(&known, &candidates, today, None), vec![0, 4]);
}

#[test]
fn dump_paths_and_compress_runs_from_given_parts() {
    assert_eq!(
        db_back_tool::database::dump_file_path("/b", "mydb", "20260608_021025"),
        "/b/mydb_20260608_021025.sql"
    );
    let c = db_back_tool::compression::compress_command_to("/b/x.sql", "pw", "/b/out.7z".to_string());
    assert_eq!(c.output_path, "/b/out.7z");
    assert_eq!(c.args[4], "/b/out.7z");
    assert_eq!(c.args[5], "/b/x.sql");
    assert!(matches!(
        db_back_tool::compression::compression_failure_trimmed(""),
        Error::Compression(m) if m == "7z compression failed"
    ));
    assert!(matches!(
        db_back_tool::compression::compression_failure_trimmed("oops"),
        Error::Compression(m) if m == "7z compression failed: oops"
    ));
}

#[test]
fn storage_follows_the_configured_provider() {
    let mut config = all_config(DbType::Postgresql, None);
    match config.app.storage(&config) {
        Ok(StorageTarget::TencentCos(c)) => assert_eq!(c.region, "ap-guangzhou"),
        other => panic!("unexpected: {other:?}"),
    }
    config.app.cos_provider = CosProvider::LocalStorage;
    match config.app.storage(&config) {
        Ok(StorageTarget::LocalStorage(dir)) => assert_eq!(dir, "/tmp/dbbackup"),
        other => panic!("unexpected: {other:?}"),
    }
    config.app.cos_provider = CosProvider::S3;
    match config.app.storage(&config) {
        Ok(StorageTarget::S3(c)) => assert_eq!(c.region, Some("ap-shanghai".to_string())),
        other => panic!("unexpected: {other:?}"),
    }
    config.app.cos_provider = CosProvider::AliyunOss;
    assert!(matches!(config.app.storage(&config), Ok(StorageTarget::AliyunOss(_))));
}

#[test]
fn test_storage_returns_error_for_non_utf8_local_backup_dir() {
    let app = AppConfig {
        backup_dir: vec![0x66, 0x6f, 0x80],
        db_type: DbType::Postgresql,
        cos_provider: CosProvider::LocalStorage,
        cos_path: "db/".to_string(),
        compress_password: "pwd".to_string(),
        retention_days: None,
    };
    let all_config = AllConfig {
        app: AppConfig {
            backup_dir: app.backup_dir.clone(),
            db_type: app.db_type,
            cos_provider: app.cos_provider,
            cos_path: app.cos_path.clone(),
            compress_password: app.compress_password.clone(),
            retention_days: app.retention_days,
        },
        tencent_cos: TencentCosConfig {
            secret_id: "id".to_string(),
            secret_key: "key".to_string(),
            region: "ap-shanghai".to_string(),
            bucket: "bucket".to_string(),
        },
        postgresql: PostgreSqlConfig {
            host: "localhost".to_string(),
            port: 5432,
            username: "user".to_string(),
            password: "pass".to_string(),
        },
        mysql: MySqlConfig {
            host: "localhost".to_string(),
            port: 3306,
            username: "user".to_string(),
            password: "pass".to_string(),
        },
        aliyun_oss: AliyunOssConfig {
            secret_id: "id".to_string(),
            secret_key: "key".to_string(),
            end_point: "oss-cn-shanghai.aliyuncs.com".to_string(),
            bucket: "bucket".to_string(),
        },
        s3: S3OssConfig {
            secret_id: "id".to_string(),
            secret_key: "key".to_string(),
            end_point: Some("https://example.com".to_string()),
            bucket: "bucket".to_string(),
            region: None,
        },
        webhook: None,
    };

    let err = match app.storage(&all_config) {
        Ok(_) => panic!("expected path resolution error"),
        Err(err) => err,
    };
    assert!(matches!(err, Error::PathResolution(_)));
}

#[test]
fn non_utf8_backup_dir_is_refused_with_its_message() {
    let mut config = all_config(DbType::Postgresql, None);
    config.app.cos_provider = CosProvider::LocalStorage;
    config.app.backup_dir = vec![0x2f, 0x62, 0xff, 0x61];
    match config.app.storage(&config) {
        Err(Error::PathResolution(m)) => assert_eq!(m, "backup_dir is not valid UTF-8"),
        other => panic!("unexpected: {other:?}"),
    }
    config.app.backup_dir = "/b/\u{e9}t\u{e9}".as_bytes().to_vec();
    match config.app.storage(&config) {
        Ok(StorageTarget::LocalStorage(dir)) => assert_eq!(dir, "/b/\u{e9}t\u{e9}"),
        other => panic!("unexpected: {other:?}"),
    }
    config.app.cos_provider = CosProvider::TencentCos;
    assert!(matches!(config.app.storage(&config), Ok(StorageTarget::TencentCos(_))));
}

#[test]
fn trim_removes_unicode_white_space_only_at_the_ends() {
    assert_eq!(trim("  a b \t\n"), "a b");
    assert_eq!(trim("\u{3000}\u{85}x\u{a0}\u{2028}"), "x");
    assert_eq!(trim("\u{200b}x"), "\u{200b}x");
    assert_eq!(trim(" \u{2000} \u{200a}"), "");
    assert_eq!(trim(""), "");
    for s in ["\u{1680}a\u{205f}", "\r\x0b\x0cb\u{202f}", " \u{2029}c\u{2007}"] {
        assert_eq!(trim(s), s.trim());
    }
}

#[test]
fn archive_paths_replace_the_extension_like_std() {
    let cases = [
        "/b/mydb_20260608_020000.sql", "a/b.sql/", "a/b.sql/.", "a/x.tar.gz", "a/x.tar.gz//", ".bashrc",
        "a/.cfg.toml", "a.", "noext", "", "/", ".", "..", "a/..", "./", "a/b..c", "a/.../", "x/.",
        "dir.d/file", "//x.y", "a/b.c/./.",
    ];
    for p in cases {
        let expected = std::path::Path::new(p).with_extension("7z").to_string_lossy().into_owned();
        assert_eq!(path_with_7z_extension(p), expected, "path {p:?}");
    }
}

#[test]
fn dumps_become_archives_that_read_back_as_their_day() {
    let config = all_config(DbType::Postgresql, None);
    let now = UtcTime::from_timestamp(1780884625, 0).unwrap(); // 2026-06-08T02:10:25Z
    let pg = PostgreSql::new(&config.postgresql).dump_command("my_db", "/b", now);
    let archive = compress_command(&pg.backup_path, "pw").output_path;
    assert_eq!(archive, "/b/my_db_20260608_021025.7z");
    let name = db_back_tool::storage::file_name(&archive).unwrap();
    assert_eq!(
        db_back_tool::date::parse_backup_date(&name),
        Some(chrono::NaiveDate::from_ymd_opt(2026, 6, 8).unwrap().num_days_from_ce())
    );
}

#[test]
fn io_failures_keep_their_kind() {
    let denied = IoError { kind: IoErrorKind::PermissionDenied, message: "denied".to_string() };
    match password_from_file("/etc/pw", Err(denied)) {
        Err(Error::Io(e)) => {
            assert_eq!(e.kind, IoErrorKind::PermissionDenied);
            assert_eq!(e.message, "Failed to read password file '/etc/pw': denied");
        }
        other => panic!("unexpected: {other:?}"),
    }
    let busy = IoError { kind: IoErrorKind::ExecutableFileBusy, message: "busy".to_string() };
    assert!(matches!(explain_7z_spawn_error(busy), Error::Io(e) if e.kind == IoErrorKind::ExecutableFileBusy));
}
