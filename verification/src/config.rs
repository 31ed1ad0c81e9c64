//! The application's configuration and the choices made from it.
use crate::database::{DatabaseClient, MySql, PostgreSql};
use crate::error::{Error, IoError};
use crate::text::{concat3, spec_trim, starts_with_char, ends_with_char};
use vstd::prelude::*;
use vstd::string::*;
use vstd::utf8::{decode_utf8, encode_utf8, valid_utf8};

verus! {

/// The whole configuration file.
#[derive(Debug)]
pub struct AllConfig {
    pub app: AppConfig,
    pub tencent_cos: TencentCosConfig,
    pub postgresql: PostgreSqlConfig,
    pub mysql: MySqlConfig,
    pub aliyun_oss: AliyunOssConfig,
    pub s3: S3OssConfig,
    pub webhook: Option<WebHookConfig>,
}

/// The `app` section.
#[derive(Debug)]
pub struct AppConfig {
    /// Where local backups are written: the directory's path as the
    /// operating system gives it, a sequence of bytes that need not be
    /// UTF-8.
    pub backup_dir: Vec<u8>,
    pub db_type: DbType,
    pub cos_provider: CosProvider,
    /// The key prefix of remote backups.
    pub cos_path: String,
    /// The password handed to the archiver.
    pub compress_password: String,
    /// How many days of backups are kept; two when absent.
    pub retention_days: Option<u32>,
}

/// The `tencent_cos` section.
#[derive(Debug)]
pub struct TencentCosConfig {
    pub secret_id: String,
    pub secret_key: String,
    pub region: String,
    pub bucket: String,
}

/// The `aliyun_oss` section.
#[derive(Debug)]
pub struct AliyunOssConfig {
    pub secret_id: String,
    pub secret_key: String,
    pub end_point: String,
    pub bucket: String,
}

/// The `s3` section.
#[derive(Debug)]
pub struct S3OssConfig {
    pub secret_id: String,
    pub secret_key: String,
    pub end_point: Option<String>,
    pub bucket: String,
    pub region: Option<String>,
}

/// The `postgresql` section.
#[derive(Debug)]
pub struct PostgreSqlConfig {
    pub host: String,
    pub port: u16,
    pub username: String,
    pub password: String,
}

/// The `mysql` section.
#[derive(Debug)]
pub struct MySqlConfig {
    pub host: String,
    pub port: u16,
    pub username: String,
    pub password: String,
}

/// The optional `webhook` section.
#[derive(Debug)]
pub struct WebHookConfig {
    pub url: String,
    pub token: Option<String>,
}

/// Which database is backed up.
#[derive(Clone, Copy, Debug, PartialEq, Eq, Structural)]
pub enum DbType {
    Postgresql,
    MySql,
}

/// Where backups are stored.
#[derive(Clone, Copy, Debug, PartialEq, Eq, Structural)]
pub enum CosProvider {
    TencentCos,
    AliyunOss,
    LocalStorage,
    S3,
}

/// The webhook that progress messages are sent to.
#[derive(Debug)]
pub struct WebHookNotify {
    pub url: String,
    pub token: Option<String>,
}

impl WebHookNotify {
    /// A webhook posting to `url`, with `token` as bearer token when given.
    pub fn new(url: String, token: Option<String>) -> (r: WebHookNotify)
        ensures
            r.url == url,
            r.token == token,
    {
        WebHookNotify { url, token }
    }
}

/// A progress message: its title and its text.
#[derive(Debug)]
pub struct WebHookSendData {
    pub title: String,
    pub message: String,
}

impl WebHookSendData {
    /// A message titled `title` saying `message`.
    pub fn new(title: String, message: String) -> (r: WebHookSendData)
        ensures
            r.title == title,
            r.message == message,
    {
        WebHookSendData { title, message }
    }
}

/// A copy of an optional string.
pub fn clone_opt_string(s: &Option<String>) -> (r: Option<String>)
    ensures
        r == *s,
{
    match s {
        Some(v) => Some(v.clone()),
        None => None,
    }
}

/// `base.join(part)` on Unix: an absolute `part` replaces `base`; otherwise
/// `part` is appended, after a `/` unless `base` is empty or already ends
/// with one.
pub open spec fn spec_path_join(base: Seq<char>, part: Seq<char>) -> Seq<char> {
    if part.len() > 0 && part[0] == '/' {
        part
    } else if base.len() == 0 || base.last() == '/' {
        base + part
    } else {
        base + seq!['/'] + part
    }
}

/// The path `part` joined onto `base`, as `Path::join` does on Unix.
pub fn path_join(base: &str, part: &str) -> (r: String)
    ensures
        r@ == spec_path_join(base@, part@),
{
    if starts_with_char(part, '/') {
        String::from_str(part)
    } else if base.unicode_len() == 0 || ends_with_char(base, '/') {
        crate::text::concat2(base, part)
    } else {
        let r = concat3(base, "/", part);
        proof {
            reveal_strlit("/");
            assert("/"@ =~= seq!['/']);
        }
        r
    }
}

/// `base.join(part)` on Unix paths given as bytes: an absolute `part`
/// replaces `base`; otherwise `part` is appended, after a `/` unless `base`
/// is empty or already ends with one.
pub open spec fn spec_path_join_bytes(base: Seq<u8>, part: Seq<u8>) -> Seq<u8> {
    if part.len() > 0 && part[0] == 0x2f {
        part
    } else if base.len() == 0 || base.last() == 0x2f {
        base + part
    } else {
        base + seq![0x2fu8] + part
    }
}

/// Appends the bytes of `s` to `v`.
fn push_bytes(v: &mut Vec<u8>, s: &[u8])
    ensures
        final(v)@ == old(v)@ + s@,
{
    let mut i: usize = 0;
    while i < s.len()
        invariant
            i <= s@.len(),
            v@ == old(v)@ + s@.subrange(0, i as int),
        decreases s@.len() - i,
    {
        v.push(s[i]);
        i = i + 1;
        proof {
            assert(s@.subrange(0, i as int) =~= s@.subrange(0, i - 1).push(s@[i - 1]));
        }
    }
    proof {
        assert(s@.subrange(0, i as int) =~= s@);
    }
}

/// The path `part` joined onto `base`, both given as bytes, as `Path::join`
/// does on Unix.
pub fn path_join_bytes(base: &[u8], part: &[u8]) -> (r: Vec<u8>)
    ensures
        r@ == spec_path_join_bytes(base@, part@),
{
    let mut r: Vec<u8> = Vec::new();
    if part.len() > 0 && part[0] == 0x2f {
        push_bytes(&mut r, part);
    } else {
        push_bytes(&mut r, base);
        if base.len() > 0 && base[base.len() - 1] != 0x2f {
            r.push(0x2f);
        }
        push_bytes(&mut r, part);
    }
    r
}

/// The bytes of an optional path.
pub open spec fn opt_bytes_view(p: Option<Vec<u8>>) -> Option<Seq<u8>> {
    match p {
        Some(v) => Some(v@),
        None => None,
    }
}

/// The default backup directory: `.dbbackup` in the home directory `home`,
/// or below `~` when the home directory is unknown.
pub open spec fn spec_default_backup_dir(home: Option<Seq<u8>>) -> Seq<u8> {
    spec_path_join_bytes(
        match home {
            Some(h) => h,
            None => encode_utf8("~"@),
        },
        encode_utf8(".dbbackup"@),
    )
}

/// `dirs::home_dir`, the current user's home directory, as the bytes of its
/// path. It depends on the environment, so nothing is claimed of it.
#[verifier::external_body]
fn home_dir() -> (r: Option<Vec<u8>>) {
    match dirs::home_dir() {
        Some(p) => Some(p.into_os_string().into_encoded_bytes()),
        None => None,
    }
}

/// `std::str::from_utf8`, its result copied into a `String`: the text whose
/// UTF-8 encoding is `bytes`, or `None` when `bytes` is not valid UTF-8.
#[verifier::external_body]
fn utf8_text(bytes: &[u8]) -> (r: Option<String>)
    ensures
        r is Some <==> valid_utf8(bytes@),
        r matches Some(t) ==> encode_utf8(t@) == bytes@,
{
    match std::str::from_utf8(bytes) {
        Ok(t) => Some(t.to_string()),
        Err(_) => None,
    }
}

impl AppConfig {
    /// The default configuration for a user whose home directory is `home`:
    /// backups in `.dbbackup` there, PostgreSQL, Tencent COS under `db/`,
    /// the default archive password and the default retention.
    pub fn default_with_home(home: Option<Vec<u8>>) -> (r: AppConfig)
        ensures
            r.backup_dir@ == spec_default_backup_dir(opt_bytes_view(home)),
            r.db_type == DbType::Postgresql,
            r.cos_provider == CosProvider::TencentCos,
            r.cos_path@ == "db/"@,
            r.compress_password@ == "dbbackuppassword"@,
            r.retention_days is None,
    {
        let backup_dir = match &home {
            Some(h) => path_join_bytes(h.as_slice(), ".dbbackup".as_bytes()),
            None => path_join_bytes("~".as_bytes(), ".dbbackup".as_bytes()),
        };
        AppConfig {
            backup_dir,
            db_type: DbType::Postgresql,
            cos_provider: CosProvider::TencentCos,
            cos_path: String::from_str("db/"),
            compress_password: String::from_str("dbbackuppassword"),
            retention_days: None,
        }
    }

    /// The local backup directory.
    pub fn get_backup_dir(&self) -> (r: Vec<u8>)
        ensures
            r@ == self.backup_dir@,
    {
        vstd::slice::slice_to_vec(self.backup_dir.as_slice())
    }

    /// The client of the configured database, with its connection settings
    /// from `config`.
    pub fn database(&self, config: &AllConfig) -> (r: DatabaseClient)
        ensures
            match self.db_type {
                DbType::Postgresql => r matches DatabaseClient::Postgresql(p) && p@
                    == config.postgresql,
                DbType::MySql => r matches DatabaseClient::MySql(m) && m@ == config.mysql,
            },
    {
        match self.db_type {
            DbType::Postgresql => DatabaseClient::Postgresql(PostgreSql::new(&config.postgresql)),
            DbType::MySql => DatabaseClient::MySql(MySql::new(&config.mysql)),
        }
    }
}

/// The storage that backups go to, with the settings it is opened with.
#[derive(Debug)]
pub enum StorageTarget {
    TencentCos(TencentCosConfig),
    AliyunOss(AliyunOssConfig),
    /// Backups stay in this local directory.
    LocalStorage(String),
    S3(S3OssConfig),
}

impl TencentCosConfig {
    /// A copy of these settings.
    pub fn duplicate(&self) -> (r: Self)
        ensures
            r == *self,
    {
        TencentCosConfig {
            secret_id: self.secret_id.clone(),
            secret_key: self.secret_key.clone(),
            region: self.region.clone(),
            bucket: self.bucket.clone(),
        }
    }
}

impl AliyunOssConfig {
    /// A copy of these settings.
    pub fn duplicate(&self) -> (r: Self)
        ensures
            r == *self,
    {
        AliyunOssConfig {
            secret_id: self.secret_id.clone(),
            secret_key: self.secret_key.clone(),
            end_point: self.end_point.clone(),
            bucket: self.bucket.clone(),
        }
    }
}

impl S3OssConfig {
    /// A copy of these settings.
    pub fn duplicate(&self) -> (r: Self)
        ensures
            r == *self,
    {
        S3OssConfig {
            secret_id: self.secret_id.clone(),
            secret_key: self.secret_key.clone(),
            end_point: clone_opt_string(&self.end_point),
            bucket: self.bucket.clone(),
            region: clone_opt_string(&self.region),
        }
    }
}

impl AppConfig {
    /// The storage of the configured provider, with its section of
    /// `config`; local storage keeps backups in the backup directory of
    /// `config`'s `app` section, which must then be valid UTF-8.
    pub fn storage(&self, config: &AllConfig) -> (r: Result<StorageTarget, Error>)
        ensures
            match self.cos_provider {
                CosProvider::TencentCos => r matches Ok(t) && t == StorageTarget::TencentCos(
                    config.tencent_cos,
                ),
                CosProvider::AliyunOss => r matches Ok(t) && t == StorageTarget::AliyunOss(
                    config.aliyun_oss,
                ),
                CosProvider::LocalStorage => if valid_utf8(config.app.backup_dir@) {
                    r matches Ok(StorageTarget::LocalStorage(d)) && d@ == decode_utf8(
                        config.app.backup_dir@,
                    )
                } else {
                    r matches Err(Error::PathResolution(m)) && m@ == local_dir_not_utf8_message()
                },
                CosProvider::S3 => r matches Ok(t) && t == StorageTarget::S3(config.s3),
            },
    {
        match self.cos_provider {
            CosProvider::TencentCos => Ok(StorageTarget::TencentCos(config.tencent_cos.duplicate())),
            CosProvider::AliyunOss => Ok(StorageTarget::AliyunOss(config.aliyun_oss.duplicate())),
            CosProvider::LocalStorage => match utf8_text(config.app.backup_dir.as_slice()) {
                Some(d) => {
                    proof {
                        vstd::utf8::encode_utf8_decode_utf8(d@);
                    }
                    Ok(StorageTarget::LocalStorage(d))
                },
                None => Err(
                    Error::PathResolution(String::from_str("backup_dir is not valid UTF-8")),
                ),
            },
            CosProvider::S3 => Ok(StorageTarget::S3(config.s3.duplicate())),
        }
    }
}

/// The message of the error reported when the local backup directory is not
/// valid UTF-8.
pub open spec fn local_dir_not_utf8_message() -> Seq<char> {
    "backup_dir is not valid UTF-8"@
}

impl Default for AppConfig {
    /// The default configuration for the current user's home directory.
    fn default() -> (r: AppConfig)
        ensures
            exists|home: Option<Seq<u8>>| r.backup_dir@ == spec_default_backup_dir(home),
            r.db_type == DbType::Postgresql,
            r.cos_provider == CosProvider::TencentCos,
            r.cos_path@ == "db/"@,
            r.compress_password@ == "dbbackuppassword"@,
            r.retention_days is None,
    {
        let home = home_dir();
        let ghost h = opt_bytes_view(home);
        let r = AppConfig::default_with_home(home);
        assert(r.backup_dir@ == spec_default_backup_dir(h));
        r
    }
}

/// The webhook of the configuration, when one is configured.
pub fn get_webhook(config: &AllConfig) -> (r: Option<WebHookNotify>)
    ensures
        match config.webhook {
            Some(w) => r matches Some(n) && n.url == w.url && n.token == w.token,
            None => r is None,
        },
{
    match &config.webhook {
        Some(w) => Some(WebHookNotify::new(w.url.clone(), clone_opt_string(&w.token))),
        None => None,
    }
}

/// Where the password that decrypts the configuration comes from.
#[derive(Debug)]
pub enum PasswordSource {
    /// The password given on the command line.
    Given(String),
    /// The file at this path holds the password.
    File(String),
    /// The `BACKUPDBTOOL_PASSWORD` environment variable, when it is set.
    Environment,
}

/// The source of the decryption password: the command line wins over the
/// password file, which wins over the environment.
pub fn password_source(cli_password: Option<String>, password_file: Option<String>) -> (r:
    PasswordSource)
    ensures
        match cli_password {
            Some(p) => r == PasswordSource::Given(p),
            None => match password_file {
                Some(f) => r == PasswordSource::File(f),
                None => r == PasswordSource::Environment,
            },
        },
{
    match cli_password {
        Some(p) => PasswordSource::Given(p),
        None => match password_file {
            Some(f) => PasswordSource::File(f),
            None => PasswordSource::Environment,
        },
    }
}

/// The message of the error reported when the password file cannot be read.
pub open spec fn password_file_error_message(path: Seq<char>, cause: Seq<char>) -> Seq<char> {
    "Failed to read password file '"@ + path + "': "@ + cause
}

/// The password read from the file at `path`: its content without leading
/// and trailing white space, or the read failure with the file named.
pub fn password_from_file(path: &str, read: Result<String, IoError>) -> (r: Result<
    Option<String>,
    Error,
>)
    ensures
        match read {
            Ok(content) => r matches Ok(Some(p)) && p@ == spec_trim(content@),
            Err(e) => r matches Err(Error::Io(f)) && f.kind == e.kind && f.message@
                == password_file_error_message(path@, e.message@),
        },
{
    match read {
        Ok(content) => Ok(Some(String::from_str(crate::text::trim(content.as_str())))),
        Err(e) => {
            let mut m = concat3("Failed to read password file '", path, "': ");
            m.append(e.message.as_str());
            proof {
                reveal_strlit("Failed to read password file '");
                reveal_strlit("': ");
            }
            Err(Error::Io(IoError { kind: e.kind, message: m }))
        },
    }
}

} // verus!
