//! The backup, upload and delete commands as step machines: each step takes
//! the outcome of the previous action and decides the next one, until the
//! command finishes with its result. The caller performs the actions (runs
//! programs, touches files, talks to the storage and the webhook) and feeds
//! their outcomes back.
use crate::config::{AppConfig, CosProvider, WebHookSendData};
use crate::date::{cutoff_in_range, is_valid_day};
use crate::error::{Error, IoError};
use crate::storage::{
    build_object_key,
    check_remote_upload_size,
    has_non_empty,
    is_expired_remote,
    select_expired_remote_files,
    CosItem,
};
use crate::text::concat3;
use vstd::prelude::*;

verus! {

/// The message reported for an empty file.
pub open spec fn empty_file_message(path: Seq<char>) -> Seq<char> {
    "file '"@ + path + "' is empty"@
}

/// The message reported when a file's size cannot be read.
pub open spec fn stat_failure_message(path: Seq<char>, cause: Seq<char>) -> Seq<char> {
    "Failed to stat file '"@ + path + "': "@ + cause
}

/// `r` is the outcome of checking that the file at `path`, whose size was
/// read as `measured`, is not empty.
pub open spec fn non_empty_outcome(path: Seq<char>, measured: Result<u64, IoError>, r: Result<
    u64,
    Error,
>) -> bool {
    match measured {
        Ok(len) => if len == 0 {
            r matches Err(Error::Integrity(m)) && m@ == empty_file_message(path)
        } else {
            r == Ok::<u64, Error>(len)
        },
        Err(e) => r matches Err(Error::Io(f)) && f.kind == e.kind && f.message@
            == stat_failure_message(path, e.message@),
    }
}

/// The size of the file at `path` when it is not empty; `measured` is the
/// size read from the file system, or the failure to read it.
pub fn check_file_non_empty(path: &str, measured: Result<u64, IoError>) -> (r: Result<u64, Error>)
    ensures
        non_empty_outcome(path@, measured, r),
{
    match measured {
        Ok(len) => {
            if len == 0 {
                let m = concat3("file '", path, "' is empty");
                Err(Error::Integrity(m))
            } else {
                Ok(len)
            }
        },
        Err(e) => {
            let mut m = concat3("Failed to stat file '", path, "': ");
            m.append(e.message.as_str());
            Err(Error::Io(IoError { kind: e.kind, message: m }))
        },
    }
}

/// What the caller is asked to do next.
#[derive(Debug)]
pub enum Action {
    /// Dump `database_name` into a new file in `backup_dir`.
    Dump { database_name: String, backup_dir: String },
    /// Compress `input` into an archive protected by `password`.
    Compress { input: String, password: String },
    /// Read the size of the file at `path`.
    Measure { path: String },
    /// Remove the file at `path`; a failure is only logged.
    RemoveFile { path: String },
    /// Tell whether a file exists at `path`.
    CheckExists { path: String },
    /// Upload the file at `path` below the key prefix `cos_path`.
    UploadFile { path: String, cos_path: String },
    /// Upload every archive in the directory `dir` (a path given as bytes)
    /// below the key prefix `cos_path`.
    UploadAll { dir: Vec<u8>, cos_path: String },
    /// List the remote objects whose keys start with `prefix`.
    List { prefix: String },
    /// Delete the remote object `key`.
    Delete { key: String },
    /// Send `data` to the configured webhook.
    Notify { data: WebHookSendData },
    /// The command is over, with this result.
    Finish { result: Result<(), Error> },
}

/// The outcome of the last action.
#[derive(Debug)]
pub enum Event {
    /// The command begins.
    Started,
    /// The dump was written to the file named, or failed.
    Dumped(Result<String, Error>),
    /// The archive was written to the file named, or compression failed.
    Compressed(Result<String, Error>),
    /// The file's size, or the failure to read it.
    Measured(Result<u64, IoError>),
    /// The file was removed, or its removal failed and was logged.
    Removed,
    /// Whether the file exists.
    Exists(bool),
    /// Whether the upload succeeded.
    FileUploaded(bool),
    /// The paths of the uploaded archives, or `None` when an upload failed.
    AllUploaded(Option<Vec<String>>),
    /// The remote listing, or the failure to list.
    Listed(Result<Vec<CosItem>, String>),
    /// The object was deleted, or the failure to delete it.
    Deleted(Result<(), String>),
    /// The notification was sent, or the failure to send it.
    Notified(Result<(), String>),
}

/// The title of every progress notification.
pub open spec fn progress_title() -> Seq<char> {
    "备份进度"@
}

/// `a` asks to send a progress notification saying `message`.
pub open spec fn is_progress_notice(a: Action, message: Seq<char>) -> bool {
    a matches Action::Notify { data } && data.title@ == progress_title() && data.message@ == message
}

/// A progress notification saying `message`.
fn progress_notice(message: String) -> (r: Action)
    ensures
        is_progress_notice(r, message@),
{
    Action::Notify { data: WebHookSendData::new(String::from_str("备份进度"), message) }
}

// ---------------------------------------------------------------------------
// backup
// ---------------------------------------------------------------------------

/// Where a backup stands.
#[derive(Debug)]
pub enum BackupState {
    Start,
    Dumping,
    Compressing { dump: String },
    Measuring { dump: String, archive: String },
    RemovingDump,
    Notifying,
    Done,
}

/// The `backup` command: dump the database, compress the dump, check that
/// the archive is not empty, remove the dump, then notify.
#[derive(Debug)]
pub struct BackupJob {
    pub database_name: String,
    pub backup_dir: String,
    /// The archive password.
    pub password: String,
    /// A webhook is configured.
    pub has_webhook: bool,
    pub state: BackupState,
}

/// The notification sent after a successful backup of `database_name`.
pub open spec fn backup_success_message(database_name: Seq<char>) -> Seq<char> {
    "数据库 "@ + database_name + " 备份成功"@
}

/// The event `e` answers the action the backup asked for in state `s`.
pub open spec fn backup_accepts(s: BackupState, e: Event) -> bool {
    match s {
        BackupState::Start => e is Started,
        BackupState::Dumping => e is Dumped,
        BackupState::Compressing { .. } => e is Compressed,
        BackupState::Measuring { .. } => e is Measured,
        BackupState::RemovingDump => e is Removed,
        BackupState::Notifying => e is Notified,
        BackupState::Done => false,
    }
}

/// One step of the backup: from `j`, on `e`, the job becomes `n` and asks
/// for `a`.
pub open spec fn backup_step(j: BackupJob, e: Event, n: BackupJob, a: Action) -> bool {
    &&& n.database_name == j.database_name
    &&& n.backup_dir == j.backup_dir
    &&& n.password == j.password
    &&& n.has_webhook == j.has_webhook
    &&& match (j.state, e) {
        (BackupState::Start, Event::Started) => n.state is Dumping && a == Action::Dump {
            database_name: j.database_name,
            backup_dir: j.backup_dir,
        },
        (BackupState::Dumping, Event::Dumped(Ok(dump))) => n.state == BackupState::Compressing {
            dump,
        } && a == Action::Compress { input: dump, password: j.password },
        (BackupState::Dumping, Event::Dumped(Err(err))) => n.state is Done && a
            == Action::Finish { result: Err(err) },
        (BackupState::Compressing { dump }, Event::Compressed(Ok(archive))) => n.state
            == BackupState::Measuring { dump, archive } && a == Action::Measure { path: archive },
        (BackupState::Compressing { .. }, Event::Compressed(Err(err))) => n.state is Done && a
            == Action::Finish { result: Err(err) },
        (BackupState::Measuring { dump, archive }, Event::Measured(m)) => if m matches Ok(len)
            && len > 0 {
            n.state is RemovingDump && a == Action::RemoveFile { path: dump }
        } else {
            &&& n.state is Done
            &&& a matches Action::Finish { result: Err(err) }
            &&& non_empty_outcome(archive@, m, Err(err))
        },
        (BackupState::RemovingDump, Event::Removed) => if j.has_webhook {
            n.state is Notifying && is_progress_notice(a, backup_success_message(j.database_name@))
        } else {
            n.state is Done && a == Action::Finish { result: Ok(()) }
        },
        (BackupState::Notifying, Event::Notified(Ok(()))) => n.state is Done && a
            == Action::Finish { result: Ok(()) },
        (BackupState::Notifying, Event::Notified(Err(msg))) => n.state is Done && a
            == Action::Finish { result: Err(Error::Notification(msg)) },
        _ => false,
    }
}

impl BackupJob {
    /// A backup of `database_name` into `backup_dir`, archived with
    /// `password`, notifying when `has_webhook`.
    pub fn new(database_name: String, backup_dir: String, password: String, has_webhook: bool) -> (r:
        BackupJob)
        ensures
            r.database_name == database_name,
            r.backup_dir == backup_dir,
            r.password == password,
            r.has_webhook == has_webhook,
            r.state is Start,
    {
        BackupJob { database_name, backup_dir, password, has_webhook, state: BackupState::Start }
    }

    /// Feeds the outcome `e` of the last action; returns the job and the
    /// next action.
    pub fn step(self, e: Event) -> (r: (BackupJob, Action))
        requires
            backup_accepts(self.state, e),
        ensures
            backup_step(self, e, r.0, r.1),
    {
        let BackupJob { database_name, backup_dir, password, has_webhook, state } = self;
        let (state, action) = match (state, e) {
            (BackupState::Start, Event::Started) => (
                BackupState::Dumping,
                Action::Dump { database_name: database_name.clone(), backup_dir: backup_dir.clone() },
            ),
            (BackupState::Dumping, Event::Dumped(Ok(dump))) => {
                let input = dump.clone();
                (
                    BackupState::Compressing { dump },
                    Action::Compress { input, password: password.clone() },
                )
            },
            (BackupState::Dumping, Event::Dumped(Err(err))) => (
                BackupState::Done,
                Action::Finish { result: Err(err) },
            ),
            (BackupState::Compressing { dump }, Event::Compressed(Ok(archive))) => {
                let path = archive.clone();
                (BackupState::Measuring { dump, archive }, Action::Measure { path })
            },
            (BackupState::Compressing { .. }, Event::Compressed(Err(err))) => (
                BackupState::Done,
                Action::Finish { result: Err(err) },
            ),
            (BackupState::Measuring { dump, archive }, Event::Measured(m)) => {
                match check_file_non_empty(archive.as_str(), m) {
                    Ok(_) => (BackupState::RemovingDump, Action::RemoveFile { path: dump }),
                    Err(err) => (BackupState::Done, Action::Finish { result: Err(err) }),
                }
            },
            (BackupState::RemovingDump, Event::Removed) => {
                if has_webhook {
                    let message = concat3("数据库 ", database_name.as_str(), " 备份成功");
                    (BackupState::Notifying, progress_notice(message))
                } else {
                    (BackupState::Done, Action::Finish { result: Ok(()) })
                }
            },
            (BackupState::Notifying, Event::Notified(Ok(()))) => (
                BackupState::Done,
                Action::Finish { result: Ok(()) },
            ),
            (BackupState::Notifying, Event::Notified(Err(msg))) => (
                BackupState::Done,
                Action::Finish { result: Err(Error::Notification(msg)) },
            ),
            (state, _) => {
                proof {
                    assert(false);
                }
                (state, Action::Finish { result: Ok(()) })
            },
        };
        (BackupJob { database_name, backup_dir, password, has_webhook, state }, action)
    }
}


// ---------------------------------------------------------------------------
// upload
// ---------------------------------------------------------------------------

/// Where an upload stands.
#[derive(Debug)]
pub enum UploadState {
    Start,
    /// Checking that the single file exists.
    CheckingFile,
    /// Reading the single file's size.
    MeasuringFile,
    /// Uploading the single file of `local_size` bytes.
    UploadingFile { local_size: u64 },
    /// Listing the remote object `key` to compare its size.
    ListingFile { key: String, local_size: u64 },
    /// Uploading every archive.
    UploadingAll,
    /// Reading the size of the archive `paths[index]`.
    MeasuringAll { paths: Vec<String>, index: usize },
    /// Listing the remote object `key` of `paths[index]` to compare sizes.
    ListingAll { paths: Vec<String>, index: usize, key: String, local_size: u64 },
    Notifying,
    Done,
}

/// The `upload` command, for one file (`--file`) or every archive (`--all`).
/// After uploading, the remote sizes are compared with the local ones unless
/// backups are only kept locally; then a notification is sent.
#[derive(Debug)]
pub struct UploadJob {
    pub file: Option<String>,
    pub all: bool,
    /// The local backup directory, as the bytes of its path.
    pub backup_dir: Vec<u8>,
    pub cos_path: String,
    /// The remote copy is listed and its size compared after uploading.
    pub verify_remote: bool,
    pub has_webhook: bool,
    pub state: UploadState,
}

/// The error reported when neither `--file` nor `--all` is given.
pub open spec fn upload_usage_message() -> Seq<char> {
    "Please specify either --file or --all flag"@
}

/// The notification sent after uploading `file`.
pub open spec fn file_uploaded_message(file: Seq<char>) -> Seq<char> {
    file + " 上传成功"@
}

/// The notification sent after uploading every archive.
pub open spec fn all_uploaded_message() -> Seq<char> {
    "所有备份文件上传成功"@
}

/// The event `e` answers the action the upload asked for in state `s`.
pub open spec fn upload_accepts(s: UploadState, e: Event) -> bool {
    match s {
        UploadState::Start => e is Started,
        UploadState::CheckingFile => e is Exists,
        UploadState::MeasuringFile => e is Measured,
        UploadState::UploadingFile { .. } => e is FileUploaded,
        UploadState::ListingFile { .. } => e is Listed,
        UploadState::UploadingAll => e is AllUploaded,
        UploadState::MeasuringAll { .. } => e is Measured,
        UploadState::ListingAll { .. } => e is Listed,
        UploadState::Notifying => e is Notified,
        UploadState::Done => false,
    }
}

/// The upload's state fits the job: the single-file states only occur when
/// a file was given, and indices stay within the archives being verified.
pub open spec fn upload_wf(j: UploadJob) -> bool {
    &&& (j.state is CheckingFile || j.state is MeasuringFile || j.state is UploadingFile
        || j.state is ListingFile) ==> j.file is Some
    &&& (j.state is ListingFile || j.state is MeasuringAll || j.state is ListingAll)
        ==> j.verify_remote
    &&& j.state matches UploadState::MeasuringAll { paths, index } ==> index < paths.len()
    &&& j.state matches UploadState::ListingAll { paths, index, .. } ==> index < paths.len()
}

/// After the upload is complete and verified: notify with `message`, or
/// finish.
pub open spec fn upload_done(has_webhook: bool, message: Seq<char>, s: UploadState, a: Action) -> bool {
    if has_webhook {
        s is Notifying && is_progress_notice(a, message)
    } else {
        s is Done && a == Action::Finish { result: Ok(()) }
    }
}

/// Verification of the archives `paths` goes on from `index`: measure the
/// next one, or conclude when all are done.
pub open spec fn verify_from(has_webhook: bool, paths: Vec<String>, index: int, s: UploadState, a: Action) -> bool {
    if index < paths@.len() {
        s == UploadState::MeasuringAll { paths, index: index as usize } && a == Action::Measure {
            path: paths@[index],
        }
    } else {
        upload_done(has_webhook, all_uploaded_message(), s, a)
    }
}

/// `s` is done and `a` finishes the command with the error `err`.
pub open spec fn fails_with(s: UploadState, a: Action, err: Error) -> bool {
    s is Done && a == Action::Finish { result: Err(err) }
}

/// `s` is done and `a` finishes the command with an error `err` satisfying
/// `p`.
pub open spec fn fails_such_that(s: UploadState, a: Action, p: spec_fn(Error) -> bool) -> bool {
    &&& s is Done
    &&& a matches Action::Finish { result: Err(err) }
    &&& p(err)
}

/// The message of the error reported when an upload fails.
pub open spec fn upload_failed_message() -> Seq<char> {
    "upload failed"@
}

/// The listing `files` holds `key` with `size` bytes, the first entry with
/// that key being the one compared.
pub open spec fn remote_size_matches(files: Seq<CosItem>, key: Seq<char>, size: u64) -> bool {
    exists|i: int| #[trigger]
        crate::storage::is_first_with_key(files, key, i) && files[i].size == size
}

/// `err` is the error reported when the listing `files` does not hold `key`
/// with `size` bytes.
pub open spec fn remote_size_failure(files: Seq<CosItem>, key: Seq<char>, size: u64, err: Error) -> bool {
    if forall|i: int| 0 <= i < files.len() ==> files[i].key@ != key {
        err matches Error::Integrity(m) && m@ == crate::storage::missing_upload_message(key)
    } else {
        exists|i: int| #[trigger]
            crate::storage::is_first_with_key(files, key, i) && (err matches Error::Integrity(m)
                && m@ == crate::storage::size_mismatch_message(key, size as nat, files[i].size as nat))
    }
}

/// `err` is the error reported for a path without a file name.
pub open spec fn invalid_path_failure(path: Seq<char>, err: Error) -> bool {
    err matches Error::InvalidConfig(m) && m@ == crate::storage::invalid_path_message(path)
}

/// One step of the upload: from `j`, on `e`, the job becomes `n` and asks for
/// `a`.
pub open spec fn upload_step(j: UploadJob, e: Event, n: UploadJob, a: Action) -> bool {
    &&& n.file == j.file
    &&& n.all == j.all
    &&& n.backup_dir@ == j.backup_dir@
    &&& n.cos_path == j.cos_path
    &&& n.verify_remote == j.verify_remote
    &&& n.has_webhook == j.has_webhook
    &&& upload_wf(n)
    &&& match (j.state, e) {
        (UploadState::Start, Event::Started) => match j.file {
            Some(f) => n.state is CheckingFile && a == Action::CheckExists { path: f },
            None => if j.all {
                n.state is UploadingAll && (a matches Action::UploadAll { dir, cos_path }
                    && dir@ == j.backup_dir@ && cos_path == j.cos_path)
            } else {
                fails_such_that(n.state, a, |err: Error| err matches Error::CommandExecution(m) && m@ == upload_usage_message())
            },
        },
        (UploadState::CheckingFile, Event::Exists(found)) => if found {
            n.state is MeasuringFile && a == Action::Measure { path: j.file->0 }
        } else {
            fails_with(n.state, a, Error::FileNotFound(j.file->0))
        },
        (UploadState::MeasuringFile, Event::Measured(m)) => if m matches Ok(len) && len > 0 {
            n.state == UploadState::UploadingFile { local_size: m->Ok_0 } && a == Action::UploadFile {
                path: j.file->0,
                cos_path: j.cos_path,
            }
        } else {
            fails_such_that(n.state, a, |err: Error| non_empty_outcome(j.file->0@, m, Err(err)))
        },
        (UploadState::UploadingFile { local_size }, Event::FileUploaded(ok)) => if !ok {
            fails_such_that(n.state, a, |err: Error| err matches Error::StorageUpload { path, message } && path == j.file->0 && message@ == upload_failed_message())
        } else if j.verify_remote {
            match crate::storage::file_name_of(j.file->0@) {
                Some(name) => n.state matches UploadState::ListingFile { key, local_size: ls } && ls
                    == local_size && key@ == crate::storage::object_key_of(j.cos_path@, name) && a
                    == Action::List { prefix: key },
                None => fails_such_that(n.state, a, |err: Error| invalid_path_failure(j.file->0@, err)),
            }
        } else {
            upload_done(j.has_webhook, file_uploaded_message(j.file->0@), n.state, a)
        },
        (UploadState::ListingFile { key, local_size }, Event::Listed(listed)) => match listed {
            Err(msg) => fails_with(n.state, a, Error::StorageList(msg)),
            Ok(files) => if remote_size_matches(files@, key@, local_size) {
                upload_done(j.has_webhook, file_uploaded_message(j.file->0@), n.state, a)
            } else {
                fails_such_that(n.state, a, |err: Error| remote_size_failure(files@, key@, local_size, err))
            },
        },
        (UploadState::UploadingAll, Event::AllUploaded(uploaded)) => match uploaded {
            None => fails_such_that(n.state, a, |err: Error| err matches Error::Storage(m) && m@ == upload_failed_message()),
            Some(paths) => if j.verify_remote {
                verify_from(j.has_webhook, paths, 0, n.state, a)
            } else {
                upload_done(j.has_webhook, all_uploaded_message(), n.state, a)
            },
        },
        (UploadState::MeasuringAll { paths, index }, Event::Measured(m)) => if m matches Ok(len)
            && len > 0 {
            match crate::storage::file_name_of(paths@[index as int]@) {
                Some(name) => n.state matches UploadState::ListingAll {
                    paths: p,
                    index: i,
                    key,
                    local_size: ls,
                } && p == paths && i == index && ls == m->Ok_0 && key@
                    == crate::storage::object_key_of(j.cos_path@, name) && a == Action::List {
                    prefix: key,
                },
                None => fails_such_that(n.state, a, |err: Error| invalid_path_failure(paths@[index as int]@, err)),
            }
        } else {
            fails_such_that(n.state, a, |err: Error| non_empty_outcome(paths@[index as int]@, m, Err(err)))
        },
        (UploadState::ListingAll { paths, index, key, local_size }, Event::Listed(listed)) => match listed {
            Err(msg) => fails_with(n.state, a, Error::StorageList(msg)),
            Ok(files) => if remote_size_matches(files@, key@, local_size) {
                verify_from(j.has_webhook, paths, index + 1, n.state, a)
            } else {
                fails_such_that(n.state, a, |err: Error| remote_size_failure(files@, key@, local_size, err))
            },
        },
        (UploadState::Notifying, Event::Notified(Ok(()))) => n.state is Done && a
            == Action::Finish { result: Ok(()) },
        (UploadState::Notifying, Event::Notified(Err(msg))) => fails_with(
            n.state,
            a,
            Error::Notification(msg),
        ),
        _ => false,
    }
}

/// Notify with `message` when a webhook is configured, or finish.
fn conclude_upload(has_webhook: bool, message: String) -> (r: (UploadState, Action))
    ensures
        upload_done(has_webhook, message@, r.0, r.1),
{
    if has_webhook {
        (UploadState::Notifying, progress_notice(message))
    } else {
        (UploadState::Done, Action::Finish { result: Ok(()) })
    }
}

/// Measure the archive `paths[index]`, or conclude when none is left.
fn verify_next(has_webhook: bool, paths: Vec<String>, index: usize) -> (r: (UploadState, Action))
    ensures
        verify_from(has_webhook, paths, index as int, r.0, r.1),
        r.0 matches UploadState::MeasuringAll { paths, index } ==> index < paths.len(),
{
    if index < paths.len() {
        let path = paths[index].clone();
        (UploadState::MeasuringAll { paths, index }, Action::Measure { path })
    } else {
        conclude_upload(has_webhook, String::from_str("所有备份文件上传成功"))
    }
}

/// The outcome of comparing the listing with the uploaded size.
fn compare_remote_size(files: &Vec<CosItem>, key: &str, local_size: u64) -> (r: Result<(), Error>)
    ensures
        r is Ok <==> remote_size_matches(files@, key@, local_size),
        r matches Err(err) ==> remote_size_failure(files@, key@, local_size, err),
{
    let r = check_remote_upload_size(files.as_slice(), key, local_size);
    proof {
        if exists|i: int| 0 <= i < files@.len() && files@[i].key@ == key@ {
            let i = choose|i: int| 0 <= i < files@.len() && files@[i].key@ == key@;
            lemma_first_with_key_exists(files@, key@, i);
        }
    }
    r
}

/// When some entry has `key`, a first such entry exists.
proof fn lemma_first_with_key_exists(files: Seq<CosItem>, key: Seq<char>, i: int)
    requires
        0 <= i < files.len(),
        files[i].key@ == key,
    ensures
        exists|k: int| crate::storage::is_first_with_key(files, key, k),
    decreases i,
{
    if forall|j: int| 0 <= j < i ==> files[j].key@ != key {
        assert(crate::storage::is_first_with_key(files, key, i));
    } else {
        let j = choose|j: int| 0 <= j < i && files[j].key@ == key;
        lemma_first_with_key_exists(files, key, j);
    }
}

impl UploadJob {
    /// An upload of `file`, or of every archive when `all`, with the backup
    /// directory, key prefix and storage of `config`; it notifies when
    /// `has_webhook`.
    pub fn new(file: Option<String>, all: bool, config: &AppConfig, has_webhook: bool) -> (r:
        UploadJob)
        ensures
            r.file == file,
            r.all == all,
            r.backup_dir@ == config.backup_dir@,
            r.cos_path == config.cos_path,
            r.verify_remote == (config.cos_provider != CosProvider::LocalStorage),
            r.has_webhook == has_webhook,
            r.state is Start,
            upload_wf(r),
    {
        UploadJob {
            file,
            all,
            backup_dir: vstd::slice::slice_to_vec(config.backup_dir.as_slice()),
            cos_path: config.cos_path.clone(),
            verify_remote: config.cos_provider != CosProvider::LocalStorage,
            has_webhook,
            state: UploadState::Start,
        }
    }

    /// Feeds the outcome `e` of the last action; returns the job and the
    /// next action.
    pub fn step(self, e: Event) -> (r: (UploadJob, Action))
        requires
            upload_wf(self),
            upload_accepts(self.state, e),
        ensures
            upload_step(self, e, r.0, r.1),
    {
        let UploadJob { file, all, backup_dir, cos_path, verify_remote, has_webhook, state } = self;
        let (state, action): (UploadState, Action) = match (state, e) {
            (UploadState::Start, Event::Started) => match &file {
                Some(f) => (UploadState::CheckingFile, Action::CheckExists { path: f.clone() }),
                None => if all {
                    (
                        UploadState::UploadingAll,
                        Action::UploadAll {
                            dir: vstd::slice::slice_to_vec(backup_dir.as_slice()),
                            cos_path: cos_path.clone(),
                        },
                    )
                } else {
                    (
                        UploadState::Done,
                        Action::Finish {
                            result: Err(
                                Error::CommandExecution(
                                    String::from_str("Please specify either --file or --all flag"),
                                ),
                            ),
                        },
                    )
                },
            },
            (UploadState::CheckingFile, Event::Exists(found)) => {
                let f = file.as_ref().unwrap().clone();
                if found {
                    (UploadState::MeasuringFile, Action::Measure { path: f })
                } else {
                    (UploadState::Done, Action::Finish { result: Err(Error::FileNotFound(f)) })
                }
            },
            (UploadState::MeasuringFile, Event::Measured(m)) => {
                let f = file.as_ref().unwrap();
                match check_file_non_empty(f.as_str(), m) {
                    Ok(len) => (
                        UploadState::UploadingFile { local_size: len },
                        Action::UploadFile { path: f.clone(), cos_path: cos_path.clone() },
                    ),
                    Err(err) => (UploadState::Done, Action::Finish { result: Err(err) }),
                }
            },
            (UploadState::UploadingFile { local_size }, Event::FileUploaded(ok)) => {
                let f = file.as_ref().unwrap();
                if !ok {
                    (
                        UploadState::Done,
                        Action::Finish {
                            result: Err(
                                Error::StorageUpload {
                                    path: f.clone(),
                                    message: String::from_str("upload failed"),
                                },
                            ),
                        },
                    )
                } else if verify_remote {
                    match build_object_key(f.as_str(), cos_path.as_str()) {
                        Ok((_, key)) => {
                            let prefix = key.clone();
                            (UploadState::ListingFile { key, local_size }, Action::List { prefix })
                        },
                        Err(err) => (UploadState::Done, Action::Finish { result: Err(err) }),
                    }
                } else {
                    conclude_upload(has_webhook, crate::text::concat2(f.as_str(), " 上传成功"))
                }
            },
            (UploadState::ListingFile { key, local_size }, Event::Listed(listed)) => match listed {
                Err(msg) => (UploadState::Done, Action::Finish { result: Err(Error::StorageList(msg)) }),
                Ok(files) => match compare_remote_size(&files, key.as_str(), local_size) {
                    Ok(()) => conclude_upload(
                        has_webhook,
                        crate::text::concat2(file.as_ref().unwrap().as_str(), " 上传成功"),
                    ),
                    Err(err) => (UploadState::Done, Action::Finish { result: Err(err) }),
                },
            },
            (UploadState::UploadingAll, Event::AllUploaded(uploaded)) => match uploaded {
                None => (
                    UploadState::Done,
                    Action::Finish { result: Err(Error::Storage(String::from_str("upload failed"))) },
                ),
                Some(paths) => if verify_remote {
                    verify_next(has_webhook, paths, 0)
                } else {
                    conclude_upload(has_webhook, String::from_str("所有备份文件上传成功"))
                },
            },
            (UploadState::MeasuringAll { paths, index }, Event::Measured(m)) => {
                match check_file_non_empty(paths[index].as_str(), m) {
                    Ok(len) => match build_object_key(paths[index].as_str(), cos_path.as_str()) {
                        Ok((_, key)) => {
                            let prefix = key.clone();
                            (
                                UploadState::ListingAll { paths, index, key, local_size: len },
                                Action::List { prefix },
                            )
                        },
                        Err(err) => (UploadState::Done, Action::Finish { result: Err(err) }),
                    },
                    Err(err) => (UploadState::Done, Action::Finish { result: Err(err) }),
                }
            },
            (UploadState::ListingAll { paths, index, key, local_size }, Event::Listed(listed)) => match listed {
                Err(msg) => (UploadState::Done, Action::Finish { result: Err(Error::StorageList(msg)) }),
                Ok(files) => match compare_remote_size(&files, key.as_str(), local_size) {
                    Ok(()) => verify_next(has_webhook, paths, index + 1),
                    Err(err) => (UploadState::Done, Action::Finish { result: Err(err) }),
                },
            },
            (UploadState::Notifying, Event::Notified(Ok(()))) => (
                UploadState::Done,
                Action::Finish { result: Ok(()) },
            ),
            (UploadState::Notifying, Event::Notified(Err(msg))) => (
                UploadState::Done,
                Action::Finish { result: Err(Error::Notification(msg)) },
            ),
            (state, _) => {
                proof {
                    assert(false);
                }
                (state, Action::Finish { result: Ok(()) })
            },
        };
        (UploadJob { file, all, backup_dir, cos_path, verify_remote, has_webhook, state }, action)
    }
}


// ---------------------------------------------------------------------------
// delete
// ---------------------------------------------------------------------------

/// Where a delete stands.
#[derive(Debug)]
pub enum DeleteState {
    Start,
    /// Deleting the single object given by key.
    DeletingKey,
    /// Listing the remote backups.
    Listing,
    /// Deleting `expired[index]`.
    DeletingExpired { expired: Vec<CosItem>, index: usize },
    Done,
}

/// The `delete` command on the remote storage: one object by key (`--key`),
/// or every non-empty backup below the prefix that expired under the
/// retention (`--all`), deleted one after the other.
#[derive(Debug)]
pub struct DeleteJob {
    pub key: Option<String>,
    pub all: bool,
    /// The key prefix listed for `--all`.
    pub prefix: String,
    pub retention_days: Option<u32>,
    /// The current day.
    pub today: i32,
    pub state: DeleteState,
}

/// The error reported when neither `--key` nor `--all` is given.
pub open spec fn delete_usage_message() -> Seq<char> {
    "Please specify either --key or --all flag"@
}

/// The message of the error reported when deleting an expired backup fails.
pub open spec fn delete_failed_message() -> Seq<char> {
    "delete failed"@
}

/// The delete's state fits the job: the objects being deleted are expired
/// ones of a listing, and the index stays within them.
pub open spec fn delete_wf(j: DeleteJob) -> bool {
    &&& is_valid_day(j.today as int)
    &&& (j.state is Listing || j.state is DeletingExpired) ==> (j.key is None && j.all)
    &&& j.state is DeletingKey ==> j.key is Some
    &&& j.state matches DeleteState::DeletingExpired { expired, index } ==> {
        &&& index < expired@.len() <= usize::MAX
        &&& forall|i: int| 0 <= i < expired@.len() ==> is_expired_remote(
            #[trigger] expired@[i],
            j.today as int,
            j.retention_days,
        )
    }
}

/// The event `e` answers the action the delete asked for in state `s`.
pub open spec fn delete_accepts(s: DeleteState, e: Event) -> bool {
    match s {
        DeleteState::Start => e is Started,
        DeleteState::DeletingKey => e is Deleted,
        DeleteState::Listing => e is Listed,
        DeleteState::DeletingExpired { .. } => e is Deleted,
        DeleteState::Done => false,
    }
}

/// The delete `j` can judge the event `e`: a listing that holds a non-empty
/// object is compared with the retention cutoff, which must then be a
/// representable date.
pub open spec fn delete_can_judge(j: DeleteJob, e: Event) -> bool {
    match (j.state, e) {
        (DeleteState::Listing, Event::Listed(Ok(files))) => cutoff_in_range(
            j.today as int,
            j.retention_days,
        ) || !has_non_empty(files@),
        _ => true,
    }
}

/// Deletion of the expired objects goes on from `index`: delete the next
/// one, or finish when none is left.
pub open spec fn delete_from(expired: Vec<CosItem>, index: int, s: DeleteState, a: Action) -> bool {
    if index < expired@.len() {
        s == DeleteState::DeletingExpired { expired, index: index as usize } && a == Action::Delete {
            key: expired@[index].key,
        }
    } else {
        s is Done && a == Action::Finish { result: Ok(()) }
    }
}

/// One step of the delete: from `j`, on `e`, the job becomes `n` and asks for
/// `a`.
pub open spec fn delete_step(j: DeleteJob, e: Event, n: DeleteJob, a: Action) -> bool {
    &&& n.key == j.key
    &&& n.all == j.all
    &&& n.prefix == j.prefix
    &&& n.retention_days == j.retention_days
    &&& n.today == j.today
    &&& delete_wf(n)
    &&& match (j.state, e) {
        (DeleteState::Start, Event::Started) => match j.key {
            Some(k) => n.state is DeletingKey && a == Action::Delete { key: k },
            None => if j.all {
                n.state is Listing && a == Action::List { prefix: j.prefix }
            } else {
                &&& n.state is Done
                &&& a matches Action::Finish { result: Err(Error::CommandExecution(m)) }
                &&& m@ == delete_usage_message()
            },
        },
        (DeleteState::DeletingKey, Event::Deleted(Ok(()))) => n.state is Done && a
            == Action::Finish { result: Ok(()) },
        (DeleteState::DeletingKey, Event::Deleted(Err(msg))) => n.state is Done && a
            == Action::Finish { result: Err(Error::StorageDelete { key: j.key->0, message: msg }) },
        (DeleteState::Listing, Event::Listed(Err(msg))) => n.state is Done && a == Action::Finish {
            result: Err(Error::StorageList(msg)),
        },
        (DeleteState::Listing, Event::Listed(Ok(files))) => {
            &&& n.state matches DeleteState::DeletingExpired { expired, .. } ==> expired@
                == files@.filter(
                |item: CosItem| is_expired_remote(item, j.today as int, j.retention_days),
            )
            &&& (n.state is Done && a == Action::Finish { result: Ok(()) }) <==> files@.filter(
                |item: CosItem| is_expired_remote(item, j.today as int, j.retention_days),
            ).len() == 0
            &&& exists|expired: Vec<CosItem>|
                expired@ == files@.filter(
                    |item: CosItem| is_expired_remote(item, j.today as int, j.retention_days),
                ) && delete_from(expired, 0, n.state, a)
        },
        (DeleteState::DeletingExpired { expired, index }, Event::Deleted(Ok(()))) => delete_from(
            expired,
            index + 1,
            n.state,
            a,
        ),
        (DeleteState::DeletingExpired { expired, index }, Event::Deleted(Err(_))) => {
            &&& n.state is Done
            &&& a matches Action::Finish { result: Err(Error::StorageDelete { key, message }) }
            &&& key == expired@[index as int].key
            &&& message@ == delete_failed_message()
        },
        _ => false,
    }
}

/// Delete `expired[index]`, or finish when none is left.
fn delete_next(expired: Vec<CosItem>, index: usize) -> (r: (DeleteState, Action))
    ensures
        delete_from(expired, index as int, r.0, r.1),
        r.0 matches DeleteState::DeletingExpired { expired, .. } ==> expired@.len() <= usize::MAX,
{
    if index < expired.len() {
        let key = expired[index].key.clone();
        (DeleteState::DeletingExpired { expired, index }, Action::Delete { key })
    } else {
        (DeleteState::Done, Action::Finish { result: Ok(()) })
    }
}

impl DeleteJob {
    /// A delete of `key`, or of every expired backup below `prefix` when
    /// `all`, judged on `today` with `retention_days`.
    pub fn new(
        key: Option<String>,
        all: bool,
        prefix: String,
        retention_days: Option<u32>,
        today: i32,
    ) -> (r: DeleteJob)
        requires
            is_valid_day(today as int),
        ensures
            r.key == key,
            r.all == all,
            r.prefix == prefix,
            r.retention_days == retention_days,
            r.today == today,
            r.state is Start,
            delete_wf(r),
    {
        DeleteJob { key, all, prefix, retention_days, today, state: DeleteState::Start }
    }

    /// Feeds the outcome `e` of the last action; returns the job and the
    /// next action.
    pub fn step(self, e: Event) -> (r: (DeleteJob, Action))
        requires
            delete_wf(self),
            delete_accepts(self.state, e),
            delete_can_judge(self, e),
        ensures
            delete_step(self, e, r.0, r.1),
    {
        let DeleteJob { key, all, prefix, retention_days, today, state } = self;
        let (state, action): (DeleteState, Action) = match (state, e) {
            (DeleteState::Start, Event::Started) => match &key {
                Some(k) => (DeleteState::DeletingKey, Action::Delete { key: k.clone() }),
                None => if all {
                    (DeleteState::Listing, Action::List { prefix: prefix.clone() })
                } else {
                    (
                        DeleteState::Done,
                        Action::Finish {
                            result: Err(
                                Error::CommandExecution(
                                    String::from_str("Please specify either --key or --all flag"),
                                ),
                            ),
                        },
                    )
                },
            },
            (DeleteState::DeletingKey, Event::Deleted(Ok(()))) => (
                DeleteState::Done,
                Action::Finish { result: Ok(()) },
            ),
            (DeleteState::DeletingKey, Event::Deleted(Err(msg))) => (
                DeleteState::Done,
                Action::Finish {
                    result: Err(
                        Error::StorageDelete { key: key.as_ref().unwrap().clone(), message: msg },
                    ),
                },
            ),
            (DeleteState::Listing, Event::Listed(Err(msg))) => (
                DeleteState::Done,
                Action::Finish { result: Err(Error::StorageList(msg)) },
            ),
            (DeleteState::Listing, Event::Listed(Ok(files))) => {
                let expired = select_expired_remote_files(files, today, retention_days);
                let ghost ex = expired;
                proof {
                    assert forall|i: int| 0 <= i < expired@.len() implies is_expired_remote(
                        #[trigger] expired@[i],
                        today as int,
                        retention_days,
                    ) by {
                        let p = |item: CosItem| is_expired_remote(item, today as int, retention_days);
                        files@.lemma_filter_pred(p, i);
                    }
                }
                let r = delete_next(expired, 0);
                assert(delete_from(ex, 0, r.0, r.1));
                r
            },
            (DeleteState::DeletingExpired { expired, index }, Event::Deleted(Ok(()))) => {
                let n = expired.len();
                assert(index < n);
                delete_next(expired, index + 1)
            },
            (DeleteState::DeletingExpired { expired, index }, Event::Deleted(Err(_))) => (
                DeleteState::Done,
                Action::Finish {
                    result: Err(
                        Error::StorageDelete {
                            key: expired[index].key.clone(),
                            message: String::from_str("delete failed"),
                        },
                    ),
                },
            ),
            (state, _) => {
                proof {
                    assert(false);
                }
                (state, Action::Finish { result: Ok(()) })
            },
        };
        (DeleteJob { key, all, prefix, retention_days, today, state }, action)
    }
}

} // verus!
