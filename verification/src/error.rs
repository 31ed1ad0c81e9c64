//! The errors the library reports.
use vstd::prelude::*;

verus! {

/// The kind of a failed input/output operation: one variant for each kind
/// that `std::io::ErrorKind` distinguishes.
#[derive(Clone, Copy, Debug, PartialEq, Eq, Structural)]
pub enum IoErrorKind {
    /// The file or program was not found.
    NotFound,
    PermissionDenied,
    ConnectionRefused,
    ConnectionReset,
    HostUnreachable,
    NetworkUnreachable,
    ConnectionAborted,
    NotConnected,
    AddrInUse,
    AddrNotAvailable,
    NetworkDown,
    BrokenPipe,
    AlreadyExists,
    WouldBlock,
    NotADirectory,
    IsADirectory,
    DirectoryNotEmpty,
    ReadOnlyFilesystem,
    FilesystemLoop,
    StaleNetworkFileHandle,
    InvalidInput,
    InvalidData,
    TimedOut,
    WriteZero,
    StorageFull,
    NotSeekable,
    QuotaExceeded,
    FileTooLarge,
    ResourceBusy,
    ExecutableFileBusy,
    Deadlock,
    CrossesDevices,
    TooManyLinks,
    InvalidFilename,
    ArgumentListTooLong,
    Interrupted,
    Unsupported,
    UnexpectedEof,
    OutOfMemory,
    InProgress,
    /// Any other failure that the operation itself reported as such.
    Other,
    /// A failure the operating system reported without a more specific kind.
    Uncategorized,
}

/// A failed input/output operation: its kind and its message.
#[derive(Debug)]
pub struct IoError {
    pub kind: IoErrorKind,
    pub message: String,
}

/// Everything that can go wrong in a backup, upload, delete or listing.
#[derive(Debug)]
pub enum Error {
    /// An input/output operation failed.
    Io(IoError),
    /// A file or an uploaded object is not what it should be.
    Integrity(String),
    /// Listing the remote storage failed.
    StorageList(String),
    /// Uploading a file failed.
    StorageUpload { path: String, message: String },
    /// Uploading several files failed.
    Storage(String),
    /// Deleting a remote object failed.
    StorageDelete { key: String, message: String },
    /// Sending a notification failed.
    Notification(String),
    /// A local file does not exist.
    FileNotFound(String),
    /// The command was given inconsistent options, or a task failed.
    CommandExecution(String),
    /// Compressing a backup failed.
    Compression(String),
    /// A path could not be resolved.
    PathResolution(String),
    /// A configured value or a path is unusable.
    InvalidConfig(String),
    /// Dumping the database failed.
    DatabaseBackup(String),
}

} // verus!
