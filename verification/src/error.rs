use vstd::prelude::*;
use vstd::string::StringExecFns;

verus! {

/// The conditions an input or output failure can report, as far as the retry
/// rules tell them apart. Every condition without a variant of its own is
/// `Uncategorized`.
#[derive(Debug, Clone, Copy, PartialEq, Eq, Structural)]
pub enum IoErrorKind {
    NotFound,
    PermissionDenied,
    ConnectionRefused,
    ConnectionReset,
    ConnectionAborted,
    NotConnected,
    AddrInUse,
    AddrNotAvailable,
    BrokenPipe,
    AlreadyExists,
    WouldBlock,
    InvalidInput,
    InvalidData,
    TimedOut,
    WriteZero,
    Interrupted,
    Unsupported,
    UnexpectedEof,
    OutOfMemory,
    Other,
    Uncategorized,
}

/// An input or output failure: its condition and the text that describes it.
#[derive(Debug, Clone)]
pub struct IoFailure {
    pub kind: IoErrorKind,
    pub message: String,
}

#[derive(Debug, Clone)]
pub enum ServiceError {
    Io(IoFailure),
    PathNotAllowed,
    DirectoryAlreadyExists,
    FileNotFound(String),
    PermissionDenied,
    ContentSearchError(String),
    InvalidMediaFile(String),
}

pub type ServiceResult<T> = Result<T, ServiceError>;

impl ServiceError {
    /// The text shown to a caller for this error.
    pub open spec fn message_spec(&self) -> Seq<char> {
        match self {
            ServiceError::Io(failure) => "IO error: "@ + failure.message@,
            ServiceError::PathNotAllowed => "Path is outside allowed directories"@,
            ServiceError::DirectoryAlreadyExists => "Directory already exists"@,
            ServiceError::FileNotFound(path) => "File not found: "@ + path@,
            ServiceError::PermissionDenied => "Permission denied"@,
            ServiceError::ContentSearchError(text) => text@,
            ServiceError::InvalidMediaFile(mime) =>
                "The file is either not an image/audio type or is unsupported (mime:"@ + mime@ + ")."@,
        }
    }

    pub fn message(&self) -> (text: String)
        ensures
            text@ == self.message_spec(),
    {
        match self {
            ServiceError::Io(failure) => String::from_str("IO error: ").concat(
                failure.message.as_str(),
            ),
            ServiceError::PathNotAllowed => String::from_str("Path is outside allowed directories"),
            ServiceError::DirectoryAlreadyExists => String::from_str("Directory already exists"),
            ServiceError::FileNotFound(path) => String::from_str("File not found: ").concat(
                path.as_str(),
            ),
            ServiceError::PermissionDenied => String::from_str("Permission denied"),
            ServiceError::ContentSearchError(text) => text.clone(),
            ServiceError::InvalidMediaFile(mime) => String::from_str(
                "The file is either not an image/audio type or is unsupported (mime:",
            ).concat(mime.as_str()).concat(")."),
        }
    }

    /// An input or output failure becomes `PermissionDenied` when that is its
    /// condition, and is kept as it is otherwise.
    pub fn from_io(failure: IoFailure) -> (error: ServiceError)
        ensures
            error == (if failure.kind == IoErrorKind::PermissionDenied {
                ServiceError::PermissionDenied
            } else {
                ServiceError::Io(failure)
            }),
    {
        match failure.kind {
            IoErrorKind::PermissionDenied => ServiceError::PermissionDenied,
            _ => ServiceError::Io(failure),
        }
    }
}

} // verus!
