//! I/O failures as plain values, and what they mean to a caller.

use vstd::prelude::*;

use crate::text::owned;

verus! {

/// The kinds of I/O failure that decisions depend on.
#[derive(Debug, Clone, Copy, PartialEq, Eq, Structural)]
pub enum ErrorKind {
    NotFound,
    PermissionDenied,
    AlreadyExists,
    InvalidInput,
    InvalidData,
    DirectoryNotEmpty,
    BrokenPipe,
    Unsupported,
    StorageFull,
    Other,
}

/// An I/O failure: its kind, the code of the operating system where one was
/// given, and its text.
#[derive(Debug, Clone)]
pub struct IoError {
    pub kind: ErrorKind,
    pub raw_os_error: Option<i32>,
    pub message: String,
}

impl IoError {
    /// A failure of this kind and text that no system call reported.
    pub open spec fn says(&self, kind: ErrorKind, message: Seq<char>) -> bool {
        self.kind == kind && self.raw_os_error is None && self.message@ == message
    }

    pub fn new(kind: ErrorKind, message: &str) -> (r: IoError)
        ensures
            r.says(kind, message@),
    {
        IoError { kind, raw_os_error: None, message: owned(message) }
    }

    /// A failure of no particular kind.
    pub fn other(message: &str) -> (r: IoError)
        ensures
            r.says(ErrorKind::Other, message@),
    {
        IoError::new(ErrorKind::Other, message)
    }
}

/// The codes by which the operating system reports a full disk, as far as the
/// platform has any: no space and an exhausted quota, or its like.
#[derive(Debug, Clone, Copy, PartialEq, Eq, Structural)]
pub struct DiskFullCodes {
    pub no_space: Option<i32>,
    pub quota: Option<i32>,
}

/// Whether a failure reports a full disk, given the platform's codes.
pub open spec fn disk_full(e: IoError, codes: DiskFullCodes) -> bool {
    ||| e.kind == ErrorKind::StorageFull
    ||| e.raw_os_error is Some && e.raw_os_error == codes.no_space
    ||| e.raw_os_error is Some && e.raw_os_error == codes.quota
}

/// Whether a failure reports a full disk, given the platform's codes.
pub fn is_disk_full_io_error(e: &IoError, codes: DiskFullCodes) -> (r: bool)
    ensures
        r == disk_full(*e, codes),
{
    if e.kind == ErrorKind::StorageFull {
        return true;
    }
    match e.raw_os_error {
        Some(raw) => {
            let no_space = match codes.no_space {
                Some(code) => raw == code,
                None => false,
            };
            let quota = match codes.quota {
                Some(code) => raw == code,
                None => false,
            };
            no_space || quota
        },
        None => false,
    }
}

/// A failure as a client sees it: a sentence for the user, a stable code for
/// log aggregation and the original text.
#[derive(Debug, Clone)]
pub struct ClientError {
    pub message: String,
    pub code: String,
    pub detail: String,
}

/// The sentence and the code shown for a failure.
pub open spec fn client_text(kind: ErrorKind, full: bool) -> (Seq<char>, Seq<char>) {
    if full {
        ("No space left on device"@, "FS_DISK_QUOTA_EXCEEDED"@)
    } else if kind == ErrorKind::NotFound {
        ("Path not found."@, "FS_NOT_FOUND"@)
    } else if kind == ErrorKind::PermissionDenied {
        ("Permission denied."@, "FS_PERMISSION_DENIED"@)
    } else {
        ("An unexpected I/O error occurred."@, "FS_OTHER"@)
    }
}

/// Describes a failure to a client, given the platform's disk-full codes.
pub fn io_error_to_acp(e: &IoError, codes: DiskFullCodes) -> (r: ClientError)
    ensures
        (r.message@, r.code@) == client_text(e.kind, disk_full(*e, codes)),
        r.detail@ == e.message@,
{
    let (message, code) = if is_disk_full_io_error(e, codes) {
        (owned("No space left on device"), owned("FS_DISK_QUOTA_EXCEEDED"))
    } else {
        match e.kind {
            ErrorKind::NotFound => (owned("Path not found."), owned("FS_NOT_FOUND")),
            ErrorKind::PermissionDenied => (
                owned("Permission denied."),
                owned("FS_PERMISSION_DENIED"),
            ),
            _ => (owned("An unexpected I/O error occurred."), owned("FS_OTHER")),
        }
    };
    ClientError { message, code, detail: e.message.clone() }
}

} // verus!
