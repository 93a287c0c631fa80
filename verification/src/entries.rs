//! What a directory entry has to be for a session to be built on it.

use vstd::prelude::*;
use vstd::string::*;

use crate::io_error::{ErrorKind, IoError};
use crate::text::owned;

verus! {

/// What an entry is, itself and not what it may link to.
#[derive(Debug, Clone, Copy, PartialEq, Eq, Structural)]
pub enum EntryType {
    Dir,
    /// A directory that the file system redirects.
    ReparsePoint,
    File,
    Symlink,
    Other,
}

/// The text of a refusal, with the path where one is to be shown.
pub open spec fn refusal(what: Seq<char>, path: Option<Seq<char>>) -> Seq<char> {
    match path {
        Some(path) => what + ": "@ + path,
        None => what,
    }
}

fn refuse(what: &str, path: Option<&str>) -> (r: IoError)
    ensures
        r.says(
            ErrorKind::InvalidData,
            refusal(
                what@,
                match path {
                    Some(path) => Some(path@),
                    None => None,
                },
            ),
        ),
{
    let mut text = owned(what);
    if let Some(path) = path {
        text.append(": ");
        text.append(path);
    }
    IoError::new(ErrorKind::InvalidData, text.as_str())
}

/// Accepts a directory of its own: nothing else, no link to one, and none that
/// is redirected.
pub fn require_real_directory(entry: EntryType, path: Option<&str>) -> (r: Result<(), IoError>)
    ensures
        r is Ok <==> entry == EntryType::Dir,
        r matches Err(e) ==> e.says(
            ErrorKind::InvalidData,
            refusal(
                if entry == EntryType::ReparsePoint {
                    "directory is a reparse point"@
                } else {
                    "not a real directory"@
                },
                match path {
                    Some(path) => Some(path@),
                    None => None,
                },
            ),
        ),
{
    match entry {
        EntryType::Dir => Ok(()),
        EntryType::ReparsePoint => Err(refuse("directory is a reparse point", path)),
        _ => Err(refuse("not a real directory", path)),
    }
}

/// How an entry of a finished stage is made durable.
#[derive(Debug, Clone, Copy, PartialEq, Eq, Structural)]
pub enum SyncEntry {
    /// Sync what is in it, then the directory.
    Tree,
    File,
}

/// How an entry of a finished stage is made durable. A stage holds files and
/// directories and nothing else.
pub fn sync_entry(entry: EntryType, path: &str) -> (r: Result<SyncEntry, IoError>)
    ensures
        match entry {
            EntryType::Dir => r == Ok::<SyncEntry, IoError>(SyncEntry::Tree),
            EntryType::ReparsePoint => r == Ok::<SyncEntry, IoError>(SyncEntry::Tree),
            EntryType::File => r == Ok::<SyncEntry, IoError>(SyncEntry::File),
            _ => r matches Err(e) && e.says(
                ErrorKind::InvalidData,
                refusal("unexpected non-file in fork target"@, Some(path@)),
            ),
        },
{
    match entry {
        EntryType::Dir => Ok(SyncEntry::Tree),
        EntryType::ReparsePoint => Ok(SyncEntry::Tree),
        EntryType::File => Ok(SyncEntry::File),
        _ => Err(refuse("unexpected non-file in fork target", Some(path))),
    }
}

/// What follows an attempt to create a directory that may be there already.
#[derive(Debug)]
pub enum CreateOrOpen {
    Created,
    /// It is there: open it.
    Open,
    Failed(IoError),
}

/// What follows an attempt to create a directory that may be there already.
pub fn open_or_create_child_dir(created: Result<(), IoError>) -> (r: CreateOrOpen)
    ensures
        r == (match created {
            Ok(_) => CreateOrOpen::Created,
            Err(e) => if e.kind == ErrorKind::AlreadyExists {
                CreateOrOpen::Open
            } else {
                CreateOrOpen::Failed(e)
            },
        }),
{
    match created {
        Ok(_) => CreateOrOpen::Created,
        Err(e) => if e.kind == ErrorKind::AlreadyExists {
            CreateOrOpen::Open
        } else {
            CreateOrOpen::Failed(e)
        },
    }
}

} // verus!
