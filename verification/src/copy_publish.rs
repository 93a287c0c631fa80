//! The namespace commit of a forked session, as a machine from state and event
//! to the next step.
//!
//! As in [`crate::publish`] the fork becomes visible by one rename that
//! replaces nothing. The fork's cwd directory may exist, be missing, appear
//! meanwhile, or refuse to be probed; every path either leaves the stage
//! private or ends in that one rename.

use vstd::prelude::*;
use vstd::string::*;
use vstd::utf8::encode_utf8;

use crate::io_error::{ErrorKind, IoError};
use crate::naming::{cwd_metadata_matches, needs_cwd_file, needs_cwd_metadata};
use crate::publish::Level;
use crate::text::owned;

verus! {

/// Where in the publication of a fork a failure came up.
#[derive(Debug, Clone, Copy, PartialEq, Eq, Structural)]
pub enum Place {
    CanonicalRoot,
    CanonicalSessions,
    CanonicalParent,
    CanonicalFork,
    StagedTree,
    DestParent { exists: bool },
    ExistingMetadata,
    ExistingMarker,
    ExistingSync,
    ExistingRename,
    StagedMetadata,
    ContainerMarker,
    ContainerSync,
    ReopenStage,
    CreateCollision,
    CreateDirAll,
    AfterCreateDirAll,
    DestMetadata,
    PathPublish,
    ReopenPublished,
}

/// The words put before a failure that came up at a place. `shown_parent` is
/// the name of the cwd directory in quotes, as messages show it.
pub open spec fn place_text(place: Place, shown_parent: Seq<char>) -> Seq<char> {
    match place {
        Place::CanonicalRoot => "open canonical root"@,
        Place::CanonicalSessions => "open canonical sessions"@,
        Place::CanonicalParent => "open canonical parent"@,
        Place::CanonicalFork => "open canonical fork"@,
        Place::StagedTree => "sync staged tree"@,
        Place::DestParent { exists } => if exists {
            "open dest parent exists=true name="@ + shown_parent
        } else {
            "open dest parent exists=false name="@ + shown_parent
        },
        Place::ExistingMetadata => "validate existing dest parent cwd metadata"@,
        Place::ExistingMarker => "remove unpublished marker on existing dest parent"@,
        Place::ExistingSync => "sync stage before rename into existing dest parent"@,
        Place::ExistingRename => "rename session into existing dest parent"@,
        Place::StagedMetadata => "write staged cwd metadata"@,
        Place::ContainerMarker => "remove unpublished marker before container rename"@,
        Place::ContainerSync => "sync stage before container rename"@,
        Place::ReopenStage => "reopen stage child after container rename"@,
        Place::CreateCollision => "open dest parent after create collision"@,
        Place::CreateDirAll => "create_dir_all dest parent after handle create failed"@,
        Place::AfterCreateDirAll => "open dest parent after create_dir_all"@,
        Place::DestMetadata => "write dest parent cwd metadata"@,
        Place::PathPublish => "path publish session child"@,
        Place::ReopenPublished => "reopen published child after path publish"@,
    }
}

fn place_words(place: Place, shown_parent: &str) -> (r: String)
    ensures
        r@ == place_text(place, shown_parent@),
{
    match place {
        Place::CanonicalRoot => owned("open canonical root"),
        Place::CanonicalSessions => owned("open canonical sessions"),
        Place::CanonicalParent => owned("open canonical parent"),
        Place::CanonicalFork => owned("open canonical fork"),
        Place::StagedTree => owned("sync staged tree"),
        Place::DestParent { exists } => {
            let mut text = if exists {
                owned("open dest parent exists=true name=")
            } else {
                owned("open dest parent exists=false name=")
            };
            text.append(shown_parent);
            text
        },
        Place::ExistingMetadata => owned("validate existing dest parent cwd metadata"),
        Place::ExistingMarker => owned("remove unpublished marker on existing dest parent"),
        Place::ExistingSync => owned("sync stage before rename into existing dest parent"),
        Place::ExistingRename => owned("rename session into existing dest parent"),
        Place::StagedMetadata => owned("write staged cwd metadata"),
        Place::ContainerMarker => owned("remove unpublished marker before container rename"),
        Place::ContainerSync => owned("sync stage before container rename"),
        Place::ReopenStage => owned("reopen stage child after container rename"),
        Place::CreateCollision => owned("open dest parent after create collision"),
        Place::CreateDirAll => owned("create_dir_all dest parent after handle create failed"),
        Place::AfterCreateDirAll => owned("open dest parent after create_dir_all"),
        Place::DestMetadata => owned("write dest parent cwd metadata"),
        Place::PathPublish => owned("path publish session child"),
        Place::ReopenPublished => owned("reopen published child after path publish"),
    }
}

/// A failure with the words of the step that it came up in put before its
/// text; its kind stays.
pub fn io_step(step: &str, error: &IoError) -> (r: IoError)
    ensures
        r.says(error.kind, step@ + ": "@ + error.message@),
{
    let mut message = owned(step);
    message.append(": ");
    message.append(error.message.as_str());
    IoError { kind: error.kind, raw_os_error: None, message }
}

pub fn publication_collision_error() -> (r: IoError)
    ensures
        r.says(ErrorKind::AlreadyExists, "no-replace publication collided"@),
{
    IoError::new(ErrorKind::AlreadyExists, "no-replace publication collided")
}

/// Why the publication of a fork ended early.
#[derive(Debug)]
pub enum CopyFault {
    Io(IoError),
    /// A failure at a place.
    At(Place, IoError),
    /// Something stands at the fork's public path.
    Collision,
    /// A directory on the canonical path changed before the rename.
    ChangedBefore(Level),
    /// A directory on the canonical path changed after the rename.
    ChangedAfter(Level),
    StageUnavailable,
    ContainerUnavailable,
    /// The `.cwd` file names another directory; `stated` if with its place.
    CwdMismatch { stated: bool },
}

pub open spec fn changed_text(level: Level, after: bool) -> Seq<char> {
    match (level, after) {
        (Level::Root, false) => "fork root identity changed before publication"@,
        (Level::Root, true) => "fork root identity changed after publication"@,
        (Level::Sessions, false) => "sessions root identity changed before fork publication"@,
        (Level::Sessions, true) => "sessions root identity changed after fork publication"@,
        (Level::Parent, _) => "fork target parent identity changed after publication"@,
        (Level::Session, _) => "published fork identity does not match the committed stage"@,
    }
}

fn changed_words(level: Level, after: bool) -> (r: String)
    ensures
        r@ == changed_text(level, after),
{
    match (level, after) {
        (Level::Root, false) => owned("fork root identity changed before publication"),
        (Level::Root, true) => owned("fork root identity changed after publication"),
        (Level::Sessions, false) => owned("sessions root identity changed before fork publication"),
        (Level::Sessions, true) => owned("sessions root identity changed after fork publication"),
        (Level::Parent, _) => owned("fork target parent identity changed after publication"),
        (Level::Session, _) => owned("published fork identity does not match the committed stage"),
    }
}

impl CopyFault {
    pub open spec fn kind(&self) -> ErrorKind {
        match self {
            CopyFault::Io(e) => e.kind,
            CopyFault::At(_, e) => e.kind,
            CopyFault::Collision => ErrorKind::AlreadyExists,
            CopyFault::ChangedBefore(_) => ErrorKind::InvalidData,
            CopyFault::ChangedAfter(_) => ErrorKind::InvalidData,
            CopyFault::StageUnavailable => ErrorKind::Other,
            CopyFault::ContainerUnavailable => ErrorKind::Other,
            CopyFault::CwdMismatch { .. } => ErrorKind::InvalidData,
        }
    }

    pub open spec fn text(&self, shown_parent: Seq<char>) -> Seq<char> {
        match self {
            CopyFault::Io(e) => e.message@,
            CopyFault::At(place, e) => place_text(*place, shown_parent) + ": "@ + e.message@,
            CopyFault::Collision => "no-replace publication collided"@,
            CopyFault::ChangedBefore(level) => changed_text(*level, false),
            CopyFault::ChangedAfter(level) => changed_text(*level, true),
            CopyFault::StageUnavailable => "fork stage anchor is unavailable"@,
            CopyFault::ContainerUnavailable => "fork stage container anchor is unavailable"@,
            CopyFault::CwdMismatch { stated } => if *stated {
                place_text(Place::ExistingMetadata, shown_parent) + ": "@
                    + "published cwd metadata does not exactly match the session cwd"@
            } else {
                "published cwd metadata does not exactly match the session cwd"@
            },
        }
    }

    /// Whether `e` is the failure that the caller sees: an I/O failure as it
    /// came, with the code of the system, unless its place is put before it.
    pub open spec fn told_by(&self, e: IoError, shown_parent: Seq<char>) -> bool {
        match self {
            CopyFault::Io(cause) => e == *cause,
            _ => e.says(self.kind(), self.text(shown_parent)),
        }
    }

    /// The failure that the caller sees. `shown_parent` is the name of the cwd
    /// directory in quotes, as messages show it.
    pub fn into_error(self, shown_parent: &str) -> (r: IoError)
        ensures
            self.told_by(r, shown_parent@),
    {
        match self {
            CopyFault::Io(e) => e,
            CopyFault::At(place, e) => {
                let words = place_words(place, shown_parent);
                io_step(words.as_str(), &e)
            },
            CopyFault::Collision => publication_collision_error(),
            CopyFault::ChangedBefore(level) => IoError {
                kind: ErrorKind::InvalidData,
                raw_os_error: None,
                message: changed_words(level, false),
            },
            CopyFault::ChangedAfter(level) => IoError {
                kind: ErrorKind::InvalidData,
                raw_os_error: None,
                message: changed_words(level, true),
            },
            CopyFault::StageUnavailable => IoError::other("fork stage anchor is unavailable"),
            CopyFault::ContainerUnavailable => IoError::other(
                "fork stage container anchor is unavailable",
            ),
            CopyFault::CwdMismatch { stated } => {
                let e = IoError::new(
                    ErrorKind::InvalidData,
                    "published cwd metadata does not exactly match the session cwd",
                );
                if stated {
                    let words = place_words(Place::ExistingMetadata, shown_parent);
                    io_step(words.as_str(), &e)
                } else {
                    e
                }
            },
        }
    }
}

/// How the publication of a fork failed, by whether it took effect.
#[derive(Debug)]
pub enum CopyFinalizeError {
    NotCommitted(CopyFault),
    CommittedUnreachable(CopyFault),
    CommittedDurability(CopyFault),
}

impl CopyFinalizeError {
    pub open spec fn fault(&self) -> CopyFault {
        match self {
            CopyFinalizeError::NotCommitted(f) => *f,
            CopyFinalizeError::CommittedUnreachable(f) => *f,
            CopyFinalizeError::CommittedDurability(f) => *f,
        }
    }

    pub open spec fn heading(&self) -> Seq<char> {
        match self {
            CopyFinalizeError::NotCommitted(_) => "fork publication not committed: "@,
            CopyFinalizeError::CommittedUnreachable(_) =>
                "committed fork is not canonically reachable: "@,
            CopyFinalizeError::CommittedDurability(_) =>
                "fork committed with durability acknowledgement failure: "@,
        }
    }

    /// The underlying failure alone; `shown_parent` as for a fault.
    pub fn into_error(self, shown_parent: &str) -> (r: IoError)
        ensures
            self.fault().told_by(r, shown_parent@),
    {
        match self {
            CopyFinalizeError::NotCommitted(f) => f.into_error(shown_parent),
            CopyFinalizeError::CommittedUnreachable(f) => f.into_error(shown_parent),
            CopyFinalizeError::CommittedDurability(f) => f.into_error(shown_parent),
        }
    }

    /// What is shown of the failure; `shown_parent` as for a fault.
    pub fn message(self, shown_parent: &str) -> (r: String)
        ensures
            r@ == self.heading() + self.fault().text(shown_parent@),
    {
        let mut text = match &self {
            CopyFinalizeError::NotCommitted(_) => owned("fork publication not committed: "),
            CopyFinalizeError::CommittedUnreachable(_) => owned(
                "committed fork is not canonically reachable: ",
            ),
            CopyFinalizeError::CommittedDurability(_) => owned(
                "fork committed with durability acknowledgement failure: ",
            ),
        };
        let e = self.into_error(shown_parent);
        text.append(e.message.as_str());
        text
    }
}

/// What the driver does next.
#[derive(Debug)]
pub enum CopyStep {
    /// Ask whether anything stands at the fork's public path.
    ProbeTarget,
    /// Open the canonical directory and compare it with the one held.
    CheckRoot,
    CheckSessions,
    SyncTree,
    /// Ask whether the cwd directory exists.
    ProbeParent,
    OpenParent { exists: bool },
    ProbeAfterOpen { exists: bool, error: IoError },
    ReadCwdFile,
    RemoveMarker,
    SyncStage,
    /// Rename the session into the existing cwd directory.
    Rename,
    ProbeAfterRename { error: IoError },
    WriteCwdFile,
    RemoveMarkerInContainer,
    SyncStageInContainer,
    /// Rename the container to the cwd directory.
    RenameContainer,
    OpenPublished,
    ProbeAfterContainer,
    /// Ask whether the cwd directory exists after all.
    ProbeParentTaken,
    ReopenStaged { taken: bool },
    CreateParent,
    OpenCreatedParent,
    /// Create the cwd directory by its path.
    CreateDirAll,
    OpenParentByPath,
    WriteParentCwdFile,
    ProbeBeforeChild,
    /// Rename the session into the cwd directory just created.
    RenameChild,
    /// Publish the session by its path, replacing nothing.
    PathPublish,
    ReopenPublished,
    /// Open the cwd directory that appeared meanwhile.
    JoinParent,
    ProbeAfterJoin { error: IoError },
    ReadJoinedCwdFile,
    RenameJoined,
    ProbeAfterJoinedRename { error: IoError },
    /// Compare a directory on the canonical path with the one published.
    Verify { level: Level, last: bool },
    RemoveContainer,
    SyncStaging,
    SyncParent,
    SyncSessions,
    SyncAfterCommit,
    Finished(Result<(), CopyFinalizeError>),
}

/// The comparison of a canonical directory with one held.
#[derive(Debug)]
pub enum Compared {
    OpenFailed(IoError),
    CompareFailed(IoError),
    Same(bool),
}

/// What happened.
#[derive(Debug)]
pub enum CopyEvent {
    Flag(bool),
    Done(Result<(), IoError>),
    Bytes(Result<Vec<u8>, IoError>),
    Compared(Compared),
}

/// The publication of one forked session.
#[derive(Debug)]
pub struct CopyPublication {
    /// Name of the cwd directory.
    pub parent_name: String,
    pub cwd: String,
    pub session_held: bool,
    pub container_held: bool,
    /// Whether the container became the cwd directory.
    pub whole: bool,
    /// Whether giving up removes the private stage.
    pub cleanup_armed: bool,
    /// Whether the fork is public.
    pub committed: bool,
    pub step: CopyStep,
}

// Transitions.

pub open spec fn to(p: CopyPublication, step: CopyStep) -> CopyPublication {
    CopyPublication { step, ..p }
}

pub open spec fn refused(p: CopyPublication, fault: CopyFault) -> CopyPublication {
    to(p, CopyStep::Finished(Err(CopyFinalizeError::NotCommitted(fault))))
}

pub open spec fn unreachable(p: CopyPublication, fault: CopyFault) -> CopyPublication {
    to(p, CopyStep::Finished(Err(CopyFinalizeError::CommittedUnreachable(fault))))
}

pub open spec fn undurable(p: CopyPublication, e: IoError) -> CopyPublication {
    to(p, CopyStep::Finished(Err(CopyFinalizeError::CommittedDurability(CopyFault::Io(e)))))
}

/// The fork is public: cleanup is disarmed and its path is compared.
pub open spec fn public(p: CopyPublication, whole: bool) -> CopyPublication {
    CopyPublication {
        whole,
        cleanup_armed: false,
        committed: true,
        step: CopyStep::Verify { level: Level::Root, last: false },
        ..p
    }
}

pub open spec fn needs_metadata(p: CopyPublication) -> bool {
    needs_cwd_file(p.parent_name@, p.cwd@)
}

/// Into the existing cwd directory, once its metadata is found right.
pub open spec fn into_existing(p: CopyPublication) -> CopyPublication {
    if p.session_held {
        to(p, CopyStep::RemoveMarker)
    } else {
        refused(p, CopyFault::StageUnavailable)
    }
}

/// The container is to become the cwd directory, once its metadata is written.
pub open spec fn into_container(p: CopyPublication) -> CopyPublication {
    if p.session_held {
        to(p, CopyStep::RemoveMarkerInContainer)
    } else {
        refused(p, CopyFault::StageUnavailable)
    }
}

/// The cwd directory is missing.
pub open spec fn without_parent(p: CopyPublication) -> CopyPublication {
    if !p.container_held {
        refused(p, CopyFault::ContainerUnavailable)
    } else if needs_metadata(p) {
        to(p, CopyStep::WriteCwdFile)
    } else {
        into_container(p)
    }
}

/// The cwd directory was created after the container could not become it.
pub open spec fn into_created(p: CopyPublication) -> CopyPublication {
    if needs_metadata(p) {
        to(p, CopyStep::WriteParentCwdFile)
    } else {
        to(p, CopyStep::ProbeBeforeChild)
    }
}

/// What follows the comparison of a directory before the rename.
pub open spec fn checked(
    p: CopyPublication,
    level: Level,
    place: Place,
    next: CopyStep,
    c: Compared,
) -> CopyPublication {
    match c {
        Compared::OpenFailed(e) => refused(p, CopyFault::At(place, e)),
        Compared::CompareFailed(e) => refused(p, CopyFault::Io(e)),
        Compared::Same(same) => if same {
            to(p, next)
        } else {
            refused(p, CopyFault::ChangedBefore(level))
        },
    }
}

pub open spec fn canonical_place(level: Level) -> Place {
    match level {
        Level::Root => Place::CanonicalRoot,
        Level::Sessions => Place::CanonicalSessions,
        Level::Parent => Place::CanonicalParent,
        Level::Session => Place::CanonicalFork,
    }
}

/// What follows the comparison of a directory after the rename.
pub open spec fn verified(p: CopyPublication, level: Level, last: bool, c: Compared) -> CopyPublication {
    match c {
        Compared::OpenFailed(e) => unreachable(p, CopyFault::At(canonical_place(level), e)),
        Compared::CompareFailed(e) => unreachable(p, CopyFault::Io(e)),
        Compared::Same(same) => if !same {
            unreachable(p, CopyFault::ChangedAfter(level))
        } else {
            match level {
                Level::Root => to(p, CopyStep::Verify { level: Level::Sessions, last }),
                Level::Sessions => to(p, CopyStep::Verify { level: Level::Parent, last }),
                Level::Parent => to(p, CopyStep::Verify { level: Level::Session, last }),
                Level::Session => if last {
                    to(p, CopyStep::SyncAfterCommit)
                } else if !p.whole && p.container_held {
                    to(p, CopyStep::RemoveContainer)
                } else {
                    to(p, CopyStep::SyncStaging)
                },
            }
        },
    }
}

/// What follows the answer to a question.
pub open spec fn answered(p: CopyPublication, yes: bool) -> CopyPublication {
    match p.step {
        CopyStep::ProbeTarget => if yes {
            refused(p, CopyFault::Collision)
        } else {
            to(p, CopyStep::CheckRoot)
        },
        CopyStep::ProbeParent => to(p, CopyStep::OpenParent { exists: yes }),
        CopyStep::ProbeAfterOpen { exists, error } => if yes {
            refused(p, CopyFault::Collision)
        } else {
            refused(p, CopyFault::At(Place::DestParent { exists }, error))
        },
        CopyStep::ProbeAfterRename { error } => if yes {
            refused(p, CopyFault::Collision)
        } else {
            refused(p, CopyFault::At(Place::ExistingRename, error))
        },
        CopyStep::ProbeAfterContainer => if yes {
            refused(p, CopyFault::Collision)
        } else {
            to(p, CopyStep::ProbeParentTaken)
        },
        CopyStep::ProbeParentTaken => to(p, CopyStep::ReopenStaged { taken: yes }),
        CopyStep::ProbeBeforeChild => if yes {
            refused(p, CopyFault::Collision)
        } else {
            to(p, CopyStep::RenameChild)
        },
        CopyStep::ProbeAfterJoin { error } => if yes {
            refused(p, CopyFault::Collision)
        } else {
            refused(p, CopyFault::Io(error))
        },
        CopyStep::ProbeAfterJoinedRename { error } => if yes {
            refused(p, CopyFault::Collision)
        } else {
            refused(p, CopyFault::Io(error))
        },
        _ => p,
    }
}

/// What follows a step that succeeded.
pub open spec fn succeeded(p: CopyPublication) -> CopyPublication {
    match p.step {
        CopyStep::SyncTree => to(p, CopyStep::ProbeParent),
        CopyStep::OpenParent { .. } => if needs_metadata(p) {
            to(p, CopyStep::ReadCwdFile)
        } else {
            into_existing(p)
        },
        CopyStep::RemoveMarker => to(p, CopyStep::SyncStage),
        CopyStep::SyncStage => to(p, CopyStep::Rename),
        CopyStep::Rename => public(CopyPublication { session_held: false, ..p }, false),
        CopyStep::WriteCwdFile => into_container(p),
        CopyStep::RemoveMarkerInContainer => to(p, CopyStep::SyncStageInContainer),
        CopyStep::SyncStageInContainer => CopyPublication {
            session_held: false,
            step: CopyStep::RenameContainer,
            ..p
        },
        CopyStep::RenameContainer => CopyPublication {
            container_held: false,
            committed: true,
            step: CopyStep::OpenPublished,
            ..p
        },
        CopyStep::OpenPublished => public(p, true),
        CopyStep::ReopenStaged { taken } => CopyPublication {
            session_held: true,
            step: if taken {
                CopyStep::JoinParent
            } else {
                CopyStep::CreateParent
            },
            ..p
        },
        CopyStep::CreateParent => into_created(p),
        CopyStep::OpenCreatedParent => into_created(p),
        CopyStep::CreateDirAll => to(p, CopyStep::OpenParentByPath),
        CopyStep::OpenParentByPath => into_created(p),
        CopyStep::WriteParentCwdFile => to(p, CopyStep::ProbeBeforeChild),
        CopyStep::RenameChild => public(CopyPublication { session_held: false, ..p }, false),
        CopyStep::PathPublish => CopyPublication {
            committed: true,
            step: CopyStep::ReopenPublished,
            ..p
        },
        CopyStep::ReopenPublished => public(p, false),
        CopyStep::JoinParent => if needs_metadata(p) {
            to(p, CopyStep::ReadJoinedCwdFile)
        } else {
            to(p, CopyStep::RenameJoined)
        },
        CopyStep::RenameJoined => public(CopyPublication { session_held: false, ..p }, false),
        CopyStep::RemoveContainer => CopyPublication {
            container_held: false,
            step: CopyStep::SyncStaging,
            ..p
        },
        CopyStep::SyncStaging => to(p, CopyStep::SyncParent),
        CopyStep::SyncParent => to(p, CopyStep::SyncSessions),
        CopyStep::SyncSessions => to(p, CopyStep::Verify { level: Level::Root, last: true }),
        CopyStep::SyncAfterCommit => to(p, CopyStep::Finished(Ok(()))),
        _ => p,
    }
}

/// What follows a step that failed with `e`.
pub open spec fn failed(p: CopyPublication, e: IoError) -> CopyPublication {
    match p.step {
        CopyStep::SyncTree => refused(p, CopyFault::At(Place::StagedTree, e)),
        CopyStep::OpenParent { exists } => if e.kind == ErrorKind::NotFound || !exists {
            without_parent(p)
        } else {
            to(p, CopyStep::ProbeAfterOpen { exists, error: e })
        },
        CopyStep::RemoveMarker => refused(p, CopyFault::At(Place::ExistingMarker, e)),
        CopyStep::SyncStage => refused(p, CopyFault::At(Place::ExistingSync, e)),
        CopyStep::Rename => if e.kind == ErrorKind::AlreadyExists {
            refused(p, CopyFault::Collision)
        } else {
            to(p, CopyStep::ProbeAfterRename { error: e })
        },
        CopyStep::WriteCwdFile => refused(p, CopyFault::At(Place::StagedMetadata, e)),
        CopyStep::RemoveMarkerInContainer => refused(p, CopyFault::At(Place::ContainerMarker, e)),
        CopyStep::SyncStageInContainer => refused(p, CopyFault::At(Place::ContainerSync, e)),
        CopyStep::RenameContainer => to(p, CopyStep::ProbeAfterContainer),
        CopyStep::OpenPublished => unreachable(p, CopyFault::Io(e)),
        CopyStep::ReopenStaged { .. } => refused(p, CopyFault::At(Place::ReopenStage, e)),
        CopyStep::CreateParent => if e.kind == ErrorKind::AlreadyExists {
            to(p, CopyStep::OpenCreatedParent)
        } else {
            to(p, CopyStep::CreateDirAll)
        },
        CopyStep::OpenCreatedParent => refused(p, CopyFault::At(Place::CreateCollision, e)),
        CopyStep::CreateDirAll => refused(p, CopyFault::At(Place::CreateDirAll, e)),
        CopyStep::OpenParentByPath => refused(p, CopyFault::At(Place::AfterCreateDirAll, e)),
        CopyStep::WriteParentCwdFile => refused(p, CopyFault::At(Place::DestMetadata, e)),
        CopyStep::RenameChild => CopyPublication {
            session_held: false,
            step: CopyStep::PathPublish,
            ..p
        },
        CopyStep::PathPublish => refused(p, CopyFault::At(Place::PathPublish, e)),
        CopyStep::ReopenPublished => unreachable(p, CopyFault::At(Place::ReopenPublished, e)),
        CopyStep::JoinParent => to(p, CopyStep::ProbeAfterJoin { error: e }),
        CopyStep::RenameJoined => if e.kind == ErrorKind::AlreadyExists {
            refused(p, CopyFault::Collision)
        } else {
            to(p, CopyStep::ProbeAfterJoinedRename { error: e })
        },
        CopyStep::RemoveContainer => undurable(p, e),
        CopyStep::SyncStaging => undurable(p, e),
        CopyStep::SyncParent => undurable(p, e),
        CopyStep::SyncSessions => undurable(p, e),
        CopyStep::SyncAfterCommit => undurable(p, e),
        _ => p,
    }
}

/// What follows the reading of a `.cwd` file.
pub open spec fn read(p: CopyPublication, result: Result<Vec<u8>, IoError>) -> CopyPublication {
    if p.step is ReadJoinedCwdFile {
        match result {
            Err(e) => refused(p, CopyFault::Io(e)),
            Ok(bytes) => if bytes@ == encode_utf8(p.cwd@) {
                to(p, CopyStep::RenameJoined)
            } else {
                refused(p, CopyFault::CwdMismatch { stated: false })
            },
        }
    } else {
        match result {
            Err(e) => refused(p, CopyFault::At(Place::ExistingMetadata, e)),
            Ok(bytes) => if bytes@ == encode_utf8(p.cwd@) {
                into_existing(p)
            } else {
                refused(p, CopyFault::CwdMismatch { stated: true })
            },
        }
    }
}

/// What follows the comparison of two directories.
pub open spec fn compared(p: CopyPublication, c: Compared) -> CopyPublication {
    match p.step {
        CopyStep::CheckRoot => checked(
            p,
            Level::Root,
            Place::CanonicalRoot,
            CopyStep::CheckSessions,
            c,
        ),
        CopyStep::CheckSessions => checked(
            p,
            Level::Sessions,
            Place::CanonicalSessions,
            CopyStep::SyncTree,
            c,
        ),
        CopyStep::Verify { level, last } => verified(p, level, last, c),
        _ => p,
    }
}

/// What one event makes of the publication of a fork.
pub open spec fn copied_by(p: CopyPublication, event: CopyEvent) -> CopyPublication {
    match event {
        CopyEvent::Flag(yes) => answered(p, yes),
        CopyEvent::Done(Ok(_)) => succeeded(p),
        CopyEvent::Done(Err(e)) => failed(p, e),
        CopyEvent::Bytes(result) => read(p, result),
        CopyEvent::Compared(c) => compared(p, c),
    }
}

/// Whether `event` is what the step can lead to.
pub open spec fn suits(step: CopyStep, event: CopyEvent) -> bool {
    match step {
        CopyStep::ProbeTarget => event is Flag,
        CopyStep::ProbeParent => event is Flag,
        CopyStep::ProbeAfterOpen { .. } => event is Flag,
        CopyStep::ProbeAfterRename { .. } => event is Flag,
        CopyStep::ProbeAfterContainer => event is Flag,
        CopyStep::ProbeParentTaken => event is Flag,
        CopyStep::ProbeBeforeChild => event is Flag,
        CopyStep::ProbeAfterJoin { .. } => event is Flag,
        CopyStep::ProbeAfterJoinedRename { .. } => event is Flag,
        CopyStep::ReadCwdFile => event is Bytes,
        CopyStep::ReadJoinedCwdFile => event is Bytes,
        CopyStep::CheckRoot => event is Compared,
        CopyStep::CheckSessions => event is Compared,
        CopyStep::Verify { .. } => event is Compared,
        CopyStep::Finished(_) => false,
        _ => event is Done,
    }
}

/// The steps that come after the rename.
pub open spec fn past_rename(step: CopyStep) -> bool {
    match step {
        CopyStep::OpenPublished => true,
        CopyStep::ReopenPublished => true,
        CopyStep::Verify { .. } => true,
        CopyStep::RemoveContainer => true,
        CopyStep::SyncStaging => true,
        CopyStep::SyncParent => true,
        CopyStep::SyncSessions => true,
        CopyStep::SyncAfterCommit => true,
        CopyStep::Finished(Err(CopyFinalizeError::NotCommitted(_))) => false,
        CopyStep::Finished(_) => true,
        _ => false,
    }
}

impl CopyPublication {
    /// The fork is public exactly after the rename; until then cleanup is armed.
    pub open spec fn wf(&self) -> bool {
        &&& self.committed == past_rename(self.step)
        &&& !self.committed ==> self.cleanup_armed
        &&& self.step is WriteCwdFile ==> self.container_held
        &&& self.step is RemoveMarkerInContainer ==> self.container_held
        &&& self.step is SyncStageInContainer ==> self.container_held
        &&& self.step is RenameContainer ==> self.container_held && !self.session_held
        &&& self.step is ProbeAfterContainer ==> self.container_held && !self.session_held
        &&& self.step is ProbeParentTaken ==> self.container_held && !self.session_held
        &&& self.step is ReopenStaged ==> self.container_held && !self.session_held
        &&& self.step is OpenPublished ==> !self.container_held
    }

    /// The publication of a fork whose stage stands ready.
    pub fn begin(
        parent_name: String,
        cwd: String,
        session_held: bool,
        container_held: bool,
    ) -> (r: CopyPublication)
        ensures
            r.wf(),
            r == (CopyPublication {
                parent_name,
                cwd,
                session_held,
                container_held,
                whole: false,
                cleanup_armed: true,
                committed: false,
                step: CopyStep::ProbeTarget,
            }),
    {
        CopyPublication {
            parent_name,
            cwd,
            session_held,
            container_held,
            whole: false,
            cleanup_armed: true,
            committed: false,
            step: CopyStep::ProbeTarget,
        }
    }

    /// Whether giving up removes the private stage.
    pub fn reclaims_on_drop(&self) -> (r: bool)
        ensures
            r == (self.cleanup_armed && self.container_held),
    {
        self.cleanup_armed && self.container_held
    }

    fn go(self, step: CopyStep) -> (r: CopyPublication)
        ensures
            r == to(self, step),
    {
        let mut p = self;
        p.step = step;
        p
    }

    fn refuse(self, fault: CopyFault) -> (r: CopyPublication)
        ensures
            r == refused(self, fault),
    {
        self.go(CopyStep::Finished(Err(CopyFinalizeError::NotCommitted(fault))))
    }

    fn lose(self, fault: CopyFault) -> (r: CopyPublication)
        ensures
            r == unreachable(self, fault),
    {
        self.go(CopyStep::Finished(Err(CopyFinalizeError::CommittedUnreachable(fault))))
    }

    fn doubt(self, e: IoError) -> (r: CopyPublication)
        ensures
            r == undurable(self, e),
    {
        self.go(
            CopyStep::Finished(Err(CopyFinalizeError::CommittedDurability(CopyFault::Io(e)))),
        )
    }

    fn make_public(self, whole: bool) -> (r: CopyPublication)
        ensures
            r == public(self, whole),
    {
        let mut p = self;
        p.whole = whole;
        p.cleanup_armed = false;
        p.committed = true;
        p.go(CopyStep::Verify { level: Level::Root, last: false })
    }

    fn metadata_needed(&self) -> (r: bool)
        ensures
            r == needs_metadata(*self),
    {
        needs_cwd_metadata(self.parent_name.as_str(), self.cwd.as_str())
    }

    fn enter_existing(self) -> (r: CopyPublication)
        ensures
            r == into_existing(self),
    {
        if self.session_held {
            self.go(CopyStep::RemoveMarker)
        } else {
            self.refuse(CopyFault::StageUnavailable)
        }
    }

    fn enter_container(self) -> (r: CopyPublication)
        ensures
            r == into_container(self),
    {
        if self.session_held {
            self.go(CopyStep::RemoveMarkerInContainer)
        } else {
            self.refuse(CopyFault::StageUnavailable)
        }
    }

    fn become_parent(self) -> (r: CopyPublication)
        ensures
            r == without_parent(self),
    {
        if !self.container_held {
            self.refuse(CopyFault::ContainerUnavailable)
        } else if self.metadata_needed() {
            self.go(CopyStep::WriteCwdFile)
        } else {
            self.enter_container()
        }
    }

    fn enter_created(self) -> (r: CopyPublication)
        ensures
            r == into_created(self),
    {
        if self.metadata_needed() {
            self.go(CopyStep::WriteParentCwdFile)
        } else {
            self.go(CopyStep::ProbeBeforeChild)
        }
    }

    fn check(self, level: Level, place: Place, next: CopyStep, c: Compared) -> (r: CopyPublication)
        ensures
            r == checked(self, level, place, next, c),
    {
        match c {
            Compared::OpenFailed(e) => self.refuse(CopyFault::At(place, e)),
            Compared::CompareFailed(e) => self.refuse(CopyFault::Io(e)),
            Compared::Same(same) => if same {
                self.go(next)
            } else {
                self.refuse(CopyFault::ChangedBefore(level))
            },
        }
    }

    fn verify(self, level: Level, last: bool, c: Compared) -> (r: CopyPublication)
        ensures
            r == verified(self, level, last, c),
    {
        match c {
            Compared::OpenFailed(e) => {
                let place = match level {
                    Level::Root => Place::CanonicalRoot,
                    Level::Sessions => Place::CanonicalSessions,
                    Level::Parent => Place::CanonicalParent,
                    Level::Session => Place::CanonicalFork,
                };
                self.lose(CopyFault::At(place, e))
            },
            Compared::CompareFailed(e) => self.lose(CopyFault::Io(e)),
            Compared::Same(same) => if !same {
                self.lose(CopyFault::ChangedAfter(level))
            } else {
                match level {
                    Level::Root => self.go(CopyStep::Verify { level: Level::Sessions, last }),
                    Level::Sessions => self.go(CopyStep::Verify { level: Level::Parent, last }),
                    Level::Parent => self.go(CopyStep::Verify { level: Level::Session, last }),
                    Level::Session => if last {
                        self.go(CopyStep::SyncAfterCommit)
                    } else if !self.whole && self.container_held {
                        self.go(CopyStep::RemoveContainer)
                    } else {
                        self.go(CopyStep::SyncStaging)
                    },
                }
            },
        }
    }

    fn answer(self, yes: bool) -> (r: CopyPublication)
        ensures
            r == answered(self, yes),
    {
        let mut p = self;
        let collided: Result<(), CopyFinalizeError> = Err(
            CopyFinalizeError::NotCommitted(CopyFault::Collision),
        );
        match p.step {
            CopyStep::ProbeTarget => {
                p.step = if yes {
                    CopyStep::Finished(collided)
                } else {
                    CopyStep::CheckRoot
                };
            },
            CopyStep::ProbeParent => {
                p.step = CopyStep::OpenParent { exists: yes };
            },
            CopyStep::ProbeAfterOpen { exists, error } => {
                p.step = CopyStep::Finished(
                    if yes {
                        collided
                    } else {
                        Err(
                            CopyFinalizeError::NotCommitted(
                                CopyFault::At(Place::DestParent { exists }, error),
                            ),
                        )
                    },
                );
            },
            CopyStep::ProbeAfterRename { error } => {
                p.step = CopyStep::Finished(
                    if yes {
                        collided
                    } else {
                        Err(
                            CopyFinalizeError::NotCommitted(
                                CopyFault::At(Place::ExistingRename, error),
                            ),
                        )
                    },
                );
            },
            CopyStep::ProbeAfterContainer => {
                p.step = if yes {
                    CopyStep::Finished(collided)
                } else {
                    CopyStep::ProbeParentTaken
                };
            },
            CopyStep::ProbeParentTaken => {
                p.step = CopyStep::ReopenStaged { taken: yes };
            },
            CopyStep::ProbeBeforeChild => {
                p.step = if yes {
                    CopyStep::Finished(collided)
                } else {
                    CopyStep::RenameChild
                };
            },
            CopyStep::ProbeAfterJoin { error } => {
                p.step = CopyStep::Finished(
                    if yes {
                        collided
                    } else {
                        Err(CopyFinalizeError::NotCommitted(CopyFault::Io(error)))
                    },
                );
            },
            CopyStep::ProbeAfterJoinedRename { error } => {
                p.step = CopyStep::Finished(
                    if yes {
                        collided
                    } else {
                        Err(CopyFinalizeError::NotCommitted(CopyFault::Io(error)))
                    },
                );
            },
            step => {
                p.step = step;
            },
        }
        p
    }

    fn succeed(self) -> (r: CopyPublication)
        ensures
            r == succeeded(self),
    {
        let mut p = self;
        match &p.step {
            CopyStep::SyncTree => p.go(CopyStep::ProbeParent),
            CopyStep::OpenParent { .. } => if p.metadata_needed() {
                p.go(CopyStep::ReadCwdFile)
            } else {
                p.enter_existing()
            },
            CopyStep::RemoveMarker => p.go(CopyStep::SyncStage),
            CopyStep::SyncStage => p.go(CopyStep::Rename),
            CopyStep::Rename => {
                p.session_held = false;
                p.make_public(false)
            },
            CopyStep::WriteCwdFile => p.enter_container(),
            CopyStep::RemoveMarkerInContainer => p.go(CopyStep::SyncStageInContainer),
            CopyStep::SyncStageInContainer => {
                p.session_held = false;
                p.go(CopyStep::RenameContainer)
            },
            CopyStep::RenameContainer => {
                p.container_held = false;
                p.committed = true;
                p.go(CopyStep::OpenPublished)
            },
            CopyStep::OpenPublished => p.make_public(true),
            CopyStep::ReopenStaged { taken } => {
                let next = if *taken {
                    CopyStep::JoinParent
                } else {
                    CopyStep::CreateParent
                };
                p.session_held = true;
                p.go(next)
            },
            CopyStep::CreateParent => p.enter_created(),
            CopyStep::OpenCreatedParent => p.enter_created(),
            CopyStep::CreateDirAll => p.go(CopyStep::OpenParentByPath),
            CopyStep::OpenParentByPath => p.enter_created(),
            CopyStep::WriteParentCwdFile => p.go(CopyStep::ProbeBeforeChild),
            CopyStep::RenameChild => {
                p.session_held = false;
                p.make_public(false)
            },
            CopyStep::PathPublish => {
                p.committed = true;
                p.go(CopyStep::ReopenPublished)
            },
            CopyStep::ReopenPublished => p.make_public(false),
            CopyStep::JoinParent => if p.metadata_needed() {
                p.go(CopyStep::ReadJoinedCwdFile)
            } else {
                p.go(CopyStep::RenameJoined)
            },
            CopyStep::RenameJoined => {
                p.session_held = false;
                p.make_public(false)
            },
            CopyStep::RemoveContainer => {
                p.container_held = false;
                p.go(CopyStep::SyncStaging)
            },
            CopyStep::SyncStaging => p.go(CopyStep::SyncParent),
            CopyStep::SyncParent => p.go(CopyStep::SyncSessions),
            CopyStep::SyncSessions => p.go(CopyStep::Verify { level: Level::Root, last: true }),
            CopyStep::SyncAfterCommit => p.go(CopyStep::Finished(Ok(()))),
            _ => p,
        }
    }

    fn stumble(self, e: IoError) -> (r: CopyPublication)
        ensures
            r == failed(self, e),
    {
        let mut p = self;
        let occupied = e.kind == ErrorKind::AlreadyExists;
        let missing = e.kind == ErrorKind::NotFound;
        match &p.step {
            CopyStep::SyncTree => p.refuse(CopyFault::At(Place::StagedTree, e)),
            CopyStep::OpenParent { exists } => {
                let exists: bool = *exists;
                if missing || !exists {
                    p.become_parent()
                } else {
                    p.go(CopyStep::ProbeAfterOpen { exists, error: e })
                }
            },
            CopyStep::RemoveMarker => p.refuse(CopyFault::At(Place::ExistingMarker, e)),
            CopyStep::SyncStage => p.refuse(CopyFault::At(Place::ExistingSync, e)),
            CopyStep::Rename => if occupied {
                p.refuse(CopyFault::Collision)
            } else {
                p.go(CopyStep::ProbeAfterRename { error: e })
            },
            CopyStep::WriteCwdFile => p.refuse(CopyFault::At(Place::StagedMetadata, e)),
            CopyStep::RemoveMarkerInContainer => p.refuse(CopyFault::At(Place::ContainerMarker, e)),
            CopyStep::SyncStageInContainer => p.refuse(CopyFault::At(Place::ContainerSync, e)),
            CopyStep::RenameContainer => p.go(CopyStep::ProbeAfterContainer),
            CopyStep::OpenPublished => p.lose(CopyFault::Io(e)),
            CopyStep::ReopenStaged { .. } => p.refuse(CopyFault::At(Place::ReopenStage, e)),
            CopyStep::CreateParent => if occupied {
                p.go(CopyStep::OpenCreatedParent)
            } else {
                p.go(CopyStep::CreateDirAll)
            },
            CopyStep::OpenCreatedParent => p.refuse(CopyFault::At(Place::CreateCollision, e)),
            CopyStep::CreateDirAll => p.refuse(CopyFault::At(Place::CreateDirAll, e)),
            CopyStep::OpenParentByPath => p.refuse(CopyFault::At(Place::AfterCreateDirAll, e)),
            CopyStep::WriteParentCwdFile => p.refuse(CopyFault::At(Place::DestMetadata, e)),
            CopyStep::RenameChild => {
                p.session_held = false;
                p.go(CopyStep::PathPublish)
            },
            CopyStep::PathPublish => p.refuse(CopyFault::At(Place::PathPublish, e)),
            CopyStep::ReopenPublished => p.lose(CopyFault::At(Place::ReopenPublished, e)),
            CopyStep::JoinParent => p.go(CopyStep::ProbeAfterJoin { error: e }),
            CopyStep::RenameJoined => if occupied {
                p.refuse(CopyFault::Collision)
            } else {
                p.go(CopyStep::ProbeAfterJoinedRename { error: e })
            },
            CopyStep::RemoveContainer => p.doubt(e),
            CopyStep::SyncStaging => p.doubt(e),
            CopyStep::SyncParent => p.doubt(e),
            CopyStep::SyncSessions => p.doubt(e),
            CopyStep::SyncAfterCommit => p.doubt(e),
            _ => p,
        }
    }

    fn take_in_metadata(self, result: Result<Vec<u8>, IoError>) -> (r: CopyPublication)
        ensures
            r == read(self, result),
    {
        let joined = match &self.step {
            CopyStep::ReadJoinedCwdFile => true,
            _ => false,
        };
        match result {
            Err(e) => if joined {
                self.refuse(CopyFault::Io(e))
            } else {
                self.refuse(CopyFault::At(Place::ExistingMetadata, e))
            },
            Ok(bytes) => if !cwd_metadata_matches(&bytes, self.cwd.as_str()) {
                self.refuse(CopyFault::CwdMismatch { stated: !joined })
            } else if joined {
                self.go(CopyStep::RenameJoined)
            } else {
                self.enter_existing()
            },
        }
    }

    fn compare(self, c: Compared) -> (r: CopyPublication)
        ensures
            r == compared(self, c),
    {
        match &self.step {
            CopyStep::CheckRoot => self.check(
                Level::Root,
                Place::CanonicalRoot,
                CopyStep::CheckSessions,
                c,
            ),
            CopyStep::CheckSessions => self.check(
                Level::Sessions,
                Place::CanonicalSessions,
                CopyStep::SyncTree,
                c,
            ),
            CopyStep::Verify { level, last } => {
                let level = *level;
                let last = *last;
                self.verify(level, last, c)
            },
            _ => self,
        }
    }

    /// Whether `event` is what the step can lead to.
    pub fn accepts(&self, event: &CopyEvent) -> (r: bool)
        ensures
            r == suits(self.step, *event),
    {
        let flag = match event {
            CopyEvent::Flag(_) => true,
            _ => false,
        };
        let bytes = match event {
            CopyEvent::Bytes(_) => true,
            _ => false,
        };
        let compared = match event {
            CopyEvent::Compared(_) => true,
            _ => false,
        };
        match &self.step {
            CopyStep::ProbeTarget => flag,
            CopyStep::ProbeParent => flag,
            CopyStep::ProbeAfterOpen { .. } => flag,
            CopyStep::ProbeAfterRename { .. } => flag,
            CopyStep::ProbeAfterContainer => flag,
            CopyStep::ProbeParentTaken => flag,
            CopyStep::ProbeBeforeChild => flag,
            CopyStep::ProbeAfterJoin { .. } => flag,
            CopyStep::ProbeAfterJoinedRename { .. } => flag,
            CopyStep::ReadCwdFile => bytes,
            CopyStep::ReadJoinedCwdFile => bytes,
            CopyStep::CheckRoot => compared,
            CopyStep::CheckSessions => compared,
            CopyStep::Verify { .. } => compared,
            CopyStep::Finished(_) => false,
            _ => !flag && !bytes && !compared,
        }
    }

    /// Takes in what happened.
    pub fn step(self, event: CopyEvent) -> (r: CopyPublication)
        requires
            self.wf(),
            suits(self.step, event),
        ensures
            r.wf(),
            r == copied_by(self, event),
    {
        proof {
            step_keeps_wf(self, event);
        }
        match event {
            CopyEvent::Flag(yes) => self.answer(yes),
            CopyEvent::Done(Ok(_)) => self.succeed(),
            CopyEvent::Done(Err(e)) => self.stumble(e),
            CopyEvent::Bytes(result) => self.take_in_metadata(result),
            CopyEvent::Compared(c) => self.compare(c),
        }
    }
}

/// The invariant of the publication survives every event.
pub proof fn step_keeps_wf(p: CopyPublication, event: CopyEvent)
    requires
        p.wf(),
        suits(p.step, event),
    ensures
        copied_by(p, event).wf(),
{
}

/// A public fork stays public, and the outcome says what happened:
/// `NotCommitted` exactly where the fork did not become public.
pub proof fn outcome_tells_commitment(p: CopyPublication, event: CopyEvent)
    requires
        p.wf(),
        suits(p.step, event),
    ensures
        p.committed ==> copied_by(p, event).committed,
        copied_by(p, event).step matches CopyStep::Finished(result) ==> (copied_by(
            p,
            event,
        ).committed <==> !(result matches Err(CopyFinalizeError::NotCommitted(_)))),
{
    step_keeps_wf(p, event);
}

/// Until the fork is public the handle of its container is kept and cleanup is
/// armed, so that giving up removes the whole private stage.
pub proof fn failed_publication_is_reclaimed(p: CopyPublication, event: CopyEvent)
    requires
        p.wf(),
        suits(p.step, event),
        p.container_held,
        !copied_by(p, event).committed,
    ensures
        copied_by(p, event).container_held,
        copied_by(p, event).cleanup_armed,
{
    step_keeps_wf(p, event);
}

/// What a caller gets of a copy whose publication ended so: the result also
/// where only durability is in doubt, the failure otherwise. `shown_parent` is
/// the name of the cwd directory in quotes, as messages show it.
pub fn reconcile_copy_publication<T>(
    result: T,
    publication: Result<(), CopyFinalizeError>,
    shown_parent: &str,
) -> (r: Result<T, IoError>)
    ensures
        r is Ok <==> (publication is Ok || publication matches Err(
            CopyFinalizeError::CommittedDurability(_),
        )),
        r matches Ok(t) ==> t == result,
        r matches Err(e) ==> publication->Err_0.fault().told_by(e, shown_parent@),
{
    match publication {
        Ok(_) => Ok(result),
        Err(CopyFinalizeError::CommittedDurability(_)) => Ok(result),
        Err(e) => Err(e.into_error(shown_parent)),
    }
}

} // verus!
