//! The namespace commit of a staged session, as a machine from state and event
//! to the next step.
//!
//! A session is built in a private container and becomes visible by one
//! rename that never replaces anything: of the session directory into its
//! existing cwd directory, or of the whole container as a new cwd directory.
//! Until that rename the stage can be given up; after it the session is public
//! and only its durability and reachability are still to be shown.

use vstd::prelude::*;
use vstd::string::*;
use vstd::utf8::encode_utf8;

use crate::io_error::{ErrorKind, IoError};
use crate::naming::{cwd_metadata_matches, needs_cwd_file, needs_cwd_metadata};
use crate::text::owned;

verus! {

/// The directories whose identity is compared after the commit, outermost
/// first.
#[derive(Debug, Clone, Copy, PartialEq, Eq, Structural)]
pub enum Level {
    Root,
    Sessions,
    Parent,
    Session,
}

/// Why a publication ended early.
#[derive(Debug)]
pub enum Fault {
    Io(IoError),
    /// The handle of the staged session is gone.
    StageConsumed,
    /// The handle of the stage container is gone.
    ContainerConsumed,
    /// The `.cwd` file of the cwd directory names another directory.
    CwdMismatch,
    /// The canonical path no longer leads to the published directory.
    Moved(Level),
}

impl Fault {
    pub open spec fn kind(&self) -> ErrorKind {
        match self {
            Fault::Io(e) => e.kind,
            Fault::StageConsumed => ErrorKind::NotFound,
            Fault::ContainerConsumed => ErrorKind::NotFound,
            Fault::CwdMismatch => ErrorKind::InvalidData,
            Fault::Moved(_) => ErrorKind::PermissionDenied,
        }
    }

    pub open spec fn text(&self) -> Seq<char> {
        match self {
            Fault::Io(e) => e.message@,
            Fault::StageConsumed => "fresh publication stage was already consumed"@,
            Fault::ContainerConsumed => "fresh publication container was already consumed"@,
            Fault::CwdMismatch =>
                "published cwd metadata does not exactly match the session cwd"@,
            Fault::Moved(Level::Root) =>
                "publication root identity is no longer canonically reachable"@,
            Fault::Moved(Level::Sessions) =>
                "published sessions anchor is no longer canonically reachable"@,
            Fault::Moved(Level::Parent) =>
                "published cwd parent identity is not canonically reachable"@,
            Fault::Moved(Level::Session) =>
                "published session identity is not canonically reachable"@,
        }
    }

    /// Whether `e` is the failure that the caller sees: an I/O failure as it
    /// came, with the code of the system.
    pub open spec fn told_by(&self, e: IoError) -> bool {
        match self {
            Fault::Io(cause) => e == *cause,
            _ => e.says(self.kind(), self.text()),
        }
    }

    /// The failure that the caller sees.
    pub fn into_error(self) -> (r: IoError)
        ensures
            self.told_by(r),
    {
        match self {
            Fault::Io(e) => e,
            Fault::StageConsumed => IoError::new(
                ErrorKind::NotFound,
                "fresh publication stage was already consumed",
            ),
            Fault::ContainerConsumed => IoError::new(
                ErrorKind::NotFound,
                "fresh publication container was already consumed",
            ),
            Fault::CwdMismatch => IoError::new(
                ErrorKind::InvalidData,
                "published cwd metadata does not exactly match the session cwd",
            ),
            Fault::Moved(Level::Root) => IoError::new(
                ErrorKind::PermissionDenied,
                "publication root identity is no longer canonically reachable",
            ),
            Fault::Moved(Level::Sessions) => IoError::new(
                ErrorKind::PermissionDenied,
                "published sessions anchor is no longer canonically reachable",
            ),
            Fault::Moved(Level::Parent) => IoError::new(
                ErrorKind::PermissionDenied,
                "published cwd parent identity is not canonically reachable",
            ),
            Fault::Moved(Level::Session) => IoError::new(
                ErrorKind::PermissionDenied,
                "published session identity is not canonically reachable",
            ),
        }
    }
}

/// How a publication failed, by whether it took effect.
#[derive(Debug)]
pub enum FinalizeError {
    /// The rename did not happen; the stage may be given up.
    NotCommitted(Fault),
    /// The rename happened, but its durability was not acknowledged.
    CommittedDurability(Fault),
    /// The rename happened, but the canonical path does not lead to it.
    CommittedIdentity(Fault),
}

impl FinalizeError {
    pub open spec fn fault(&self) -> Fault {
        match self {
            FinalizeError::NotCommitted(f) => *f,
            FinalizeError::CommittedDurability(f) => *f,
            FinalizeError::CommittedIdentity(f) => *f,
        }
    }

    pub open spec fn heading(&self) -> Seq<char> {
        match self {
            FinalizeError::NotCommitted(_) => "publication not committed: "@,
            FinalizeError::CommittedDurability(_) =>
                "publication committed with durability failure: "@,
            FinalizeError::CommittedIdentity(_) =>
                "publication committed but canonical identity is unverified: "@,
        }
    }

    /// The underlying failure alone.
    pub fn into_error(self) -> (r: IoError)
        ensures
            self.fault().told_by(r),
    {
        match self {
            FinalizeError::NotCommitted(f) => f.into_error(),
            FinalizeError::CommittedDurability(f) => f.into_error(),
            FinalizeError::CommittedIdentity(f) => f.into_error(),
        }
    }

    /// What is shown of the failure.
    pub fn message(self) -> (r: String)
        ensures
            r@ == self.heading() + self.fault().text(),
    {
        let mut text = match &self {
            FinalizeError::NotCommitted(_) => owned("publication not committed: "),
            FinalizeError::CommittedDurability(_) => owned(
                "publication committed with durability failure: ",
            ),
            FinalizeError::CommittedIdentity(_) => owned(
                "publication committed but canonical identity is unverified: ",
            ),
        };
        let e = self.into_error();
        text.append(e.message.as_str());
        text
    }
}

/// What the driver does next.
#[derive(Debug)]
pub enum PublishStep {
    /// Read the staged summary and report its working directory.
    ReadSummary,
    RemoveMarker,
    SyncStage,
    OpenRoot,
    CreateSessions,
    OpenSessions,
    /// Open the cwd directory, if there is one.
    OpenParent,
    /// Read the `.cwd` file of the cwd directory.
    ReadCwdFile,
    /// Rename the session into the cwd directory, replacing nothing.
    RenameSession,
    /// Remove the emptied container; a failure is only logged.
    RemoveContainer,
    /// Write the `.cwd` file into the container.
    WriteCwdFile,
    /// Rename the container to the cwd directory, replacing nothing.
    RenameContainer,
    OpenPublishedSession,
    /// Open the staged session again after losing the race for the cwd directory.
    ReopenStagedSession,
    ReopenParent,
    /// Compare the directory on the canonical path with the one published.
    Verify(Level),
    SyncPublished,
    SyncSession,
    SyncParent,
    SyncSessions,
    Finished(Result<(), FinalizeError>),
}

/// What happened.
#[derive(Debug)]
pub enum PublishEvent {
    Summary(Result<String, IoError>),
    Done(Result<(), IoError>),
    Bytes(Result<Vec<u8>, IoError>),
    /// Whether both are the same directory.
    Identity(Result<bool, IoError>),
}

/// The publication of one staged session.
#[derive(Debug)]
pub struct Publication {
    /// Name of the cwd directory.
    pub parent_name: String,
    /// Working directory of the staged session, once its summary is read.
    pub cwd: String,
    /// Whether the handle of the staged session is held.
    pub session_held: bool,
    /// Whether the handle of the stage container is held.
    pub container_held: bool,
    /// Whether the rename is on record; an emptied container goes before that.
    pub committed: bool,
    pub step: PublishStep,
}

// Transitions.

pub open spec fn at(p: Publication, step: PublishStep) -> Publication {
    Publication { step, ..p }
}

pub open spec fn not_committed(p: Publication, fault: Fault) -> Publication {
    at(p, PublishStep::Finished(Err(FinalizeError::NotCommitted(fault))))
}

pub open spec fn commit(p: Publication) -> Publication {
    Publication { committed: true, step: PublishStep::Verify(Level::Root), ..p }
}

/// Goes on with an existing cwd directory: its `.cwd` file is compared where
/// it needs one.
pub open spec fn into_parent(p: Publication) -> Publication {
    if needs_cwd_file(p.parent_name@, p.cwd@) {
        at(p, PublishStep::ReadCwdFile)
    } else {
        at(p, PublishStep::RenameSession)
    }
}

/// Goes on without a cwd directory: the container becomes it.
pub open spec fn as_parent(p: Publication) -> Publication {
    if !p.container_held {
        not_committed(p, Fault::ContainerConsumed)
    } else if needs_cwd_file(p.parent_name@, p.cwd@) {
        at(p, PublishStep::WriteCwdFile)
    } else {
        Publication { session_held: false, step: PublishStep::RenameContainer, ..p }
    }
}

/// What follows a step that succeeded.
pub open spec fn after_ok(p: Publication) -> Publication {
    match p.step {
        PublishStep::RemoveMarker => at(p, PublishStep::SyncStage),
        PublishStep::SyncStage => at(p, PublishStep::OpenRoot),
        PublishStep::OpenRoot => at(p, PublishStep::CreateSessions),
        PublishStep::CreateSessions => at(p, PublishStep::OpenParent),
        PublishStep::OpenSessions => at(p, PublishStep::OpenParent),
        PublishStep::OpenParent => into_parent(p),
        PublishStep::RenameSession => if p.container_held {
            Publication { session_held: false, step: PublishStep::RemoveContainer, ..p }
        } else {
            commit(Publication { session_held: false, ..p })
        },
        PublishStep::RemoveContainer => commit(Publication { container_held: false, ..p }),
        PublishStep::WriteCwdFile => Publication {
            session_held: false,
            step: PublishStep::RenameContainer,
            ..p
        },
        PublishStep::RenameContainer => Publication {
            container_held: false,
            committed: true,
            step: PublishStep::OpenPublishedSession,
            ..p
        },
        PublishStep::OpenPublishedSession => commit(p),
        PublishStep::ReopenStagedSession => Publication {
            session_held: true,
            step: PublishStep::ReopenParent,
            ..p
        },
        PublishStep::ReopenParent => into_parent(p),
        PublishStep::SyncPublished => at(p, PublishStep::SyncSession),
        PublishStep::SyncSession => at(p, PublishStep::SyncParent),
        PublishStep::SyncParent => at(p, PublishStep::SyncSessions),
        PublishStep::SyncSessions => at(p, PublishStep::Finished(Ok(()))),
        _ => p,
    }
}

/// What follows a step that failed with `e`: before the rename the publication
/// has not happened, after it only durability or identity is in doubt. A
/// `sessions` directory that exists is opened, a missing cwd directory is
/// created from the container, a cwd directory that appeared meanwhile is
/// joined, and a container that cannot be removed is left behind.
pub open spec fn after_err(p: Publication, e: IoError) -> Publication {
    match p.step {
        PublishStep::CreateSessions if e.kind == ErrorKind::AlreadyExists => at(
            p,
            PublishStep::OpenSessions,
        ),
        PublishStep::OpenParent if e.kind == ErrorKind::NotFound => as_parent(p),
        PublishStep::RenameContainer if e.kind == ErrorKind::AlreadyExists => at(
            p,
            PublishStep::ReopenStagedSession,
        ),
        PublishStep::RemoveContainer => commit(Publication { container_held: false, ..p }),
        PublishStep::OpenPublishedSession => at(
            p,
            PublishStep::Finished(Err(FinalizeError::CommittedIdentity(Fault::Io(e)))),
        ),
        PublishStep::SyncPublished => at(
            p,
            PublishStep::Finished(Err(FinalizeError::CommittedDurability(Fault::Io(e)))),
        ),
        PublishStep::SyncSession => at(
            p,
            PublishStep::Finished(Err(FinalizeError::CommittedDurability(Fault::Io(e)))),
        ),
        PublishStep::SyncParent => at(
            p,
            PublishStep::Finished(Err(FinalizeError::CommittedDurability(Fault::Io(e)))),
        ),
        PublishStep::SyncSessions => at(
            p,
            PublishStep::Finished(Err(FinalizeError::CommittedDurability(Fault::Io(e)))),
        ),
        _ => not_committed(p, Fault::Io(e)),
    }
}

/// What follows the comparison of a level.
pub open spec fn after_identity(
    p: Publication,
    level: Level,
    result: Result<bool, IoError>,
) -> Publication {
    match result {
        Err(e) => at(
            p,
            PublishStep::Finished(Err(FinalizeError::CommittedIdentity(Fault::Io(e)))),
        ),
        Ok(false) => at(
            p,
            PublishStep::Finished(Err(FinalizeError::CommittedIdentity(Fault::Moved(level)))),
        ),
        Ok(true) => at(
            p,
            match level {
                Level::Root => PublishStep::Verify(Level::Sessions),
                Level::Sessions => PublishStep::Verify(Level::Parent),
                Level::Parent => PublishStep::Verify(Level::Session),
                Level::Session => PublishStep::SyncPublished,
            },
        ),
    }
}

/// What one event makes of a publication.
pub open spec fn published_by(p: Publication, event: PublishEvent) -> Publication {
    match event {
        PublishEvent::Summary(Ok(cwd)) => {
            let read = Publication { cwd, ..p };
            if p.session_held {
                at(read, PublishStep::RemoveMarker)
            } else {
                not_committed(read, Fault::StageConsumed)
            }
        },
        PublishEvent::Summary(Err(e)) => not_committed(p, Fault::Io(e)),
        PublishEvent::Bytes(Ok(bytes)) => if bytes@ == encode_utf8(p.cwd@) {
            at(p, PublishStep::RenameSession)
        } else {
            not_committed(p, Fault::CwdMismatch)
        },
        PublishEvent::Bytes(Err(e)) => not_committed(p, Fault::Io(e)),
        PublishEvent::Identity(result) => after_identity(p, p.step->Verify_0, result),
        PublishEvent::Done(Ok(_)) => after_ok(p),
        PublishEvent::Done(Err(e)) => after_err(p, e),
    }
}

/// Whether `event` is what the step can lead to.
pub open spec fn fits(step: PublishStep, event: PublishEvent) -> bool {
    match step {
        PublishStep::ReadSummary => event is Summary,
        PublishStep::ReadCwdFile => event is Bytes,
        PublishStep::Verify(_) => event is Identity,
        PublishStep::Finished(_) => false,
        _ => event is Done,
    }
}

impl Publication {
    /// Once public, always public; the handles are there for the steps that
    /// need them; the outcome tells whether the session is public.
    pub open spec fn wf(&self) -> bool {
        match self.step {
            PublishStep::ReadSummary => !self.committed,
            PublishStep::RemoveContainer => !self.committed && self.container_held
                && !self.session_held,
            PublishStep::WriteCwdFile => !self.committed && self.container_held
                && self.session_held,
            PublishStep::RenameContainer => !self.committed && self.container_held
                && !self.session_held,
            PublishStep::ReopenStagedSession => !self.committed && self.container_held
                && !self.session_held,
            PublishStep::ReopenParent => !self.committed && self.container_held
                && self.session_held,
            PublishStep::OpenPublishedSession => self.committed && !self.container_held
                && !self.session_held,
            PublishStep::Verify(_) => self.committed && !self.container_held && !self.session_held,
            PublishStep::SyncPublished => self.committed && !self.container_held
                && !self.session_held,
            PublishStep::SyncSession => self.committed && !self.container_held
                && !self.session_held,
            PublishStep::SyncParent => self.committed && !self.container_held && !self.session_held,
            PublishStep::SyncSessions => self.committed && !self.container_held
                && !self.session_held,
            PublishStep::Finished(Err(FinalizeError::NotCommitted(_))) => !self.committed,
            PublishStep::Finished(_) => self.committed && !self.container_held
                && !self.session_held,
            _ => !self.committed && self.session_held,
        }
    }

    /// The publication of a stage whose handles are held as given.
    pub fn begin(parent_name: String, session_held: bool, container_held: bool) -> (r: Publication)
        ensures
            r.wf(),
            r.parent_name == parent_name,
            r.session_held == session_held,
            r.container_held == container_held,
            !r.committed,
            r.step is ReadSummary,
    {
        Publication {
            parent_name,
            cwd: String::new(),
            session_held,
            container_held,
            committed: false,
            step: PublishStep::ReadSummary,
        }
    }

    fn go(self, step: PublishStep) -> (r: Publication)
        ensures
            r == at(self, step),
    {
        let mut p = self;
        p.step = step;
        p
    }

    fn fail(self, fault: Fault) -> (r: Publication)
        ensures
            r == not_committed(self, fault),
    {
        self.go(PublishStep::Finished(Err(FinalizeError::NotCommitted(fault))))
    }

    fn make_public(self) -> (r: Publication)
        ensures
            r == commit(self),
    {
        let mut p = self;
        p.committed = true;
        p.go(PublishStep::Verify(Level::Root))
    }

    fn enter_parent(self) -> (r: Publication)
        ensures
            r == into_parent(self),
    {
        if needs_cwd_metadata(self.parent_name.as_str(), self.cwd.as_str()) {
            self.go(PublishStep::ReadCwdFile)
        } else {
            self.go(PublishStep::RenameSession)
        }
    }

    fn become_parent(self) -> (r: Publication)
        ensures
            r == as_parent(self),
    {
        if !self.container_held {
            self.fail(Fault::ContainerConsumed)
        } else if needs_cwd_metadata(self.parent_name.as_str(), self.cwd.as_str()) {
            self.go(PublishStep::WriteCwdFile)
        } else {
            let mut p = self;
            p.session_held = false;
            p.go(PublishStep::RenameContainer)
        }
    }

    fn succeed(self) -> (r: Publication)
        ensures
            r == after_ok(self),
    {
        let mut p = self;
        match &p.step {
            PublishStep::RemoveMarker => p.go(PublishStep::SyncStage),
            PublishStep::SyncStage => p.go(PublishStep::OpenRoot),
            PublishStep::OpenRoot => p.go(PublishStep::CreateSessions),
            PublishStep::CreateSessions => p.go(PublishStep::OpenParent),
            PublishStep::OpenSessions => p.go(PublishStep::OpenParent),
            PublishStep::OpenParent => p.enter_parent(),
            PublishStep::RenameSession => {
                p.session_held = false;
                if p.container_held {
                    p.go(PublishStep::RemoveContainer)
                } else {
                    p.make_public()
                }
            },
            PublishStep::RemoveContainer => {
                p.container_held = false;
                p.make_public()
            },
            PublishStep::WriteCwdFile => {
                p.session_held = false;
                p.go(PublishStep::RenameContainer)
            },
            PublishStep::RenameContainer => {
                p.container_held = false;
                p.committed = true;
                p.go(PublishStep::OpenPublishedSession)
            },
            PublishStep::OpenPublishedSession => p.make_public(),
            PublishStep::ReopenStagedSession => {
                p.session_held = true;
                p.go(PublishStep::ReopenParent)
            },
            PublishStep::ReopenParent => p.enter_parent(),
            PublishStep::SyncPublished => p.go(PublishStep::SyncSession),
            PublishStep::SyncSession => p.go(PublishStep::SyncParent),
            PublishStep::SyncParent => p.go(PublishStep::SyncSessions),
            PublishStep::SyncSessions => p.go(PublishStep::Finished(Ok(()))),
            _ => p,
        }
    }

    fn stumble(self, e: IoError) -> (r: Publication)
        ensures
            r == after_err(self, e),
    {
        let mut p = self;
        let exists = e.kind == ErrorKind::AlreadyExists;
        let missing = e.kind == ErrorKind::NotFound;
        match &p.step {
            PublishStep::CreateSessions => {
                if exists {
                    p.go(PublishStep::OpenSessions)
                } else {
                    p.fail(Fault::Io(e))
                }
            },
            PublishStep::OpenParent => {
                if missing {
                    p.become_parent()
                } else {
                    p.fail(Fault::Io(e))
                }
            },
            PublishStep::RenameContainer => {
                if exists {
                    p.go(PublishStep::ReopenStagedSession)
                } else {
                    p.fail(Fault::Io(e))
                }
            },
            PublishStep::RemoveContainer => {
                p.container_held = false;
                p.make_public()
            },
            PublishStep::OpenPublishedSession => p.go(
                PublishStep::Finished(Err(FinalizeError::CommittedIdentity(Fault::Io(e)))),
            ),
            PublishStep::SyncPublished => p.go(
                PublishStep::Finished(Err(FinalizeError::CommittedDurability(Fault::Io(e)))),
            ),
            PublishStep::SyncSession => p.go(
                PublishStep::Finished(Err(FinalizeError::CommittedDurability(Fault::Io(e)))),
            ),
            PublishStep::SyncParent => p.go(
                PublishStep::Finished(Err(FinalizeError::CommittedDurability(Fault::Io(e)))),
            ),
            PublishStep::SyncSessions => p.go(
                PublishStep::Finished(Err(FinalizeError::CommittedDurability(Fault::Io(e)))),
            ),
            _ => p.fail(Fault::Io(e)),
        }
    }

    fn compared(self, level: Level, result: Result<bool, IoError>) -> (r: Publication)
        ensures
            r == after_identity(self, level, result),
    {
        match result {
            Err(e) => self.go(
                PublishStep::Finished(Err(FinalizeError::CommittedIdentity(Fault::Io(e)))),
            ),
            Ok(false) => self.go(
                PublishStep::Finished(Err(FinalizeError::CommittedIdentity(Fault::Moved(level)))),
            ),
            Ok(true) => self.go(
                match level {
                    Level::Root => PublishStep::Verify(Level::Sessions),
                    Level::Sessions => PublishStep::Verify(Level::Parent),
                    Level::Parent => PublishStep::Verify(Level::Session),
                    Level::Session => PublishStep::SyncPublished,
                },
            ),
        }
    }

    /// Whether `event` is what the step can lead to.
    pub fn accepts(&self, event: &PublishEvent) -> (r: bool)
        ensures
            r == fits(self.step, *event),
    {
        match (&self.step, event) {
            (PublishStep::ReadSummary, PublishEvent::Summary(_)) => true,
            (PublishStep::ReadSummary, _) => false,
            (PublishStep::ReadCwdFile, PublishEvent::Bytes(_)) => true,
            (PublishStep::ReadCwdFile, _) => false,
            (PublishStep::Verify(_), PublishEvent::Identity(_)) => true,
            (PublishStep::Verify(_), _) => false,
            (PublishStep::Finished(_), _) => false,
            (_, PublishEvent::Done(_)) => true,
            _ => false,
        }
    }

    /// Takes in what happened.
    pub fn step(self, event: PublishEvent) -> (r: Publication)
        requires
            self.wf(),
            fits(self.step, event),
        ensures
            r.wf(),
            r == published_by(self, event),
    {
        match event {
            PublishEvent::Summary(Ok(cwd)) => {
                let mut p = self;
                p.cwd = cwd;
                if p.session_held {
                    p.go(PublishStep::RemoveMarker)
                } else {
                    p.fail(Fault::StageConsumed)
                }
            },
            PublishEvent::Summary(Err(e)) => self.fail(Fault::Io(e)),
            PublishEvent::Bytes(Ok(bytes)) => {
                if cwd_metadata_matches(&bytes, self.cwd.as_str()) {
                    self.go(PublishStep::RenameSession)
                } else {
                    self.fail(Fault::CwdMismatch)
                }
            },
            PublishEvent::Bytes(Err(e)) => self.fail(Fault::Io(e)),
            PublishEvent::Identity(result) => {
                let level = match &self.step {
                    PublishStep::Verify(level) => *level,
                    _ => Level::Root,
                };
                self.compared(level, result)
            },
            PublishEvent::Done(Ok(_)) => self.succeed(),
            PublishEvent::Done(Err(e)) => self.stumble(e),
        }
    }
}

/// A published session stays published, and the outcome says what happened:
/// `NotCommitted` exactly where the session did not become public.
pub proof fn outcome_tells_commitment(p: Publication, event: PublishEvent)
    requires
        p.wf(),
        fits(p.step, event),
    ensures
        published_by(p, event).wf(),
        p.committed ==> published_by(p, event).committed,
        published_by(p, event).step matches PublishStep::Finished(result) ==> (
        published_by(p, event).committed <==> !(result matches Err(FinalizeError::NotCommitted(_)))),
{
}

/// Until a session is public the handle of its container is kept, so that a
/// publication that failed can be cleaned up through it.
pub proof fn failed_publication_keeps_container(p: Publication, event: PublishEvent)
    requires
        p.wf(),
        fits(p.step, event),
        p.container_held,
        !published_by(p, event).committed,
    ensures
        published_by(p, event).container_held,
{
}

/// A publication whose steps succeed, one after another, from the opening of
/// the cwd directory on.
pub open spec fn all_succeed(p: Publication, steps: nat) -> Publication
    decreases steps,
{
    if steps == 0 {
        p
    } else {
        let before = all_succeed(p, (steps - 1) as nat);
        match before.step {
            PublishStep::Verify(level) => after_identity(before, level, Ok(true)),
            PublishStep::Finished(_) => before,
            _ => after_ok(before),
        }
    }
}

/// Renaming the session out of a held container leads, if every step succeeds,
/// to a public session and the outcome `Ok`.
pub proof fn successful_rename_publishes(p: Publication)
    requires
        p.wf(),
        p.step is RenameSession,
        p.container_held,
    ensures
        all_succeed(p, 10).committed,
        all_succeed(p, 10).step == PublishStep::Finished(Ok(())),
{
    reveal_with_fuel(all_succeed, 11);
}

/// Whether dropping the claim of a fresh session removes its private stage:
/// only while cleanup is armed, the session is not public and the container's
/// handle is held.
pub fn reclaims_stage_on_drop(cleanup_armed: bool, committed: bool, container_held: bool) -> (r:
    bool)
    ensures
        r == (cleanup_armed && !committed && container_held),
{
    cleanup_armed && !committed && container_held
}

/// Accepts a staged `summary.json` that is a regular file.
pub fn require_regular_summary(is_file: bool, is_symlink: bool) -> (r: Result<(), IoError>)
    ensures
        r is Ok <==> is_file && !is_symlink,
        r matches Err(e) ==> e.says(
            ErrorKind::InvalidData,
            "published session requires a regular summary.json"@,
        ),
{
    if is_file && !is_symlink {
        Ok(())
    } else {
        Err(
            IoError::new(
                ErrorKind::InvalidData,
                "published session requires a regular summary.json",
            ),
        )
    }
}

} // verus!
