//! Bringing a session that is not stored here from the backend.
//!
//! The session is fetched before any lock is taken. Then its id is claimed:
//! where someone else has published it meanwhile, theirs is checked and used,
//! else the fetched one is staged, published and leased.

use vstd::prelude::*;
use vstd::string::*;

use crate::io_error::{ErrorKind, IoError};
use crate::lease::SessionIdLock;
use crate::publish::{Fault, FinalizeError};
use crate::summary::Info;
use crate::text::{owned, same_text};

verus! {

/// A session brought from the backend, with the lock for its lifetime.
#[derive(Debug)]
pub struct PulledSession {
    pub info: Info,
    pub lifetime_lease: SessionIdLock,
}

/// Why the backend's answer is of no use; each with its text.
#[derive(Debug)]
pub enum PullError {
    SessionIdMismatch(String),
    MalformedSession(String),
    Backend(String),
}

/// Why a session could not be brought.
#[derive(Debug)]
#[allow(inconsistent_fields)]
pub enum PullFault {
    NotAuthenticated,
    Fetch(PullError),
    Io(IoError),
    /// What was fetched could not be written.
    Hydration(String),
    Publication(Fault),
    InvalidSummary(IoError),
    IdMismatch { requested: String, found: String },
    PathMismatch { requested: String, expected: String, found: String },
}

impl PullFault {
    pub open spec fn kind(&self) -> ErrorKind {
        match self {
            PullFault::NotAuthenticated => ErrorKind::PermissionDenied,
            PullFault::Fetch(PullError::Backend(_)) => ErrorKind::Other,
            PullFault::Fetch(_) => ErrorKind::InvalidData,
            PullFault::Io(e) => e.kind,
            PullFault::Hydration(_) => ErrorKind::Other,
            PullFault::Publication(fault) => fault.kind(),
            PullFault::InvalidSummary(_) => ErrorKind::InvalidData,
            PullFault::IdMismatch { .. } => ErrorKind::InvalidData,
            PullFault::PathMismatch { .. } => ErrorKind::InvalidData,
        }
    }

    pub open spec fn text(&self) -> Seq<char> {
        match self {
            PullFault::NotAuthenticated => "remote pull requires an authenticated backend client"@,
            PullFault::Fetch(PullError::SessionIdMismatch(text)) => text@,
            PullFault::Fetch(PullError::MalformedSession(text)) => text@,
            PullFault::Fetch(PullError::Backend(text)) => text@,
            PullFault::Io(e) => e.message@,
            PullFault::Hydration(text) => text@,
            PullFault::Publication(fault) => fault.text(),
            PullFault::InvalidSummary(e) => "canonical pulled session has invalid summary: "@
                + e.message@,
            PullFault::IdMismatch { requested, found } =>
                "canonical pulled session id mismatch: requested "@ + requested@ + ", found "@
                + found@,
            PullFault::PathMismatch { requested, expected, found } =>
                "canonical pulled session path mismatch for "@ + requested@ + ": expected "@
                + expected@ + ", found "@ + found@,
        }
    }

    /// Whether `e` is the failure as an I/O error: an I/O failure as it came,
    /// with the code of the system.
    pub open spec fn told_by(&self, e: IoError) -> bool {
        match self {
            PullFault::Io(cause) => e == *cause,
            PullFault::Publication(fault) => fault.told_by(e),
            _ => e.says(self.kind(), self.text()),
        }
    }

    /// The failure as an I/O error.
    pub fn into_error(self) -> (r: IoError)
        ensures
            self.told_by(r),
    {
        match self {
            PullFault::NotAuthenticated => IoError::new(
                ErrorKind::PermissionDenied,
                "remote pull requires an authenticated backend client",
            ),
            PullFault::Fetch(PullError::SessionIdMismatch(text)) => IoError::new(
                ErrorKind::InvalidData,
                text.as_str(),
            ),
            PullFault::Fetch(PullError::MalformedSession(text)) => IoError::new(
                ErrorKind::InvalidData,
                text.as_str(),
            ),
            PullFault::Fetch(PullError::Backend(text)) => IoError::other(text.as_str()),
            PullFault::Io(e) => e,
            PullFault::Hydration(text) => IoError::other(text.as_str()),
            PullFault::Publication(fault) => fault.into_error(),
            PullFault::InvalidSummary(e) => {
                let mut text = owned("canonical pulled session has invalid summary: ");
                text.append(e.message.as_str());
                IoError::new(ErrorKind::InvalidData, text.as_str())
            },
            PullFault::IdMismatch { requested, found } => {
                let mut text = owned("canonical pulled session id mismatch: requested ");
                text.append(requested.as_str());
                text.append(", found ");
                text.append(found.as_str());
                IoError::new(ErrorKind::InvalidData, text.as_str())
            },
            PullFault::PathMismatch { requested, expected, found } => {
                let mut text = owned("canonical pulled session path mismatch for ");
                text.append(requested.as_str());
                text.append(": expected ");
                text.append(expected.as_str());
                text.append(", found ");
                text.append(found.as_str());
                IoError::new(ErrorKind::InvalidData, text.as_str())
            },
        }
    }
}

/// What a session that is published already amounts to: it is the one asked
/// for only if its summary can be read, bears the id, and lies where its
/// working directory says.
pub open spec fn checked_existing(
    requested: String,
    summary: Result<Info, IoError>,
    expected_path: String,
    found_path: String,
    lease: SessionIdLock,
) -> Result<PulledSession, PullFault> {
    match summary {
        Err(e) => Err(PullFault::InvalidSummary(e)),
        Ok(info) => if info.id@ != requested@ {
            Err(PullFault::IdMismatch { requested, found: info.id })
        } else if found_path@ != expected_path@ {
            Err(PullFault::PathMismatch { requested, expected: expected_path, found: found_path })
        } else {
            Ok(PulledSession { info, lifetime_lease: lease })
        },
    }
}

/// Checks a session that is published already.
pub fn validate_existing_remote_pull(
    requested: String,
    summary: Result<Info, IoError>,
    expected_path: String,
    found_path: String,
    lease: SessionIdLock,
) -> (r: Result<PulledSession, PullFault>)
    ensures
        r == checked_existing(requested, summary, expected_path, found_path, lease),
{
    match summary {
        Err(e) => Err(PullFault::InvalidSummary(e)),
        Ok(info) => if !same_text(info.id.as_str(), requested.as_str()) {
            Err(PullFault::IdMismatch { requested, found: info.id })
        } else if !same_text(found_path.as_str(), expected_path.as_str()) {
            Err(PullFault::PathMismatch { requested, expected: expected_path, found: found_path })
        } else {
            Ok(PulledSession { info, lifetime_lease: lease })
        },
    }
}

/// What the driver does next.
#[derive(Debug)]
#[allow(inconsistent_fields)]
pub enum PullStep {
    Fetch,
    /// Claim the session's id.
    Claim { fetched: Info },
    /// Read the summary of the session that is published already.
    ReadExisting { path: String, lease: SessionIdLock },
    BeginStage { fetched: Info },
    /// Write what was fetched into the stage, and sync it.
    Hydrate { fetched: Info },
    Publish { fetched: Info },
    /// Turn the claim into a lifetime lease.
    HandOff { fetched: Info },
    Finished(Result<Option<PulledSession>, PullFault>),
}

/// What happened.
#[derive(Debug)]
#[allow(inconsistent_fields)]
pub enum PullEvent {
    /// The session, or nothing where the backend has none.
    Fetched(Result<Option<Info>, PullError>),
    /// The id is claimed; a published session is given by its path and lease.
    Claimed(Result<Option<(String, SessionIdLock)>, IoError>),
    /// The summary of the published session, and the path where a session of
    /// its working directory belongs.
    ExistingRead { summary: Result<Info, IoError>, expected_path: String },
    Staged(Result<(), IoError>),
    Hydrated(Result<(), String>),
    Published(Result<(), FinalizeError>),
    HandedOff(Result<SessionIdLock, IoError>),
}

/// A pull in progress.
#[derive(Debug)]
pub struct Pull {
    pub session_id: String,
    pub step: PullStep,
}

/// Whether `event` is what the step can lead to.
pub open spec fn pull_fits(step: PullStep, event: PullEvent) -> bool {
    match step {
        PullStep::Fetch => event is Fetched,
        PullStep::Claim { .. } => event is Claimed,
        PullStep::ReadExisting { .. } => event is ExistingRead,
        PullStep::BeginStage { .. } => event is Staged,
        PullStep::Hydrate { .. } => event is Hydrated,
        PullStep::Publish { .. } => event is Published,
        PullStep::HandOff { .. } => event is HandedOff,
        PullStep::Finished(_) => false,
    }
}

/// What one event makes of a pull. A publication that is committed but not
/// acknowledged as durable counts.
pub open spec fn pull_after(session_id: String, step: PullStep, event: PullEvent) -> PullStep {
    match (step, event) {
        (PullStep::Fetch, PullEvent::Fetched(result)) => match result {
            Ok(Some(fetched)) => PullStep::Claim { fetched },
            Ok(None) => PullStep::Finished(Ok(None)),
            Err(e) => PullStep::Finished(Err(PullFault::Fetch(e))),
        },
        (PullStep::Claim { fetched }, PullEvent::Claimed(result)) => match result {
            Ok(Some((path, lease))) => PullStep::ReadExisting { path, lease },
            Ok(None) => PullStep::BeginStage { fetched },
            Err(e) => PullStep::Finished(Err(PullFault::Io(e))),
        },
        (
            PullStep::ReadExisting { path, lease },
            PullEvent::ExistingRead { summary, expected_path },
        ) => match checked_existing(session_id, summary, expected_path, path, lease) {
            Ok(pulled) => PullStep::Finished(Ok(Some(pulled))),
            Err(fault) => PullStep::Finished(Err(fault)),
        },
        (PullStep::BeginStage { fetched }, PullEvent::Staged(result)) => match result {
            Ok(_) => PullStep::Hydrate { fetched },
            Err(e) => PullStep::Finished(Err(PullFault::Io(e))),
        },
        (PullStep::Hydrate { fetched }, PullEvent::Hydrated(result)) => match result {
            Ok(_) => PullStep::Publish { fetched },
            Err(text) => PullStep::Finished(Err(PullFault::Hydration(text))),
        },
        (PullStep::Publish { fetched }, PullEvent::Published(result)) => match result {
            Ok(_) => PullStep::HandOff { fetched },
            Err(FinalizeError::CommittedDurability(_)) => PullStep::HandOff { fetched },
            Err(FinalizeError::NotCommitted(fault)) => PullStep::Finished(
                Err(PullFault::Publication(fault)),
            ),
            Err(FinalizeError::CommittedIdentity(fault)) => PullStep::Finished(
                Err(PullFault::Publication(fault)),
            ),
        },
        (PullStep::HandOff { fetched }, PullEvent::HandedOff(result)) => match result {
            Ok(lease) => PullStep::Finished(
                Ok(Some(PulledSession { info: fetched, lifetime_lease: lease })),
            ),
            Err(e) => PullStep::Finished(Err(PullFault::Io(e))),
        },
        (step, _) => step,
    }
}

impl Pull {
    /// A pull of a session; none is made without authentication.
    pub fn begin(session_id: String, authenticated: bool) -> (r: Pull)
        ensures
            r.session_id == session_id,
            r.step == if authenticated {
                PullStep::Fetch
            } else {
                PullStep::Finished(Err(PullFault::NotAuthenticated))
            },
    {
        let step = if authenticated {
            PullStep::Fetch
        } else {
            PullStep::Finished(Err(PullFault::NotAuthenticated))
        };
        Pull { session_id, step }
    }

    /// Takes in what happened.
    pub fn step(self, event: PullEvent) -> (r: Pull)
        requires
            pull_fits(self.step, event),
        ensures
            r.session_id == self.session_id,
            r.step == pull_after(self.session_id, self.step, event),
    {
        let session_id = self.session_id.clone();
        let step = match (self.step, event) {
            (PullStep::Fetch, PullEvent::Fetched(result)) => match result {
                Ok(Some(fetched)) => PullStep::Claim { fetched },
                Ok(None) => PullStep::Finished(Ok(None)),
                Err(e) => PullStep::Finished(Err(PullFault::Fetch(e))),
            },
            (PullStep::Claim { fetched }, PullEvent::Claimed(result)) => match result {
                Ok(Some((path, lease))) => PullStep::ReadExisting { path, lease },
                Ok(None) => PullStep::BeginStage { fetched },
                Err(e) => PullStep::Finished(Err(PullFault::Io(e))),
            },
            (
                PullStep::ReadExisting { path, lease },
                PullEvent::ExistingRead { summary, expected_path },
            ) => match validate_existing_remote_pull(
                self.session_id,
                summary,
                expected_path,
                path,
                lease,
            ) {
                Ok(pulled) => PullStep::Finished(Ok(Some(pulled))),
                Err(fault) => PullStep::Finished(Err(fault)),
            },
            (PullStep::BeginStage { fetched }, PullEvent::Staged(result)) => match result {
                Ok(_) => PullStep::Hydrate { fetched },
                Err(e) => PullStep::Finished(Err(PullFault::Io(e))),
            },
            (PullStep::Hydrate { fetched }, PullEvent::Hydrated(result)) => match result {
                Ok(_) => PullStep::Publish { fetched },
                Err(text) => PullStep::Finished(Err(PullFault::Hydration(text))),
            },
            (PullStep::Publish { fetched }, PullEvent::Published(result)) => match result {
                Ok(_) => PullStep::HandOff { fetched },
                Err(FinalizeError::CommittedDurability(_)) => PullStep::HandOff { fetched },
                Err(FinalizeError::NotCommitted(fault)) => PullStep::Finished(
                    Err(PullFault::Publication(fault)),
                ),
                Err(FinalizeError::CommittedIdentity(fault)) => PullStep::Finished(
                    Err(PullFault::Publication(fault)),
                ),
            },
            (PullStep::HandOff { fetched }, PullEvent::HandedOff(result)) => match result {
                Ok(lease) => PullStep::Finished(
                    Ok(Some(PulledSession { info: fetched, lifetime_lease: lease })),
                ),
                Err(e) => PullStep::Finished(Err(PullFault::Io(e))),
            },
            (step, _) => step,
        };
        Pull { session_id, step }
    }
}

/// What a load gets after a local miss: what was pulled, the miss itself where
/// the backend has no such session, and otherwise the failure to pull.
pub fn map_pull_on_miss_result(
    original_not_found: IoError,
    pulled: Result<Option<PulledSession>, IoError>,
) -> (r: Result<PulledSession, IoError>)
    ensures
        r == (match pulled {
            Ok(Some(session)) => Ok(session),
            Ok(None) => Err(original_not_found),
            Err(e) => Err(e),
        }),
{
    match pulled {
        Ok(Some(session)) => Ok(session),
        Ok(None) => Err(original_not_found),
        Err(e) => Err(e),
    }
}

/// A session that someone else has published is used only if it is the one
/// asked for; a mismatch fails closed.
pub proof fn foreign_session_is_checked(
    session_id: String,
    path: String,
    lease: SessionIdLock,
    summary: Result<Info, IoError>,
    expected_path: String,
)
    ensures
        ({
            let r = pull_after(
                session_id,
                PullStep::ReadExisting { path, lease },
                PullEvent::ExistingRead { summary, expected_path },
            );
            &&& r is Finished
            &&& r->Finished_0 is Ok <==> (summary matches Ok(info) && info.id@ == session_id@
                && path@ == expected_path@)
            &&& r->Finished_0 matches Ok(pulled) ==> pulled == Some(
                PulledSession { info: summary->Ok_0, lifetime_lease: lease },
            )
        }),
{
}

/// Nothing is claimed, staged or published before the backend has given the
/// session.
pub proof fn fetch_comes_first(session_id: String, event: PullEvent)
    requires
        pull_fits(PullStep::Fetch, event),
    ensures
        ({
            let r = pull_after(session_id, PullStep::Fetch, event);
            (r is Claim <==> event matches PullEvent::Fetched(Ok(Some(_)))) && (r is Claim || r
                is Finished)
        }),
{
}

} // verus!
