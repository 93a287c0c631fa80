//! Deleting a session for good: the copy at the backend, the one on disk, and
//! the entry in the search index.
//!
//! The remote copy goes first, and only once it is gone does the local one go.
//! Otherwise a session whose remote copy could not be deleted would come back
//! in the next listing.

use vstd::prelude::*;
use vstd::string::*;

use crate::io_error::IoError;
use crate::summary::Info;
use crate::text::owned;

verus! {

/// Why a request to the backend failed.
#[derive(Debug)]
pub enum BackendError {
    RequestFailed { status: u16 },
    Auth(String),
    Other(String),
}

/// Why a session could not be deleted.
#[derive(Debug)]
pub enum DeleteSessionError {
    /// The session could not be locked or looked up.
    List(IoError),
    /// The remote copy could not be deleted; nothing was deleted here.
    Remote(BackendError),
    /// The directory on disk could not be deleted.
    Local(IoError),
}

impl DeleteSessionError {
    pub open spec fn text(&self, backend: Seq<char>) -> Seq<char> {
        match self {
            DeleteSessionError::List(e) => "failed to resolve local session: "@ + e.message@,
            DeleteSessionError::Remote(_) => "failed to delete remote session data: "@ + backend,
            DeleteSessionError::Local(e) => "failed to delete session: "@ + e.message@,
        }
    }

    /// What is shown of the failure; `backend` is what is shown of a failure at
    /// the backend.
    pub fn message(&self, backend: &str) -> (r: String)
        ensures
            r@ == self.text(backend@),
    {
        match self {
            DeleteSessionError::List(e) => {
                let mut text = owned("failed to resolve local session: ");
                text.append(e.message.as_str());
                text
            },
            DeleteSessionError::Remote(_) => {
                let mut text = owned("failed to delete remote session data: ");
                text.append(backend);
                text
            },
            DeleteSessionError::Local(e) => {
                let mut text = owned("failed to delete session: ");
                text.append(e.message.as_str());
                text
            },
        }
    }
}

/// Where a copy was found and removed.
#[derive(Debug, Clone, Copy, PartialEq, Eq, Structural)]
pub struct SessionDeletion {
    pub local_removed: bool,
    pub remote_removed: bool,
}

impl Default for SessionDeletion {
    fn default() -> (r: SessionDeletion)
        ensures
            r == (SessionDeletion { local_removed: false, remote_removed: false }),
    {
        SessionDeletion { local_removed: false, remote_removed: false }
    }
}

impl SessionDeletion {
    /// Whether a copy was removed anywhere.
    pub fn any_removed(self) -> (r: bool)
        ensures
            r == (self.local_removed || self.remote_removed),
    {
        self.local_removed || self.remote_removed
    }
}

/// What the backend's answer means: whether a copy was removed there. A copy
/// that was not there (status 404) is no failure.
pub open spec fn remote_outcome(result: Result<(), BackendError>) -> Result<
    bool,
    DeleteSessionError,
> {
    match result {
        Ok(_) => Ok(true),
        Err(BackendError::RequestFailed { status: 404 }) => Ok(false),
        Err(e) => Err(DeleteSessionError::Remote(e)),
    }
}

pub fn classify_remote_delete(result: Result<(), BackendError>) -> (r: Result<
    bool,
    DeleteSessionError,
>)
    ensures
        r == remote_outcome(result),
{
    match result {
        Ok(_) => Ok(true),
        Err(BackendError::RequestFailed { status }) => if status == 404 {
            Ok(false)
        } else {
            Err(DeleteSessionError::Remote(BackendError::RequestFailed { status }))
        },
        Err(e) => Err(DeleteSessionError::Remote(e)),
    }
}

/// What the driver does next.
#[derive(Debug)]
#[allow(inconsistent_fields)]
pub enum DeleteStep {
    /// Take the session's locks, exclusively.
    Lock,
    /// Look for the session here.
    Resolve,
    DeleteRemote { local: Option<Info> },
    DeleteLocal { info: Info, remote_removed: bool },
    /// Have the search index drop the session.
    Evict { info: Info, remote_removed: bool },
    Finished(Result<SessionDeletion, DeleteSessionError>),
}

/// What happened.
#[derive(Debug)]
pub enum DeleteEvent {
    Locked(Result<(), IoError>),
    Resolved(Result<Option<Info>, IoError>),
    RemoteDeleted(Result<(), BackendError>),
    LocalDeleted(Result<(), IoError>),
    Evicted,
}

/// A deletion in progress.
#[derive(Debug)]
pub struct Deletion {
    /// Whether there may be a remote copy.
    pub needs_remote: bool,
    pub step: DeleteStep,
}

/// Whether `event` is what the step can lead to.
pub open spec fn delete_fits(step: DeleteStep, event: DeleteEvent) -> bool {
    match step {
        DeleteStep::Lock => event is Locked,
        DeleteStep::Resolve => event is Resolved,
        DeleteStep::DeleteRemote { .. } => event is RemoteDeleted,
        DeleteStep::DeleteLocal { .. } => event is LocalDeleted,
        DeleteStep::Evict { .. } => event is Evicted,
        DeleteStep::Finished(_) => false,
    }
}

/// What comes once nothing is left at the backend.
pub open spec fn local_next(local: Option<Info>, remote_removed: bool) -> DeleteStep {
    match local {
        Some(info) => DeleteStep::DeleteLocal { info, remote_removed },
        None => DeleteStep::Finished(
            Ok(SessionDeletion { local_removed: false, remote_removed }),
        ),
    }
}

/// What one event makes of a deletion.
pub open spec fn delete_after(needs_remote: bool, step: DeleteStep, event: DeleteEvent) -> DeleteStep {
    match (step, event) {
        (DeleteStep::Lock, DeleteEvent::Locked(result)) => match result {
            Ok(_) => DeleteStep::Resolve,
            Err(e) => DeleteStep::Finished(Err(DeleteSessionError::List(e))),
        },
        (DeleteStep::Resolve, DeleteEvent::Resolved(result)) => match result {
            Ok(local) => if needs_remote {
                DeleteStep::DeleteRemote { local }
            } else {
                local_next(local, false)
            },
            Err(e) => DeleteStep::Finished(Err(DeleteSessionError::List(e))),
        },
        (DeleteStep::DeleteRemote { local }, DeleteEvent::RemoteDeleted(result)) =>
            match remote_outcome(result) {
            Ok(removed) => local_next(local, removed),
            Err(e) => DeleteStep::Finished(Err(e)),
        },
        (DeleteStep::DeleteLocal { info, remote_removed }, DeleteEvent::LocalDeleted(result)) =>
            match result {
            Ok(_) => DeleteStep::Evict { info, remote_removed },
            Err(e) => DeleteStep::Finished(Err(DeleteSessionError::Local(e))),
        },
        (DeleteStep::Evict { info, remote_removed }, DeleteEvent::Evicted) => DeleteStep::Finished(
            Ok(SessionDeletion { local_removed: true, remote_removed }),
        ),
        (step, _) => step,
    }
}

fn after_remote(local: Option<Info>, remote_removed: bool) -> (r: DeleteStep)
    ensures
        r == local_next(local, remote_removed),
{
    match local {
        Some(info) => DeleteStep::DeleteLocal { info, remote_removed },
        None => DeleteStep::Finished(
            Ok(SessionDeletion { local_removed: false, remote_removed }),
        ),
    }
}

/// Starts to delete a session for good.
pub fn delete_session_history(needs_remote: bool) -> (r: Deletion)
    ensures
        r.needs_remote == needs_remote,
        r.step is Lock,
{
    Deletion { needs_remote, step: DeleteStep::Lock }
}

impl Deletion {
    /// Takes in what happened.
    pub fn step(self, event: DeleteEvent) -> (r: Deletion)
        requires
            delete_fits(self.step, event),
        ensures
            r.needs_remote == self.needs_remote,
            r.step == delete_after(self.needs_remote, self.step, event),
    {
        let needs_remote = self.needs_remote;
        let step = match (self.step, event) {
            (DeleteStep::Lock, DeleteEvent::Locked(result)) => match result {
                Ok(_) => DeleteStep::Resolve,
                Err(e) => DeleteStep::Finished(Err(DeleteSessionError::List(e))),
            },
            (DeleteStep::Resolve, DeleteEvent::Resolved(result)) => match result {
                Ok(local) => if needs_remote {
                    DeleteStep::DeleteRemote { local }
                } else {
                    after_remote(local, false)
                },
                Err(e) => DeleteStep::Finished(Err(DeleteSessionError::List(e))),
            },
            (DeleteStep::DeleteRemote { local }, DeleteEvent::RemoteDeleted(result)) =>
                match classify_remote_delete(result) {
                Ok(removed) => after_remote(local, removed),
                Err(e) => DeleteStep::Finished(Err(e)),
            },
            (DeleteStep::DeleteLocal { info, remote_removed }, DeleteEvent::LocalDeleted(result)) =>
                match result {
                Ok(_) => DeleteStep::Evict { info, remote_removed },
                Err(e) => DeleteStep::Finished(Err(DeleteSessionError::Local(e))),
            },
            (DeleteStep::Evict { info, remote_removed }, DeleteEvent::Evicted) =>
                DeleteStep::Finished(Ok(SessionDeletion { local_removed: true, remote_removed })),
            (step, _) => step,
        };
        Deletion { needs_remote, step }
    }
}

/// Where a remote copy may exist, nothing is deleted here unless the backend
/// has deleted it or has none.
pub proof fn local_goes_after_remote(needs_remote: bool, step: DeleteStep, event: DeleteEvent)
    requires
        delete_fits(step, event),
        delete_after(needs_remote, step, event) is DeleteLocal,
    ensures
        needs_remote ==> step is DeleteRemote && (event matches DeleteEvent::RemoteDeleted(result)
            && (result is Ok || result == Err::<(), BackendError>(
            BackendError::RequestFailed { status: 404 },
        ))),
{
}

/// Deleting what is nowhere succeeds, and removes nothing.
pub proof fn deleting_nothing_succeeds(needs_remote: bool)
    ensures
        ({
            let resolved = delete_after(
                needs_remote,
                DeleteStep::Resolve,
                DeleteEvent::Resolved(Ok(None)),
            );
            let end = if needs_remote {
                delete_after(
                    needs_remote,
                    resolved,
                    DeleteEvent::RemoteDeleted(Err(BackendError::RequestFailed { status: 404 })),
                )
            } else {
                resolved
            };
            end == DeleteStep::Finished(
                Ok(SessionDeletion { local_removed: false, remote_removed: false }),
            )
        }),
{
}

} // verus!
