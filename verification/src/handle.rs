//! What a caller of the persistence actor is told.

use vstd::prelude::*;

use crate::actor::AppendUpdateError;
use crate::io_error::{ErrorKind, IoError};

verus! {

/// How a durable append failed. One that was not committed can be tried again;
/// of one whose acknowledgement was lost nothing is known.
#[derive(Debug)]
pub enum DurableAppendError {
    NotCommitted(IoError),
    Committed(IoError),
    AcknowledgementLost(IoError),
}

impl DurableAppendError {
    pub open spec fn error(&self) -> IoError {
        match self {
            DurableAppendError::NotCommitted(e) => *e,
            DurableAppendError::Committed(e) => *e,
            DurableAppendError::AcknowledgementLost(e) => *e,
        }
    }

    /// What is shown of the failure.
    pub fn message(self) -> (r: String)
        ensures
            r == self.error().message,
    {
        match self {
            DurableAppendError::NotCommitted(e) => e.message,
            DurableAppendError::Committed(e) => e.message,
            DurableAppendError::AcknowledgementLost(e) => e.message,
        }
    }
}

/// The failure that storage reported.
pub open spec fn reported(error: AppendUpdateError) -> DurableAppendError {
    match error {
        AppendUpdateError::NotCommitted(e) => DurableAppendError::NotCommitted(e),
        AppendUpdateError::Committed(e) => DurableAppendError::Committed(e),
    }
}

impl From<AppendUpdateError> for DurableAppendError {
    fn from(error: AppendUpdateError) -> (r: DurableAppendError) {
        match error {
            AppendUpdateError::NotCommitted(e) => DurableAppendError::NotCommitted(e),
            AppendUpdateError::Committed(e) => DurableAppendError::Committed(e),
        }
    }
}

impl vstd::std_specs::convert::FromSpecImpl<AppendUpdateError> for DurableAppendError {
    open spec fn obeys_from_spec() -> bool {
        true
    }

    open spec fn from_spec(error: AppendUpdateError) -> DurableAppendError {
        reported(error)
    }
}

/// What became of a request to the actor. `T` stands for its answer.
#[derive(Debug)]
pub enum Reply<T> {
    /// The actor had stopped before the request.
    NotSent,
    /// The actor stopped before it answered.
    Lost,
    Answer(T),
}

/// A handle of the persistence actor, or one that leads nowhere.
#[derive(Debug, Clone, Copy, PartialEq, Eq, Structural)]
pub struct PersistenceHandle {
    pub noop: bool,
}

impl PersistenceHandle {
    /// A handle that leads nowhere.
    pub fn noop() -> (r: PersistenceHandle)
        ensures
            r.noop,
    {
        PersistenceHandle { noop: true }
    }

    /// A handle of an actor.
    pub fn live() -> (r: PersistenceHandle)
        ensures
            !r.noop,
    {
        PersistenceHandle { noop: false }
    }

    pub fn is_noop(&self) -> (r: bool)
        ensures
            r == self.noop,
    {
        self.noop
    }

    /// What a caller of a durable append is told. A handle that leads nowhere
    /// sends nothing.
    pub fn append_update_durably(&self, reply: Reply<Result<(), AppendUpdateError>>) -> (r: Result<
        (),
        DurableAppendError,
    >)
        ensures
            self.noop ==> (r matches Err(DurableAppendError::NotCommitted(e)) && e.says(
                ErrorKind::Unsupported,
                "durable session update append is unsupported by a no-op persistence handle"@,
            )),
            !self.noop ==> match reply {
                Reply::NotSent => r matches Err(DurableAppendError::NotCommitted(e)) && e.says(
                    ErrorKind::BrokenPipe,
                    "session persistence actor stopped before durable append dispatch"@,
                ),
                Reply::Lost => r matches Err(DurableAppendError::AcknowledgementLost(e)) && e.says(
                    ErrorKind::BrokenPipe,
                    "session persistence actor stopped before durable append acknowledgement"@,
                ),
                Reply::Answer(Ok(_)) => r is Ok,
                Reply::Answer(Err(error)) => r == Err::<(), DurableAppendError>(reported(error)),
            },
    {
        if self.noop {
            return Err(
                DurableAppendError::NotCommitted(
                    IoError::new(
                        ErrorKind::Unsupported,
                        "durable session update append is unsupported by a no-op persistence handle",
                    ),
                ),
            );
        }
        match reply {
            Reply::NotSent => Err(
                DurableAppendError::NotCommitted(
                    IoError::new(
                        ErrorKind::BrokenPipe,
                        "session persistence actor stopped before durable append dispatch",
                    ),
                ),
            ),
            Reply::Lost => Err(
                DurableAppendError::AcknowledgementLost(
                    IoError::new(
                        ErrorKind::BrokenPipe,
                        "session persistence actor stopped before durable append acknowledgement",
                    ),
                ),
            ),
            Reply::Answer(Ok(_)) => Ok(()),
            Reply::Answer(Err(error)) => Err(DurableAppendError::from(error)),
        }
    }

    /// What a caller is told who asked for a fresh session to be published.
    pub fn publish_fresh(reply: Reply<Result<(), IoError>>) -> (r: Result<(), IoError>)
        ensures
            match reply {
                Reply::NotSent => r matches Err(e) && e.says(
                    ErrorKind::BrokenPipe,
                    "session persistence actor stopped before provisional publication"@,
                ),
                Reply::Lost => r matches Err(e) && e.says(
                    ErrorKind::BrokenPipe,
                    "session persistence actor stopped before provisional publication acknowledgement"@,
                ),
                Reply::Answer(answer) => r == answer,
            },
    {
        match reply {
            Reply::NotSent => Err(
                IoError::new(
                    ErrorKind::BrokenPipe,
                    "session persistence actor stopped before provisional publication",
                ),
            ),
            Reply::Lost => Err(
                IoError::new(
                    ErrorKind::BrokenPipe,
                    "session persistence actor stopped before provisional publication acknowledgement",
                ),
            ),
            Reply::Answer(answer) => answer,
        }
    }

    /// What a caller is told who asked for a fresh session to be aborted.
    pub fn abort_fresh_and_delete(reply: Reply<Result<(), IoError>>) -> (r: Result<(), IoError>)
        ensures
            match reply {
                Reply::NotSent => r matches Err(e) && e.says(
                    ErrorKind::BrokenPipe,
                    "session persistence actor stopped before provisional abort"@,
                ),
                Reply::Lost => r matches Err(e) && e.says(
                    ErrorKind::BrokenPipe,
                    "session persistence actor stopped before provisional abort acknowledgement"@,
                ),
                Reply::Answer(answer) => r == answer,
            },
    {
        match reply {
            Reply::NotSent => Err(
                IoError::new(
                    ErrorKind::BrokenPipe,
                    "session persistence actor stopped before provisional abort",
                ),
            ),
            Reply::Lost => Err(
                IoError::new(
                    ErrorKind::BrokenPipe,
                    "session persistence actor stopped before provisional abort acknowledgement",
                ),
            ),
            Reply::Answer(answer) => answer,
        }
    }
}

} // verus!
