//! Exclusive access to one session id, for import and repair.
//!
//! A writer finds the session published, or stages a new one in private and
//! publishes it. Whatever it has not published goes when the writer does.

use vstd::prelude::*;

use crate::io_error::{ErrorKind, IoError};
use crate::lease::{Access, SessionIdLock};
use crate::publish::{FinalizeError, Publication, PublishStep};

verus! {

/// A staged session: where it goes, and the handles that are held of it.
#[derive(Debug)]
pub struct WriterStage<D> {
    pub parent_name: String,
    pub target: D,
    pub session_held: bool,
    pub container_held: bool,
}

/// A writer. `D` names a session directory.
#[derive(Debug)]
pub struct PublishedSessionWrite<D> {
    pub lock: SessionIdLock,
    pub published_dir: Option<D>,
    pub stage: Option<WriterStage<D>>,
}

/// What a writer makes of the end of a publication: a session that is public
/// leaves no stage, and any other one leaves it with the handles that are left.
pub open spec fn settled<D>(
    w: PublishedSessionWrite<D>,
    stage: WriterStage<D>,
    p: Publication,
) -> PublishedSessionWrite<D> {
    if p.committed {
        PublishedSessionWrite { published_dir: Some(stage.target), stage: None, ..w }
    } else {
        PublishedSessionWrite {
            stage: Some(
                WriterStage {
                    session_held: p.session_held,
                    container_held: p.container_held,
                    ..stage
                },
            ),
            ..w
        }
    }
}

/// Whether dropping a writer removes what it has staged.
pub open spec fn removes_stage<D>(w: PublishedSessionWrite<D>) -> bool {
    w.stage matches Some(stage) && stage.container_held
}

impl<D> PublishedSessionWrite<D> {
    /// A writer that has staged nothing yet.
    pub fn over(access: Access<D>) -> (r: PublishedSessionWrite<D>)
        ensures
            r.lock == access.lock,
            r.published_dir == access.dir,
            r.stage is None,
    {
        PublishedSessionWrite { lock: access.lock, published_dir: access.dir, stage: None }
    }

    /// Whether the session is published, or staged already.
    pub fn is_busy(&self) -> (r: bool)
        ensures
            r == (self.published_dir is Some || self.stage is Some),
    {
        self.published_dir.is_some() || self.stage.is_some()
    }

    /// Keeps a stage that was just built, with both of its handles.
    pub fn staged(self, parent_name: String, target: D) -> (r: PublishedSessionWrite<D>)
        requires
            self.stage is None,
        ensures
            r == (PublishedSessionWrite {
                stage: Some(
                    WriterStage { parent_name, target, session_held: true, container_held: true },
                ),
                ..self
            }),
    {
        let mut w = self;
        w.stage = Some(
            WriterStage { parent_name, target, session_held: true, container_held: true },
        );
        w
    }

    /// Begins to publish what is staged.
    pub fn publish_new(&self) -> (r: Result<Publication, IoError>)
        ensures
            match self.stage {
                None => r matches Err(e) && e.says(
                    ErrorKind::NotFound,
                    "no private staged session to publish"@,
                ),
                Some(stage) => r matches Ok(p) && p.wf() && !p.committed && p.step is ReadSummary
                    && p.parent_name == stage.parent_name && p.session_held == stage.session_held
                    && p.container_held == stage.container_held,
            },
    {
        match &self.stage {
            None => Err(
                IoError::new(ErrorKind::NotFound, "no private staged session to publish"),
            ),
            Some(stage) => Ok(
                Publication::begin(
                    stage.parent_name.clone(),
                    stage.session_held,
                    stage.container_held,
                ),
            ),
        }
    }

    /// Takes in the end of a publication.
    pub fn published(self, p: &Publication) -> (r: PublishedSessionWrite<D>)
        requires
            self.stage is Some,
            p.wf(),
            p.step is Finished,
        ensures
            r == settled(self, self.stage->0, *p),
    {
        let mut w = self;
        match w.stage {
            Some(stage) => if p.committed {
                w.published_dir = Some(stage.target);
                w.stage = None;
            } else {
                w.stage = Some(
                    WriterStage {
                        parent_name: stage.parent_name,
                        target: stage.target,
                        session_held: p.session_held,
                        container_held: p.container_held,
                    },
                );
            },
            None => {
                w.stage = None;
            },
        }
        w
    }

    /// Whether dropping the writer removes what it has staged.
    pub fn reclaims_on_drop(&self) -> (r: bool)
        ensures
            r == removes_stage(*self),
    {
        match &self.stage {
            Some(stage) => stage.container_held,
            None => false,
        }
    }

    /// Turns the writer into a reader for the session's lifetime, once the
    /// passage of its locks has ended in `lock` with `result`. There is nothing
    /// to read where nothing was published.
    pub fn into_lifetime_read(self, lock: SessionIdLock, result: Result<(), IoError>) -> (r: Result<
        (D, SessionIdLock),
        IoError,
    >)
        ensures
            match (self.published_dir, result) {
                (None, _) => r matches Err(e) && e.says(
                    ErrorKind::NotFound,
                    "session was not published"@,
                ),
                (Some(dir), Ok(_)) => r == Ok::<(D, SessionIdLock), IoError>((dir, lock)),
                (Some(_), Err(e)) => r == Err::<(D, SessionIdLock), IoError>(e),
            },
    {
        match self.published_dir {
            None => Err(IoError::new(ErrorKind::NotFound, "session was not published")),
            Some(dir) => match result {
                Ok(_) => Ok((dir, lock)),
                Err(e) => Err(e),
            },
        }
    }
}

/// A writer whose publication took effect removes nothing when it is dropped,
/// whatever else failed; one whose publication did not take effect while its
/// container was held removes it.
pub proof fn drop_spares_public_sessions<D>(
    w: PublishedSessionWrite<D>,
    stage: WriterStage<D>,
    p: Publication,
)
    requires
        p.wf(),
        p.step is Finished,
    ensures
        !(p.step matches PublishStep::Finished(Err(FinalizeError::NotCommitted(_)))) ==> {
            &&& !removes_stage(settled(w, stage, p))
            &&& settled(w, stage, p).published_dir == Some(stage.target)
        },
        p.step matches PublishStep::Finished(Err(FinalizeError::NotCommitted(_))) ==> {
            &&& removes_stage(settled(w, stage, p)) <==> p.container_held
            &&& settled(w, stage, p).published_dir == w.published_dir
        },
{
}

} // verus!
