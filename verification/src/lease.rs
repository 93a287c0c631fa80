//! Locks on a session id and their passage from exclusive creation to shared
//! use.
//!
//! Each session id has two lock files: the namespace lock guards its place in
//! the public namespace, the mutation lock its content.

use vstd::prelude::*;

use crate::io_error::{ErrorKind, IoError};

verus! {

#[derive(Debug, Clone, Copy, PartialEq, Eq, Structural)]
pub enum LockMode {
    Shared,
    Exclusive,
}

/// The locks held on one session id.
#[derive(Debug, Clone, Copy, PartialEq, Eq, Structural)]
pub struct SessionIdLock {
    pub namespace: Option<LockMode>,
    pub mutation: Option<LockMode>,
}

/// The locks of a creator or a deleter: nobody else has any.
pub open spec fn exclusive() -> SessionIdLock {
    SessionIdLock {
        namespace: Some(LockMode::Exclusive),
        mutation: Some(LockMode::Exclusive),
    }
}

/// The lock of a loaded session for its lifetime.
pub open spec fn lifetime_shared() -> SessionIdLock {
    SessionIdLock { namespace: None, mutation: Some(LockMode::Shared) }
}

/// Whether two processes can hold these locks on one session id at a time.
pub open spec fn compatible(a: SessionIdLock, b: SessionIdLock) -> bool {
    &&& a.namespace is Some && b.namespace is Some ==> a.namespace == Some(LockMode::Shared)
        && b.namespace == Some(LockMode::Shared)
    &&& a.mutation is Some && b.mutation is Some ==> a.mutation == Some(LockMode::Shared)
        && b.mutation == Some(LockMode::Shared)
}

/// What the driver does next to turn exclusive locks into the lifetime lock.
#[derive(Debug)]
pub enum LeaseStep {
    UnlockMutation,
    ShareMutation,
    UnlockNamespace,
    Finished(Result<(), IoError>),
}

/// The passage from exclusive locks to the lifetime lock.
#[derive(Debug)]
pub struct LeaseTransition {
    pub lock: SessionIdLock,
    pub step: LeaseStep,
}

/// What the end of a step makes of the passage: the mutation lock is given up
/// and taken again shared, and only then is the namespace given up.
pub open spec fn lease_after(t: LeaseTransition, result: Result<(), IoError>) -> LeaseTransition {
    match (t.step, result) {
        (LeaseStep::UnlockMutation, Ok(_)) => LeaseTransition {
            lock: SessionIdLock { mutation: None, ..t.lock },
            step: LeaseStep::ShareMutation,
        },
        (LeaseStep::ShareMutation, Ok(_)) => LeaseTransition {
            lock: SessionIdLock { mutation: Some(LockMode::Shared), ..t.lock },
            step: if t.lock.namespace is Some {
                LeaseStep::UnlockNamespace
            } else {
                LeaseStep::Finished(Ok(()))
            },
        },
        (LeaseStep::UnlockNamespace, Ok(_)) => LeaseTransition {
            lock: SessionIdLock { namespace: None, ..t.lock },
            step: LeaseStep::Finished(Ok(())),
        },
        (_, Err(e)) => LeaseTransition { lock: t.lock, step: LeaseStep::Finished(Err(e)) },
        _ => t,
    }
}

impl LeaseTransition {
    /// The passage from locks that are held.
    pub fn begin(lock: SessionIdLock) -> (r: LeaseTransition)
        ensures
            r.lock == lock,
            r.step is UnlockMutation,
    {
        LeaseTransition { lock, step: LeaseStep::UnlockMutation }
    }

    /// Takes in the end of a step.
    pub fn step(self, result: Result<(), IoError>) -> (r: LeaseTransition)
        ensures
            r == lease_after(self, result),
    {
        let mut t = self;
        match result {
            Err(e) => {
                t.step = LeaseStep::Finished(Err(e));
            },
            Ok(_) => match t.step {
                LeaseStep::UnlockMutation => {
                    t.lock.mutation = None;
                    t.step = LeaseStep::ShareMutation;
                },
                LeaseStep::ShareMutation => {
                    t.lock.mutation = Some(LockMode::Shared);
                    t.step = if t.lock.namespace.is_some() {
                        LeaseStep::UnlockNamespace
                    } else {
                        LeaseStep::Finished(Ok(()))
                    };
                },
                LeaseStep::UnlockNamespace => {
                    t.lock.namespace = None;
                    t.step = LeaseStep::Finished(Ok(()));
                },
                step => {
                    t.step = step;
                },
            },
        }
        t
    }
}

/// The namespace stays locked exclusively through the passage and on each of
/// its failures; only the end of a passage that succeeded gives it up.
pub proof fn namespace_held_until_success(t: LeaseTransition, result: Result<(), IoError>)
    requires
        t.lock.namespace == Some(LockMode::Exclusive),
    ensures
        lease_after(t, result).lock.namespace == Some(LockMode::Exclusive) || (lease_after(
            t,
            result,
        ).step == LeaseStep::Finished(Ok(())) && lease_after(t, result).lock.namespace is None),
        result is Err ==> lease_after(t, result).lock.namespace == Some(LockMode::Exclusive),
{
}

/// A passage that succeeds leaves the lifetime lock.
pub proof fn passage_leaves_lifetime_lock(t: LeaseTransition)
    requires
        t.lock == exclusive(),
        t.step is UnlockMutation,
    ensures
        ({
            let end = lease_after(lease_after(lease_after(t, Ok(())), Ok(())), Ok(()));
            end.lock == lifetime_shared() && end.step == LeaseStep::Finished(Ok(()))
        }),
{
}

/// A namespace that one process holds exclusively is held by no other.
pub proof fn exclusive_namespace_excludes(a: SessionIdLock, b: SessionIdLock)
    requires
        a.namespace == Some(LockMode::Exclusive),
        compatible(a, b),
    ensures
        b.namespace is None,
{
}

/// A fresh session's claim: its locks, and whether dropping it reclaims its
/// private stage.
#[derive(Debug)]
pub struct FreshSessionClaim {
    pub lock: SessionIdLock,
    pub cleanup_armed: bool,
}

/// A claim whose passage to a lease failed, with the claim kept.
#[derive(Debug)]
pub struct FreshLeaseTransitionError {
    pub error: IoError,
    pub claim: FreshSessionClaim,
}

impl FreshSessionClaim {
    /// Leaves the stage to whoever comes next.
    pub fn disarm(self) -> (r: FreshSessionClaim)
        ensures
            r == (FreshSessionClaim { cleanup_armed: false, ..self }),
    {
        FreshSessionClaim { lock: self.lock, cleanup_armed: false }
    }

    /// Turns the claim into a lease once the passage of its locks has ended in
    /// `lock` with `result`; on failure the whole claim comes back.
    pub fn into_published_lease(self, lock: SessionIdLock, result: Result<(), IoError>) -> (r: Result<
        SessionIdLock,
        FreshLeaseTransitionError,
    >)
        ensures
            r is Ok <==> result is Ok,
            r matches Ok(lease) ==> lease == lock,
            r matches Err(failure) ==> {
                &&& result == Err::<(), IoError>(failure.error)
                &&& failure.claim.lock == lock
                &&& failure.claim.cleanup_armed == self.cleanup_armed
            },
    {
        match result {
            Ok(_) => Ok(lock),
            Err(error) => Err(
                FreshLeaseTransitionError {
                    error,
                    claim: FreshSessionClaim { lock, cleanup_armed: self.cleanup_armed },
                },
            ),
        }
    }
}

/// How a try to take one lock ended.
#[derive(Debug)]
pub enum TryLock {
    Taken,
    WouldBlock,
    Failed(IoError),
}

/// How a try to take both locks shared ends: nothing where either would have
/// to wait. The mutation lock is tried only once the namespace lock is taken.
pub fn try_acquire_session_id_read_lock(namespace: TryLock, mutation: TryLock) -> (r: Result<
    Option<SessionIdLock>,
    IoError,
>)
    ensures
        r == (match (namespace, mutation) {
            (TryLock::Failed(e), _) => Err(e),
            (TryLock::WouldBlock, _) => Ok(None),
            (TryLock::Taken, TryLock::Failed(e)) => Err(e),
            (TryLock::Taken, TryLock::WouldBlock) => Ok(None),
            (TryLock::Taken, TryLock::Taken) => Ok(
                Some(
                    SessionIdLock {
                        namespace: Some(LockMode::Shared),
                        mutation: Some(LockMode::Shared),
                    },
                ),
            ),
        }),
{
    match namespace {
        TryLock::Failed(e) => Err(e),
        TryLock::WouldBlock => Ok(None),
        TryLock::Taken => match mutation {
            TryLock::Failed(e) => Err(e),
            TryLock::WouldBlock => Ok(None),
            TryLock::Taken => Ok(
                Some(
                    SessionIdLock {
                        namespace: Some(LockMode::Shared),
                        mutation: Some(LockMode::Shared),
                    },
                ),
            ),
        },
    }
}

/// What is left of a shared lock once the namespace was given up with `unlock`;
/// it is given up only if it is held.
pub fn retain_lifetime_shared(lock: SessionIdLock, unlock: Result<(), IoError>) -> (r: Result<
    SessionIdLock,
    IoError,
>)
    ensures
        lock.namespace is None ==> r == Ok::<SessionIdLock, IoError>(lock),
        lock.namespace is Some ==> match unlock {
            Ok(_) => r == Ok::<SessionIdLock, IoError>(
                SessionIdLock { namespace: None, mutation: lock.mutation },
            ),
            Err(e) => r == Err::<SessionIdLock, IoError>(e),
        },
{
    if lock.namespace.is_none() {
        return Ok(lock);
    }
    match unlock {
        Ok(_) => Ok(SessionIdLock { namespace: None, mutation: lock.mutation }),
        Err(e) => Err(e),
    }
}

/// The directory that holds the locks: the parent of the sessions root.
pub fn session_id_lock_root_for_sessions_root(parent: Option<String>) -> (r: Result<
    String,
    IoError,
>)
    ensures
        match parent {
            Some(parent) => r == Ok::<String, IoError>(parent),
            None => r matches Err(e) && e.says(
                ErrorKind::InvalidInput,
                "sessions root must have a grok-home parent"@,
            ),
        },
{
    match parent {
        Some(parent) => Ok(parent),
        None => Err(
            IoError::new(ErrorKind::InvalidInput, "sessions root must have a grok-home parent"),
        ),
    }
}

// Access to a published session.

/// A session id locked for reading or writing, and the session if there is one.
/// `D` names a session directory.
#[derive(Debug)]
pub struct Access<D> {
    pub lock: SessionIdLock,
    pub dir: Option<D>,
}

/// What the driver does next to get at a session.
#[derive(Debug)]
pub enum AccessStep<D> {
    /// Lock the namespace, then the mutation lock, both in this mode.
    Lock(LockMode),
    /// Remove what abandoned creators of the session have left.
    ReclaimStages,
    /// Look for the published session.
    Resolve(LockMode),
    Finished(Result<Option<Access<D>>, IoError>),
}

/// Whether `event` is what the step can lead to.
pub open spec fn access_fits<D>(step: AccessStep<D>, event: ClaimEvent<D>) -> bool {
    match step {
        AccessStep::Resolve(_) => event is Resolved,
        AccessStep::Finished(_) => false,
        _ => event is Done,
    }
}

/// What one event makes of getting at a session. A reader gets nothing where
/// there is no session; a writer gets the locks, and first clears what was
/// abandoned.
pub open spec fn access_after<D>(step: AccessStep<D>, event: ClaimEvent<D>) -> AccessStep<D> {
    match (step, event) {
        (_, ClaimEvent::Done(Err(e))) => AccessStep::Finished(Err(e)),
        (_, ClaimEvent::Resolved(Err(e))) => AccessStep::Finished(Err(e)),
        (AccessStep::Lock(LockMode::Shared), ClaimEvent::Done(Ok(_))) => AccessStep::Resolve(
            LockMode::Shared,
        ),
        (AccessStep::Lock(LockMode::Exclusive), ClaimEvent::Done(Ok(_))) =>
            AccessStep::ReclaimStages,
        (AccessStep::ReclaimStages, ClaimEvent::Done(Ok(_))) => AccessStep::Resolve(
            LockMode::Exclusive,
        ),
        (AccessStep::Resolve(mode), ClaimEvent::Resolved(Ok(found))) => if mode == LockMode::Shared
            && found is None {
            AccessStep::Finished(Ok(None))
        } else {
            AccessStep::Finished(
                Ok(
                    Some(
                        Access {
                            lock: SessionIdLock { namespace: Some(mode), mutation: Some(mode) },
                            dir: found,
                        },
                    ),
                ),
            )
        },
        (step, _) => step,
    }
}

/// Takes in what happened while a session is got at.
pub fn advance_access<D>(step: AccessStep<D>, event: ClaimEvent<D>) -> (r: AccessStep<D>)
    requires
        access_fits(step, event),
    ensures
        r == access_after(step, event),
{
    match (step, event) {
        (_, ClaimEvent::Done(Err(e))) => AccessStep::Finished(Err(e)),
        (_, ClaimEvent::Resolved(Err(e))) => AccessStep::Finished(Err(e)),
        (AccessStep::Lock(LockMode::Shared), ClaimEvent::Done(Ok(_))) => AccessStep::Resolve(
            LockMode::Shared,
        ),
        (AccessStep::Lock(LockMode::Exclusive), ClaimEvent::Done(Ok(_))) =>
            AccessStep::ReclaimStages,
        (AccessStep::ReclaimStages, ClaimEvent::Done(Ok(_))) => AccessStep::Resolve(
            LockMode::Exclusive,
        ),
        (AccessStep::Resolve(mode), ClaimEvent::Resolved(Ok(found))) => if mode == LockMode::Shared
            && found.is_none() {
            AccessStep::Finished(Ok(None))
        } else {
            AccessStep::Finished(
                Ok(
                    Some(
                        Access {
                            lock: SessionIdLock { namespace: Some(mode), mutation: Some(mode) },
                            dir: found,
                        },
                    ),
                ),
            )
        },
        (step, _) => step,
    }
}

// The canonical claim: whoever comes to a session id finds it published, or
// holds it exclusively.

/// A claim on a session id. `D` names a session directory.
#[derive(Debug)]
pub enum CanonicalSessionClaim<D> {
    /// The session is published; it can be read under a lifetime lock.
    Existing { dir: D, lock: SessionIdLock },
    /// There is no such session; the claimant may publish one.
    Vacant { lock: SessionIdLock },
}

/// What the driver does next to claim a session id.
#[derive(Debug)]
pub enum ClaimStep<D> {
    LockNamespace,
    /// Look for the published session.
    Resolve,
    ShareMutation { dir: D },
    UnlockNamespace { dir: D },
    LockMutation,
    Finished(Result<CanonicalSessionClaim<D>, IoError>),
}

/// What happened.
#[derive(Debug)]
pub enum ClaimEvent<D> {
    Done(Result<(), IoError>),
    Resolved(Result<Option<D>, IoError>),
}

/// What one event makes of a claim.
pub open spec fn claim_after<D>(step: ClaimStep<D>, event: ClaimEvent<D>) -> ClaimStep<D> {
    match (step, event) {
        (_, ClaimEvent::Done(Err(e))) => ClaimStep::Finished(Err(e)),
        (_, ClaimEvent::Resolved(Err(e))) => ClaimStep::Finished(Err(e)),
        (ClaimStep::LockNamespace, ClaimEvent::Done(Ok(_))) => ClaimStep::Resolve,
        (ClaimStep::Resolve, ClaimEvent::Resolved(Ok(found))) => match found {
            Some(dir) => ClaimStep::ShareMutation { dir },
            None => ClaimStep::LockMutation,
        },
        (ClaimStep::ShareMutation { dir }, ClaimEvent::Done(Ok(_))) => ClaimStep::UnlockNamespace {
            dir,
        },
        (ClaimStep::UnlockNamespace { dir }, ClaimEvent::Done(Ok(_))) => ClaimStep::Finished(
            Ok(CanonicalSessionClaim::Existing { dir, lock: lifetime_shared() }),
        ),
        (ClaimStep::LockMutation, ClaimEvent::Done(Ok(_))) => ClaimStep::Finished(
            Ok(CanonicalSessionClaim::Vacant { lock: exclusive() }),
        ),
        (step, _) => step,
    }
}

/// Whether `event` is what the step can lead to.
pub open spec fn claim_fits<D>(step: ClaimStep<D>, event: ClaimEvent<D>) -> bool {
    match step {
        ClaimStep::Resolve => event is Resolved,
        ClaimStep::Finished(_) => false,
        _ => event is Done,
    }
}

/// Takes in what happened while a session id is claimed.
pub fn advance_canonical_claim<D>(step: ClaimStep<D>, event: ClaimEvent<D>) -> (r: ClaimStep<D>)
    requires
        claim_fits(step, event),
    ensures
        r == claim_after(step, event),
{
    match (step, event) {
        (_, ClaimEvent::Done(Err(e))) => ClaimStep::Finished(Err(e)),
        (_, ClaimEvent::Resolved(Err(e))) => ClaimStep::Finished(Err(e)),
        (ClaimStep::LockNamespace, ClaimEvent::Done(Ok(_))) => ClaimStep::Resolve,
        (ClaimStep::Resolve, ClaimEvent::Resolved(Ok(found))) => match found {
            Some(dir) => ClaimStep::ShareMutation { dir },
            None => ClaimStep::LockMutation,
        },
        (ClaimStep::ShareMutation { dir }, ClaimEvent::Done(Ok(_))) => ClaimStep::UnlockNamespace {
            dir,
        },
        (ClaimStep::UnlockNamespace { dir }, ClaimEvent::Done(Ok(_))) => ClaimStep::Finished(
            Ok(
                CanonicalSessionClaim::Existing {
                    dir,
                    lock: SessionIdLock { namespace: None, mutation: Some(LockMode::Shared) },
                },
            ),
        ),
        (ClaimStep::LockMutation, ClaimEvent::Done(Ok(_))) => ClaimStep::Finished(
            Ok(
                CanonicalSessionClaim::Vacant {
                    lock: SessionIdLock {
                        namespace: Some(LockMode::Exclusive),
                        mutation: Some(LockMode::Exclusive),
                    },
                },
            ),
        ),
        (step, _) => step,
    }
}

/// Two claimants of one session id cannot both find it vacant at a time.
pub proof fn at_most_one_vacant_claim<D>(a: CanonicalSessionClaim<D>, b: CanonicalSessionClaim<D>)
    requires
        a matches CanonicalSessionClaim::Vacant { lock: la } && la == exclusive(),
        b matches CanonicalSessionClaim::Vacant { lock: lb } && lb == exclusive(),
    ensures
        !compatible(a->Vacant_lock, b->Vacant_lock),
{
}

} // verus!
