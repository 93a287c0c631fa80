//! Who may be at a session, and what becomes of one that is written.

use vstd::prelude::*;

use crate::io_error::{client_text, disk_full, DiskFullCodes, ErrorKind, IoError};
use crate::lease::{
    access_after, claim_after, compatible, lease_after, Access, AccessStep, CanonicalSessionClaim,
    ClaimEvent, ClaimStep, LeaseStep, LeaseTransition, LockMode, SessionIdLock,
};
use crate::publish::Publication;
use crate::writer::{removes_stage, settled, PublishedSessionWrite, WriterStage};

verus! {

/// How the world answers whoever wants to get at a session.
pub struct AccessWorld<D> {
    pub locked: Result<(), IoError>,
    pub reclaimed: Result<(), IoError>,
    pub found: Result<Option<D>, IoError>,
}

pub open spec fn access_answer<D>(w: AccessWorld<D>, step: AccessStep<D>) -> ClaimEvent<D> {
    match step {
        AccessStep::Lock(_) => ClaimEvent::Done(w.locked),
        AccessStep::ReclaimStages => ClaimEvent::Done(w.reclaimed),
        _ => ClaimEvent::Resolved(w.found),
    }
}

/// A reader gets the session with shared locks; nothing, where there is none;
/// and a failure to lock or to look is its own.
pub proof fn reader_gets_what_is_there<D>(w: AccessWorld<D>)
    ensures
        ({
            let start = AccessStep::Lock(LockMode::Shared);
            let locked = access_after(start, access_answer(w, start));
            match w.locked {
                Err(e) => locked == AccessStep::<D>::Finished(Err(e)),
                Ok(_) => {
                    &&& locked is Resolve
                    &&& access_after(locked, access_answer(w, locked)) == AccessStep::Finished(
                        match w.found {
                            Err(e) => Err(e),
                            Ok(None) => Ok(None),
                            Ok(Some(dir)) => Ok(
                                Some(
                                    Access {
                                        lock: SessionIdLock {
                                            namespace: Some(LockMode::Shared),
                                            mutation: Some(LockMode::Shared),
                                        },
                                        dir: Some(dir),
                                    },
                                ),
                            ),
                        },
                    )
                },
            }
        }),
{
}

/// A writer gets exclusive locks, whether or not there is a session, once what
/// was abandoned is cleared away; any failure on the way is its own.
pub proof fn writer_has_the_session_alone<D>(w: AccessWorld<D>)
    ensures
        ({
            let start = AccessStep::Lock(LockMode::Exclusive);
            let locked = access_after(start, access_answer(w, start));
            match w.locked {
                Err(e) => locked == AccessStep::<D>::Finished(Err(e)),
                Ok(_) => {
                    let cleared = access_after(locked, access_answer(w, locked));
                    &&& locked is ReclaimStages
                    &&& match w.reclaimed {
                        Err(e) => cleared == AccessStep::<D>::Finished(Err(e)),
                        Ok(_) => {
                            &&& cleared is Resolve
                            &&& access_after(cleared, access_answer(w, cleared))
                                == AccessStep::Finished(
                                match w.found {
                                    Err(e) => Err(e),
                                    Ok(dir) => Ok(
                                        Some(
                                            Access {
                                                lock: SessionIdLock {
                                                    namespace: Some(LockMode::Exclusive),
                                                    mutation: Some(LockMode::Exclusive),
                                                },
                                                dir,
                                            },
                                        ),
                                    ),
                                },
                            )
                        },
                    }
                },
            }
        }),
{
}

/// How the world answers a claim.
pub struct ClaimWorld<D> {
    pub namespace: Result<(), IoError>,
    pub found: Result<Option<D>, IoError>,
    pub mutation: Result<(), IoError>,
    pub released: Result<(), IoError>,
}

pub open spec fn claim_answer<D>(w: ClaimWorld<D>, step: ClaimStep<D>) -> ClaimEvent<D> {
    match step {
        ClaimStep::LockNamespace => ClaimEvent::Done(w.namespace),
        ClaimStep::Resolve => ClaimEvent::Resolved(w.found),
        ClaimStep::ShareMutation { .. } => ClaimEvent::Done(w.mutation),
        ClaimStep::LockMutation => ClaimEvent::Done(w.mutation),
        ClaimStep::UnlockNamespace { .. } => ClaimEvent::Done(w.released),
        ClaimStep::Finished(_) => ClaimEvent::Done(Ok(())),
    }
}

/// Where a claim is after `n` steps.
pub open spec fn claim_run<D>(w: ClaimWorld<D>, n: nat) -> ClaimStep<D>
    decreases n,
{
    if n == 0 {
        ClaimStep::LockNamespace
    } else {
        let step = claim_run(w, (n - 1) as nat);
        claim_after(step, claim_answer(w, step))
    }
}

/// What a claim comes to: a session that is there, under a lock that others can
/// share while it is loaded; where there is none, the id for the claimant alone;
/// or the first failure.
pub proof fn claim_finds_or_reserves<D>(w: ClaimWorld<D>)
    ensures
        claim_run(w, 4) == ClaimStep::Finished(
            match (w.namespace, w.found) {
                (Err(e), _) => Err(e),
                (Ok(_), Err(e)) => Err(e),
                (Ok(_), Ok(None)) => match w.mutation {
                    Err(e) => Err(e),
                    Ok(_) => Ok(
                        CanonicalSessionClaim::Vacant {
                            lock: SessionIdLock {
                                namespace: Some(LockMode::Exclusive),
                                mutation: Some(LockMode::Exclusive),
                            },
                        },
                    ),
                },
                (Ok(_), Ok(Some(dir))) => match (w.mutation, w.released) {
                    (Err(e), _) => Err(e),
                    (Ok(_), Err(e)) => Err(e),
                    (Ok(_), Ok(_)) => Ok(
                        CanonicalSessionClaim::Existing {
                            dir,
                            lock: SessionIdLock {
                                namespace: None,
                                mutation: Some(LockMode::Shared),
                            },
                        },
                    ),
                },
            },
        ),
{
    reveal_with_fuel(claim_run, 5);
}

/// What a passage from exclusive locks comes to: the mutation lock is shared
/// before the namespace is given up, and a passage that failed has given up only
/// what it had come to.
pub proof fn passage_keeps_others_out(
    unlocked: Result<(), IoError>,
    shared: Result<(), IoError>,
    released: Result<(), IoError>,
)
    ensures
        ({
            let t = LeaseTransition {
                lock: SessionIdLock {
                    namespace: Some(LockMode::Exclusive),
                    mutation: Some(LockMode::Exclusive),
                },
                step: LeaseStep::UnlockMutation,
            };
            let a = lease_after(t, unlocked);
            let b = lease_after(a, shared);
            let c = lease_after(b, released);
            match (unlocked, shared, released) {
                (Err(e), _, _) => a.step == LeaseStep::Finished(Err(e)) && a.lock == t.lock,
                (Ok(_), Err(e), _) => {
                    &&& b.step == LeaseStep::Finished(Err(e))
                    &&& b.lock.namespace == Some(LockMode::Exclusive) && b.lock.mutation is None
                },
                (Ok(_), Ok(_), Err(e)) => {
                    &&& c.step == LeaseStep::Finished(Err(e))
                    &&& c.lock.namespace == Some(LockMode::Exclusive) && c.lock.mutation == Some(
                        LockMode::Shared,
                    )
                },
                (Ok(_), Ok(_), Ok(_)) => {
                    &&& c.step == LeaseStep::Finished(Ok(()))
                    &&& c.lock.namespace is None && c.lock.mutation == Some(LockMode::Shared)
                },
            }
        }),
{
}

/// A writer whose publication took effect has the session published where its
/// stage was to go, and no stage any more; otherwise it is as it was but for the
/// handles that the publication has given up. What it locked stays locked.
pub proof fn publication_settles_the_writer<D>(
    w: PublishedSessionWrite<D>,
    stage: WriterStage<D>,
    p: Publication,
)
    ensures
        ({
            let r = settled(w, stage, p);
            &&& r.lock == w.lock
            &&& p.committed ==> r.published_dir == Some(stage.target) && r.stage is None
                && !removes_stage(r)
            &&& !p.committed ==> {
                &&& r.published_dir == w.published_dir
                &&& r.stage is Some
                &&& r.stage->0.target == stage.target
                &&& r.stage->0.parent_name == stage.parent_name
                &&& r.stage->0.session_held == p.session_held
                &&& r.stage->0.container_held == p.container_held
                &&& removes_stage(r) == p.container_held
            }
        }),
{
}

/// A failure is that of a full disk if the system says so, by its kind or by one
/// of the codes that the platform has for it; a code that the platform does not
/// have says nothing.
pub proof fn full_disk_is_told_by_kind_or_code(e: IoError, codes: DiskFullCodes)
    ensures
        e.kind == ErrorKind::StorageFull ==> disk_full(e, codes),
        e.raw_os_error matches Some(code) ==> {
            &&& codes.no_space == Some(code) ==> disk_full(e, codes)
            &&& codes.quota == Some(code) ==> disk_full(e, codes)
            &&& codes.no_space != Some(code) && codes.quota != Some(code) && e.kind
                != ErrorKind::StorageFull ==> !disk_full(e, codes)
        },
        e.raw_os_error is None && e.kind != ErrorKind::StorageFull ==> !disk_full(e, codes),
{
}

/// A client is told of a full disk whatever the kind of the failure is; else
/// what is missing is told apart from what is forbidden, and both from the rest.
pub proof fn client_is_told_what_failed(kind: ErrorKind, full: bool)
    ensures
        client_text(kind, full).1 == if full {
            "FS_DISK_QUOTA_EXCEEDED"@
        } else {
            match kind {
                ErrorKind::NotFound => "FS_NOT_FOUND"@,
                ErrorKind::PermissionDenied => "FS_PERMISSION_DENIED"@,
                _ => "FS_OTHER"@,
            }
        },
        full ==> client_text(kind, full).0 == "No space left on device"@,
        !full && kind == ErrorKind::NotFound ==> client_text(kind, full).0 == "Path not found."@,
        !full && kind == ErrorKind::PermissionDenied ==> client_text(kind, full).0
            == "Permission denied."@,
        !full && kind != ErrorKind::NotFound && kind != ErrorKind::PermissionDenied ==> client_text(
            kind,
            full,
        ).0 == "An unexpected I/O error occurred."@,
{
}

pub open spec fn shared_if_held(lock: Option<LockMode>) -> bool {
    lock is None || lock == Some(LockMode::Shared)
}

/// Two processes are at a session together only if what both hold they share:
/// whoever holds a lock alone keeps everyone out who wants it.
pub proof fn held_alone_is_held_by_nobody_else(a: SessionIdLock, b: SessionIdLock)
    ensures
        a.namespace == Some(LockMode::Exclusive) && b.namespace is Some ==> !compatible(a, b),
        a.mutation == Some(LockMode::Exclusive) && b.mutation is Some ==> !compatible(a, b),
        compatible(a, b) == compatible(b, a),
        shared_if_held(a.namespace) && shared_if_held(b.namespace) && shared_if_held(a.mutation)
            && shared_if_held(b.mutation) ==> compatible(a, b),
{
}

} // verus!
