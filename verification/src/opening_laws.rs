//! What opening, fetching, making and deleting a session come to as a whole.
//!
//! Each law lets a driver answer every step with an outcome that is fixed
//! beforehand, and says what the outcomes amount to.

use vstd::prelude::*;

use crate::deletion::{
    delete_after, BackendError, DeleteEvent, DeleteSessionError, DeleteStep, SessionDeletion,
};
use crate::gate::{decided_by, GateCall, PublicationState};
use crate::io_error::{ErrorKind, IoError};
use crate::lease::SessionIdLock;
use crate::load::{
    load_after, Create, CreateEvent, CreateStep, LoadEvent, LoadStep, Loaded,
};
use crate::publish::FinalizeError;
use crate::pull::{
    pull_after, PullError, PullEvent, PullFault, PullStep, PulledSession,
};
use crate::summary::{Info, Summary};

verus! {

// Loading.

/// How the world answers a load.
pub struct LoadWorld<P> {
    pub locked: Result<(), IoError>,
    pub local: Result<P, IoError>,
    pub retained: Result<SessionIdLock, IoError>,
    pub pulled: Result<Option<PulledSession>, IoError>,
    /// The content of the session that was pulled.
    pub fetched: Result<P, IoError>,
    pub remote_sync: Result<(), IoError>,
}

/// What the world answers to a step.
pub open spec fn load_answer<P>(w: LoadWorld<P>, step: LoadStep<P>) -> LoadEvent<P> {
    match step {
        LoadStep::Lock => LoadEvent::Locked(w.locked),
        LoadStep::LoadLocal => LoadEvent::Content(w.local),
        LoadStep::RetainLease { .. } => LoadEvent::Retained(w.retained),
        LoadStep::Pull { .. } => LoadEvent::Pulled(w.pulled),
        LoadStep::LoadPulled { .. } => LoadEvent::Content(w.fetched),
        LoadStep::InitRemoteSync { .. } => LoadEvent::RemoteSync(w.remote_sync),
        _ => LoadEvent::Touched,
    }
}

/// Where a load is after `n` steps.
pub open spec fn load_run<P>(info: Info, backend: bool, w: LoadWorld<P>, n: nat) -> LoadStep<P>
    decreases n,
{
    if n == 0 {
        LoadStep::Lock
    } else {
        let step = load_run(info, backend, w, (n - 1) as nat);
        load_after(info, backend, step, load_answer(w, step))
    }
}

/// What a load comes to. The stored session is used where it can be read: with
/// its own content, its own info and the lease that was kept. Only where there
/// is none, and there is a backend, is it fetched: then content, info and lease
/// are those of the fetched one; where the backend has none either, the miss is
/// what the load fails with. Any other failure is the load's own.
pub proof fn load_takes_the_stored_session_first<P>(info: Info, backend: bool, w: LoadWorld<P>)
    ensures
        load_run(info, backend, w, 7) == LoadStep::Finished(
            match w.locked {
                Err(e) => Err(e),
                Ok(_) => match w.local {
                    Ok(content) => match w.retained {
                        Err(e) => Err(e),
                        Ok(lease) => match w.remote_sync {
                            Err(e) => Err(e),
                            Ok(_) => Ok(
                                Loaded { persisted: content, info, lifetime_lease: lease },
                            ),
                        },
                    },
                    Err(miss) => if miss.kind != ErrorKind::NotFound || !backend {
                        Err(miss)
                    } else {
                        match w.pulled {
                            Err(e) => Err(e),
                            Ok(None) => Err(miss),
                            Ok(Some(pulled)) => match w.fetched {
                                Err(e) => Err(e),
                                Ok(content) => match w.remote_sync {
                                    Err(e) => Err(e),
                                    Ok(_) => Ok(
                                        Loaded {
                                            persisted: content,
                                            info: pulled.info,
                                            lifetime_lease: pulled.lifetime_lease,
                                        },
                                    ),
                                },
                            },
                        }
                    },
                },
            },
        ),
{
    reveal_with_fuel(load_run, 8);
}

// Fetching.

/// How the world answers a pull.
pub struct PullWorld {
    pub fetched: Result<Option<Info>, PullError>,
    pub claimed: Result<Option<(String, SessionIdLock)>, IoError>,
    pub existing: Result<Info, IoError>,
    pub expected_path: String,
    pub staged: Result<(), IoError>,
    pub hydrated: Result<(), String>,
    pub published: Result<(), FinalizeError>,
    pub handed_off: Result<SessionIdLock, IoError>,
}

pub open spec fn pull_answer(w: PullWorld, step: PullStep) -> PullEvent {
    match step {
        PullStep::Fetch => PullEvent::Fetched(w.fetched),
        PullStep::Claim { .. } => PullEvent::Claimed(w.claimed),
        PullStep::ReadExisting { .. } => PullEvent::ExistingRead {
            summary: w.existing,
            expected_path: w.expected_path,
        },
        PullStep::BeginStage { .. } => PullEvent::Staged(w.staged),
        PullStep::Hydrate { .. } => PullEvent::Hydrated(w.hydrated),
        PullStep::Publish { .. } => PullEvent::Published(w.published),
        _ => PullEvent::HandedOff(w.handed_off),
    }
}

/// Where a pull is after `n` steps.
pub open spec fn pull_run(session_id: String, w: PullWorld, n: nat) -> PullStep
    decreases n,
{
    if n == 0 {
        PullStep::Fetch
    } else {
        let step = pull_run(session_id, w, (n - 1) as nat);
        pull_after(session_id, step, pull_answer(w, step))
    }
}

/// A pull of a session that is not published here ends with the fetched session
/// and the lease that its claim became, if and only if every step succeeded; a
/// publication that is committed but not known to be durable counts as one that
/// did. Whatever failed is what the pull fails with.
pub proof fn pull_brings_the_fetched_session(session_id: String, w: PullWorld, fetched: Info)
    requires
        w.fetched == Ok::<Option<Info>, PullError>(Some(fetched)),
        w.claimed == Ok::<Option<(String, SessionIdLock)>, IoError>(None),
    ensures
        pull_run(session_id, w, 6) == PullStep::Finished(
            match w.staged {
                Err(e) => Err(PullFault::Io(e)),
                Ok(_) => match w.hydrated {
                    Err(text) => Err(PullFault::Hydration(text)),
                    Ok(_) => if w.published is Ok || w.published->Err_0 is CommittedDurability {
                        match w.handed_off {
                            Err(e) => Err(PullFault::Io(e)),
                            Ok(lease) => Ok(
                                Some(PulledSession { info: fetched, lifetime_lease: lease }),
                            ),
                        }
                    } else {
                        Err(PullFault::Publication(w.published->Err_0.fault()))
                    },
                },
            },
        ),
{
    reveal_with_fuel(pull_run, 7);
}

/// A pull of a session that someone else has published meanwhile ends with
/// theirs, under the lease on theirs, if its summary can be read, bears the id
/// that was asked for, and lies where its working directory says; nothing is
/// staged or published. Otherwise it says which of these does not hold.
pub proof fn pull_uses_what_is_published(
    session_id: String,
    w: PullWorld,
    fetched: Info,
    path: String,
    lease: SessionIdLock,
)
    requires
        w.fetched == Ok::<Option<Info>, PullError>(Some(fetched)),
        w.claimed == Ok::<Option<(String, SessionIdLock)>, IoError>(Some((path, lease))),
    ensures
        match w.existing {
            Err(e) => pull_run(session_id, w, 3) == PullStep::Finished(
                Err(PullFault::InvalidSummary(e)),
            ),
            Ok(info) => if info.id@ != session_id@ {
                pull_run(session_id, w, 3) == PullStep::Finished(
                    Err(PullFault::IdMismatch { requested: session_id, found: info.id }),
                )
            } else if path@ != w.expected_path@ {
                pull_run(session_id, w, 3) == PullStep::Finished(
                    Err(
                        PullFault::PathMismatch {
                            requested: session_id,
                            expected: w.expected_path,
                            found: path,
                        },
                    ),
                )
            } else {
                pull_run(session_id, w, 3) == PullStep::Finished(
                    Ok(Some(PulledSession { info, lifetime_lease: lease })),
                )
            },
        },
{
    reveal_with_fuel(pull_run, 4);
}

/// Where the backend has no such session, or fails, or the id cannot be claimed,
/// the pull ends at once and says so.
pub proof fn pull_ends_without_a_session(session_id: String, w: PullWorld)
    ensures
        w.fetched matches Ok(None) ==> pull_run(session_id, w, 1) == PullStep::Finished(Ok(None)),
        w.fetched matches Err(e) ==> pull_run(session_id, w, 1) == PullStep::Finished(
            Err(PullFault::Fetch(e)),
        ),
        w.fetched matches Ok(Some(_)) ==> (w.claimed matches Err(e) ==> pull_run(session_id, w, 2)
            == PullStep::Finished(Err(PullFault::Io(e)))),
{
    reveal_with_fuel(pull_run, 3);
}

// Making.

/// A session that is made has the model that was asked for in its summary; and
/// but for that it has the summary that it was initialised with. One in a
/// directory of the caller's own is a subagent's where nothing else is said of
/// it; any other is what it was.
pub proof fn made_session_is_as_asked_for(c: Create, summary: Summary, new: Create)
    requires
        c.wf(),
        c.step is InitSession,
        c.leads_to(CreateEvent::Initialized(Ok(summary)), new),
    ensures
        new.summary matches Some(stored) && {
            &&& stored == (Summary { session_kind: stored.session_kind, ..summary })
            &&& summary.session_kind is Some || !c.explicit_dir ==> stored == summary
            &&& summary.session_kind is None && c.explicit_dir ==> stored.session_kind is Some
                && stored.session_kind->0@ == "subagent"@
        },
        new.model_id == c.model_id && new.explicit_dir == c.explicit_dir,
        !c.explicit_dir ==> (new.step is UpdateModel <==> summary.current_model_id@ != c.model_id@)
            && (new.step is InitRemoteSync <==> summary.current_model_id@ == c.model_id@),
{
}

/// A session is made with the model that was asked for: where the stored one
/// differs it is replaced before the making ends.
pub proof fn made_session_has_its_model(c: Create, event: CreateEvent, new: Create)
    requires
        c.wf(),
        c.fits(event),
        c.leads_to(event, new),
        c.step is InitRemoteSync || (c.explicit_dir && c.step is WriteSummary) ==> c.step
            is WriteSummary || c.summary->0.current_model_id@ == c.model_id@,
    ensures
        (new.step is InitRemoteSync || new.step is Finished && new.step->Finished_0 is Ok)
            ==> new.summary is Some && new.summary->0.current_model_id@ == new.model_id@,
        c.step is WriteSummary && (event matches CreateEvent::Done(Ok(_))) ==> (new.step
            is UpdateModel <==> c.summary->0.current_model_id@ != c.model_id@),
        c.step is UpdateModel && (event matches CreateEvent::Done(Ok(_))) ==> new.summary == Some(
            Summary { current_model_id: c.model_id, ..c.summary->0 },
        ),
{
}

/// A failure ends the making of a session and is what it fails with. A session
/// of this machine's own is claimed first and decided on for the backend last;
/// one in a directory of the caller's own is neither, but its worktree is touched
/// and its summary written.
pub proof fn making_goes_in_order(c: Create, event: CreateEvent, new: Create)
    requires
        c.wf(),
        c.fits(event),
        c.leads_to(event, new),
    ensures
        event matches CreateEvent::Done(Err(e)) ==> new.step == CreateStep::Finished(Err(e)),
        event matches CreateEvent::Initialized(Err(e)) ==> new.step == CreateStep::Finished(Err(e)),
        new.step matches CreateStep::Finished(Err(_)) ==> event matches CreateEvent::Done(Err(_))
            || event matches CreateEvent::Initialized(Err(_)),
        c.step is Claim && (event matches CreateEvent::Done(Ok(_))) ==> new.step is InitSession,
        (!c.explicit_dir && new.step is Finished && new.step->Finished_0 is Ok) ==> c.step
            is InitRemoteSync,
        c.explicit_dir ==> !(new.step is InitRemoteSync) && !(new.step is Claim),
        c.explicit_dir && (event matches CreateEvent::Initialized(Ok(_))) ==> new.step
            is TouchWorktree,
        c.step is TouchWorktree ==> new.step is WriteSummary && new.summary == c.summary,
        c.step is InitRemoteSync && (event matches CreateEvent::Done(Ok(_))) ==> new.step
            == CreateStep::Finished(Ok(())),
{
}

// Deleting.

/// How the world answers a deletion.
pub struct DeleteWorld {
    pub locked: Result<(), IoError>,
    pub found: Result<Option<Info>, IoError>,
    pub remote: Result<(), BackendError>,
    pub local: Result<(), IoError>,
}

pub open spec fn delete_answer(w: DeleteWorld, step: DeleteStep) -> DeleteEvent {
    match step {
        DeleteStep::Lock => DeleteEvent::Locked(w.locked),
        DeleteStep::Resolve => DeleteEvent::Resolved(w.found),
        DeleteStep::DeleteRemote { .. } => DeleteEvent::RemoteDeleted(w.remote),
        DeleteStep::DeleteLocal { .. } => DeleteEvent::LocalDeleted(w.local),
        _ => DeleteEvent::Evicted,
    }
}

/// Where a deletion is after `n` steps.
pub open spec fn delete_run(needs_remote: bool, w: DeleteWorld, n: nat) -> DeleteStep
    decreases n,
{
    if n == 0 {
        DeleteStep::Lock
    } else {
        let step = delete_run(needs_remote, w, (n - 1) as nat);
        delete_after(needs_remote, step, delete_answer(w, step))
    }
}

/// Whether the backend has deleted its copy, or never had one.
pub open spec fn gone_from_backend(remote: Result<(), BackendError>) -> bool {
    match remote {
        Ok(_) => true,
        Err(BackendError::RequestFailed { status }) => status == 404,
        Err(_) => false,
    }
}

/// What a deletion comes to. It succeeds if and only if the session could be
/// locked and looked for, the backend has nothing of it any more, and what was
/// found here could be deleted; it then says where a copy was removed. Otherwise
/// it says which of these failed, and with what.
pub proof fn deletion_removes_every_copy(needs_remote: bool, w: DeleteWorld)
    ensures
        delete_run(needs_remote, w, 5) == DeleteStep::Finished(
            match (w.locked, w.found) {
                (Err(e), _) => Err(DeleteSessionError::List(e)),
                (Ok(_), Err(e)) => Err(DeleteSessionError::List(e)),
                (Ok(_), Ok(found)) => if needs_remote && !gone_from_backend(w.remote) {
                    Err(DeleteSessionError::Remote(w.remote->Err_0))
                } else {
                    let remote_removed = needs_remote && w.remote is Ok;
                    match (found, w.local) {
                        (None, _) => Ok(SessionDeletion { local_removed: false, remote_removed }),
                        (Some(_), Ok(_)) => Ok(
                            SessionDeletion { local_removed: true, remote_removed },
                        ),
                        (Some(_), Err(e)) => Err(DeleteSessionError::Local(e)),
                    }
                },
            },
        ),
{
    reveal_with_fuel(delete_run, 6);
}

/// What is deleted here and dropped from the search index is the session that
/// was found, and it is dropped from the index once it is deleted.
pub proof fn deleted_session_is_the_one_found(
    needs_remote: bool,
    info: Info,
    w: DeleteWorld,
)
    requires
        w.locked is Ok,
        w.found == Ok::<Option<Info>, IoError>(Some(info)),
        needs_remote ==> gone_from_backend(w.remote),
    ensures
        ({
            let n: nat = if needs_remote {
                3
            } else {
                2
            };
            let removed = needs_remote && w.remote is Ok;
            &&& delete_run(needs_remote, w, n) == (DeleteStep::DeleteLocal {
                info,
                remote_removed: removed,
            })
            &&& w.local is Ok ==> delete_run(needs_remote, w, n + 1) == (DeleteStep::Evict {
                info,
                remote_removed: removed,
            })
        }),
{
    reveal_with_fuel(delete_run, 5);
}

// Publication gates.

/// A gate that is published before it is aborted stays open, one that is aborted
/// before it is published stays shut, and one of which neither was asked stays
/// pending.
pub proof fn gate_keeps_its_first_decision(calls: Seq<GateCall>)
    ensures
        calls.len() == 0 ==> decided_by(PublicationState::Pending, calls)
            == PublicationState::Pending,
        calls.len() > 0 && calls[0] == GateCall::Publish ==> decided_by(
            PublicationState::Pending,
            calls,
        ) == PublicationState::Published,
        calls.len() > 0 && calls[0] == GateCall::Abort ==> decided_by(
            PublicationState::Pending,
            calls,
        ) == PublicationState::Aborted,
{
    if calls.len() > 0 {
        crate::gate::first_attempt_wins(calls);
    }
}

} // verus!
