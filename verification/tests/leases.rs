use session_persistence::gate::{AbortWait, PublicationState, SessionPublicationGate};
use session_persistence::io_error::{ErrorKind, IoError};
use session_persistence::lease::{
    AccessStep, CanonicalSessionClaim, ClaimEvent, ClaimStep, FreshSessionClaim, LeaseStep,
    LeaseTransition, LockMode, SessionIdLock, TryLock, advance_access, advance_canonical_claim,
    retain_lifetime_shared, session_id_lock_root_for_sessions_root,
    try_acquire_session_id_read_lock,
};

// The publication gate.

#[test]
fn pending_gate_releases_only_after_publish() {
    let mut gate = SessionPublicationGate::pending();
    assert_eq!(gate.published_decision(), None);

    gate.publish();

    assert_eq!(gate.published_decision(), Some(true));
    assert!(gate.is_published());
}

#[test]
fn pending_gate_rejects_after_abort() {
    let mut gate = SessionPublicationGate::pending();
    assert_eq!(gate.published_decision(), None);

    gate.abort();

    assert_eq!(gate.published_decision(), Some(false));
    assert!(!gate.is_published());
}

#[test]
fn terminal_gate_states_cannot_be_reversed() {
    let mut aborted = SessionPublicationGate::pending();
    aborted.abort();
    aborted.publish();
    assert_eq!(aborted.published_decision(), Some(false));

    let mut published = SessionPublicationGate::pending();
    published.publish();
    published.abort();
    assert_eq!(published.published_decision(), Some(true));
}

#[test]
fn provisional_cleanup_waits_for_session_thread_lease() {
    let mut gate = SessionPublicationGate::pending();
    gate.register_session_thread();
    assert!(!gate.session_threads_exited());

    gate.release_session_thread();

    assert!(gate.session_threads_exited());
}

#[test]
fn concurrent_terminal_transitions_have_one_irreversible_winner() {
    for publish_first in [true, false] {
        let mut gate = SessionPublicationGate::pending();
        if publish_first {
            gate.publish();
            gate.abort();
        } else {
            gate.abort();
            gate.publish();
        }
        let winner = gate.state;
        assert!(matches!(winner, PublicationState::Published | PublicationState::Aborted));
        assert_eq!(winner == PublicationState::Published, publish_first);
        gate.publish();
        gate.abort();
        assert_eq!(gate.state, winner);
    }
}

#[test]
fn waiting_for_an_abort_never_ends_once_published() {
    let mut gate = SessionPublicationGate::pending();
    assert_eq!(gate.abort_wait(), AbortWait::Undecided);
    gate.abort();
    assert_eq!(gate.abort_wait(), AbortWait::Aborted);
    let gate = SessionPublicationGate::published();
    assert_eq!(gate.abort_wait(), AbortWait::Never);
    assert!(gate.is_published() && gate.session_threads_exited());
}

#[test]
fn every_session_thread_must_exit() {
    let mut gate = SessionPublicationGate::pending();
    gate.register_session_thread();
    gate.register_session_thread();
    gate.release_session_thread();
    assert!(!gate.session_threads_exited());
    gate.release_session_thread();
    gate.release_session_thread();
    assert!(gate.session_threads_exited());
}

// The passage from exclusive locks to the lifetime lock.

fn exclusive() -> SessionIdLock {
    SessionIdLock { namespace: Some(LockMode::Exclusive), mutation: Some(LockMode::Exclusive) }
}

fn denied() -> IoError {
    IoError::new(ErrorKind::PermissionDenied, "denied")
}

#[test]
fn passage_ends_in_the_lifetime_lock() {
    let t = LeaseTransition::begin(exclusive());
    let t = t.step(Ok(()));
    assert!(matches!(t.step, LeaseStep::ShareMutation));
    assert_eq!(t.lock.mutation, None);
    let t = t.step(Ok(()));
    assert!(matches!(t.step, LeaseStep::UnlockNamespace));
    assert_eq!(t.lock.namespace, Some(LockMode::Exclusive));
    let t = t.step(Ok(()));
    assert!(matches!(t.step, LeaseStep::Finished(Ok(()))));
    assert_eq!(t.lock, SessionIdLock { namespace: None, mutation: Some(LockMode::Shared) });
}

fn failed_claim(failing_step: usize) -> FreshSessionClaim {
    let claim = FreshSessionClaim { lock: exclusive(), cleanup_armed: false };
    let mut t = LeaseTransition::begin(claim.lock);
    for _ in 0..failing_step {
        t = t.step(Ok(()));
    }
    t = t.step(Err(denied()));
    match t.step {
        LeaseStep::Finished(result) => {
            let failure = claim.into_published_lease(t.lock, result).unwrap_err();
            assert_eq!(failure.error.kind, ErrorKind::PermissionDenied);
            failure.claim
        }
        step => panic!("{step:?}"),
    }
}

#[test]
fn failed_lease_downgrade_keeps_namespace_exclusive_until_claim_drop() {
    for step in [0, 1] {
        assert_eq!(failed_claim(step).lock.namespace, Some(LockMode::Exclusive));
    }
}

#[test]
fn failed_namespace_unlock_keeps_namespace_exclusive_until_claim_drop() {
    let claim = failed_claim(2);
    assert_eq!(claim.lock.namespace, Some(LockMode::Exclusive));
    assert_eq!(claim.lock.mutation, Some(LockMode::Shared));
}

#[test]
fn a_claim_becomes_a_lease() {
    let claim = FreshSessionClaim { lock: exclusive(), cleanup_armed: true }.disarm();
    assert!(!claim.cleanup_armed);
    let shared = SessionIdLock { namespace: None, mutation: Some(LockMode::Shared) };
    assert_eq!(claim.into_published_lease(shared, Ok(())).unwrap(), shared);
}

#[test]
fn busy_session_ids_are_not_waited_for() {
    let both = try_acquire_session_id_read_lock(TryLock::Taken, TryLock::Taken).unwrap();
    assert_eq!(
        both,
        Some(SessionIdLock {
            namespace: Some(LockMode::Shared),
            mutation: Some(LockMode::Shared)
        })
    );
    assert_eq!(
        try_acquire_session_id_read_lock(TryLock::WouldBlock, TryLock::Taken).unwrap(),
        None
    );
    assert_eq!(
        try_acquire_session_id_read_lock(TryLock::Taken, TryLock::WouldBlock).unwrap(),
        None
    );
    assert!(try_acquire_session_id_read_lock(TryLock::Failed(denied()), TryLock::Taken).is_err());
    assert!(try_acquire_session_id_read_lock(TryLock::Taken, TryLock::Failed(denied())).is_err());
}

#[test]
fn readers_keep_the_mutation_lock_for_life() {
    let shared =
        SessionIdLock { namespace: Some(LockMode::Shared), mutation: Some(LockMode::Shared) };
    let lease = retain_lifetime_shared(shared, Ok(())).unwrap();
    assert_eq!(lease, SessionIdLock { namespace: None, mutation: Some(LockMode::Shared) });
    assert!(retain_lifetime_shared(shared, Err(denied())).is_err());
    assert_eq!(retain_lifetime_shared(lease, Err(denied())).unwrap(), lease);
}

#[test]
fn locks_live_beside_the_sessions_root() {
    assert_eq!(
        session_id_lock_root_for_sessions_root(Some("/home/.grok".to_string())).unwrap(),
        "/home/.grok"
    );
    let e = session_id_lock_root_for_sessions_root(None).unwrap_err();
    assert_eq!(e.kind, ErrorKind::InvalidInput);
    assert_eq!(e.message, "sessions root must have a grok-home parent");
}

// Access to published sessions.

#[test]
fn readers_get_nothing_of_a_missing_session() {
    let step: AccessStep<u8> =
        advance_access(AccessStep::Lock(LockMode::Shared), ClaimEvent::Done(Ok(())));
    assert!(matches!(step, AccessStep::Resolve(LockMode::Shared)));
    let step = advance_access(step, ClaimEvent::Resolved(Ok(None)));
    assert!(matches!(step, AccessStep::Finished(Ok(None))));
}

#[test]
fn writers_clear_abandoned_stages_first() {
    let step: AccessStep<u8> =
        advance_access(AccessStep::Lock(LockMode::Exclusive), ClaimEvent::Done(Ok(())));
    assert!(matches!(step, AccessStep::ReclaimStages));
    let step = advance_access(step, ClaimEvent::Done(Ok(())));
    let step = advance_access(step, ClaimEvent::Resolved(Ok(None)));
    match step {
        AccessStep::Finished(Ok(Some(access))) => {
            assert_eq!(access.lock, exclusive());
            assert_eq!(access.dir, None);
        }
        step => panic!("{step:?}"),
    }
    let step: AccessStep<u8> =
        advance_access(AccessStep::ReclaimStages, ClaimEvent::Done(Err(denied())));
    assert!(matches!(step, AccessStep::Finished(Err(_))));
}

// The canonical claim.

#[test]
fn a_published_session_is_claimed_for_reading() {
    let step = advance_canonical_claim(ClaimStep::LockNamespace, ClaimEvent::Done(Ok(())));
    let step = advance_canonical_claim(step, ClaimEvent::Resolved(Ok(Some("dir"))));
    let step = advance_canonical_claim(step, ClaimEvent::Done(Ok(())));
    assert!(matches!(step, ClaimStep::UnlockNamespace { dir: "dir" }));
    match advance_canonical_claim(step, ClaimEvent::Done(Ok(()))) {
        ClaimStep::Finished(Ok(CanonicalSessionClaim::Existing { dir, lock })) => {
            assert_eq!(dir, "dir");
            assert_eq!(lock.namespace, None);
            assert_eq!(lock.mutation, Some(LockMode::Shared));
        }
        step => panic!("{step:?}"),
    }
}

#[test]
fn a_vacant_session_id_is_claimed_exclusively() {
    let step: ClaimStep<u8> =
        advance_canonical_claim(ClaimStep::LockNamespace, ClaimEvent::Done(Ok(())));
    let step = advance_canonical_claim(step, ClaimEvent::Resolved(Ok(None)));
    assert!(matches!(step, ClaimStep::LockMutation));
    match advance_canonical_claim(step, ClaimEvent::Done(Ok(()))) {
        ClaimStep::Finished(Ok(CanonicalSessionClaim::Vacant { lock })) => {
            assert_eq!(lock, exclusive())
        }
        step => panic!("{step:?}"),
    }
    let step: ClaimStep<u8> =
        advance_canonical_claim(ClaimStep::LockMutation, ClaimEvent::Done(Err(denied())));
    assert!(matches!(step, ClaimStep::Finished(Err(_))));
}
