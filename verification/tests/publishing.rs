use session_persistence::copy_publish::{
    Compared, CopyEvent, CopyFault, CopyFinalizeError, CopyPublication, CopyStep, io_step,
    publication_collision_error,
};
use session_persistence::entries::{
    CreateOrOpen, EntryType, SyncEntry, open_or_create_child_dir, require_real_directory,
    sync_entry,
};
use session_persistence::io_error::{ErrorKind, IoError};
use session_persistence::naming::{
    CopyLockOrder, UNPUBLISHED_SESSION_MARKER, cwd_metadata_matches, lock_order,
    needs_cwd_metadata, ordered_copy_locks, session_claim_lock_name, session_claim_lock_stem,
    session_mutation_lock_name, session_names, session_stage_container_name,
    PathStyle, validate_session_path_component,
};
use session_persistence::publish::{
    Fault, FinalizeError, Level, Publication, PublishEvent, PublishStep, reclaims_stage_on_drop,
    require_regular_summary,
};
use session_persistence::stage::{
    Cleanup, ContainerProbe, CwdProbe, Flow, StageEvent, StageFault, StageRequest, StageStep,
    is_reclaimable_stage, persisted_session_id_present, public_session_id_namespace_present,
    reclaim_abandoned_session_stages,
};

// Names.

const DIGEST_OF_A: &str = "ca978112ca1bbdcafac231b39a23dc4da786eff8147c4e72b9807785afee48bb";

#[test]
fn lock_and_stage_names_come_from_the_digest() {
    assert_eq!(session_claim_lock_stem("a"), DIGEST_OF_A);
    assert_eq!(session_stage_container_name("a"), format!("session-{DIGEST_OF_A}"));
    assert_eq!(session_claim_lock_name("a"), format!("{DIGEST_OF_A}.namespace.lock"));
    assert_eq!(session_mutation_lock_name("a"), format!("{DIGEST_OF_A}.mutation.lock"));
    assert_eq!(
        session_claim_lock_stem(""),
        "e3b0c44298fc1c149afbf4c8996fb92427ae41e4649b934ca495991b7852b855"
    );
    assert_eq!(UNPUBLISHED_SESSION_MARKER, ".unpublished");
}

#[test]
fn cwd_metadata_is_needed_where_the_name_is_not_the_encoding() {
    assert!(!needs_cwd_metadata("%2Fwork%20dir", "/work dir"));
    assert!(needs_cwd_metadata("/work dir", "/work dir"));
    assert!(!needs_cwd_metadata("a-b_c.d~e9", "a-b_c.d~e9"));
    assert!(!needs_cwd_metadata("%C3%A9", "\u{e9}"));
    assert!(needs_cwd_metadata("%c3%a9", "\u{e9}"));
    assert!(needs_cwd_metadata("hash-of-a-long-path", "/a/long/path"));
}

#[test]
fn cwd_metadata_must_match_byte_for_byte() {
    assert!(cwd_metadata_matches(&"/w\u{e9}".as_bytes().to_vec(), "/w\u{e9}"));
    assert!(!cwd_metadata_matches(&b"/w\n".to_vec(), "/w"));
    assert!(!cwd_metadata_matches(&b"".to_vec(), "/w"));
}

#[test]
fn copy_rejects_session_id_path_traversal() {
    for style in [PathStyle::Posix, PathStyle::Windows] {
        assert!(validate_session_path_component("../victim", style).is_err());
        assert!(validate_session_path_component("nested/victim", style).is_err());
        assert!(validate_session_path_component("safe-session-id", style).is_ok());
    }
}

#[test]
fn session_ids_are_single_components() {
    let posix = |id: &str| validate_session_path_component(id, PathStyle::Posix);
    let windows = |id: &str| validate_session_path_component(id, PathStyle::Windows);
    for bad in ["..\\victim", "nested\\victim", "\\a", "a\\", "C:", "C:a", "z:.."] {
        assert!(windows(bad).is_err(), "{bad}");
        assert!(posix(bad).is_ok(), "{bad}");
    }
    for good in ["ab:", "1:a", "\u{e9}:a", ":a"] {
        assert!(windows(good).is_ok(), "{good}");
    }
    for bad in ["", ".", "..", "/", "a/", "/a"] {
        assert!(windows(bad).is_err(), "{bad}");
        let e = posix(bad).unwrap_err();
        assert_eq!(e.kind, ErrorKind::InvalidInput, "{bad}");
        assert_eq!(e.message, "session id must be a single path component");
    }
    for good in ["...", "a.b", ".a", "a b"] {
        assert!(posix(good).is_ok() && windows(good).is_ok(), "{good}");
    }
}

#[test]
fn reverse_direction_fork_leases_do_not_deadlock() {
    let there = ordered_copy_locks("a", "b").unwrap();
    let back = ordered_copy_locks("b", "a").unwrap();
    // "b" digests to 3e23..., which comes before the digest of "a".
    assert_eq!(there, CopyLockOrder::TargetFirst);
    assert_eq!(back, CopyLockOrder::SourceFirst);
    let e = ordered_copy_locks("a", "a").unwrap_err();
    assert_eq!(e.kind, ErrorKind::InvalidInput);
    assert_eq!(e.message, "fork source and target session ids must differ");
}

// The publication of a fresh session.

fn missing() -> IoError {
    IoError::new(ErrorKind::NotFound, "missing")
}

fn taken_error() -> IoError {
    IoError::new(ErrorKind::AlreadyExists, "exists")
}

fn denied() -> IoError {
    IoError::new(ErrorKind::PermissionDenied, "denied")
}

/// Runs a publication; `fail` gives the failure of a step, if it fails.
fn publish(
    parent_name: &str,
    cwd: &str,
    bytes: &[u8],
    fail: impl Fn(&PublishStep) -> Option<IoError>,
) -> (Publication, Vec<String>) {
    let mut p = Publication::begin(parent_name.to_string(), true, true);
    let mut steps = Vec::new();
    while !matches!(p.step, PublishStep::Finished(_)) {
        steps.push(format!("{:?}", p.step));
        let failure = fail(&p.step);
        let event = match (&p.step, failure) {
            (PublishStep::ReadSummary, None) => PublishEvent::Summary(Ok(cwd.to_string())),
            (PublishStep::ReadSummary, Some(e)) => PublishEvent::Summary(Err(e)),
            (PublishStep::ReadCwdFile, None) => PublishEvent::Bytes(Ok(bytes.to_vec())),
            (PublishStep::ReadCwdFile, Some(e)) => PublishEvent::Bytes(Err(e)),
            (PublishStep::Verify(_), None) => PublishEvent::Identity(Ok(true)),
            (PublishStep::Verify(_), Some(e)) if e.kind == ErrorKind::Other => {
                PublishEvent::Identity(Ok(false))
            }
            (PublishStep::Verify(_), Some(e)) => PublishEvent::Identity(Err(e)),
            (_, None) => PublishEvent::Done(Ok(())),
            (_, Some(e)) => PublishEvent::Done(Err(e)),
        };
        assert!(p.accepts(&event));
        p = p.step(event);
    }
    (p, steps)
}

#[test]
fn final_publication_moves_private_stage_and_rebinds_storage_path() {
    let (p, steps) = publish("%2Fw", "/w", b"", |_| None);
    assert!(matches!(p.step, PublishStep::Finished(Ok(()))));
    assert!(p.committed && !p.container_held && !p.session_held);
    assert!(steps.contains(&"RenameSession".to_string()));
    assert!(!steps.contains(&"ReadCwdFile".to_string()));
}

#[test]
fn final_publication_atomically_publishes_long_cwd_metadata() {
    let absent = |s: &PublishStep| matches!(s, PublishStep::OpenParent).then_some(missing());
    let (p, steps) = publish("hashed", "/long", b"", absent);
    assert!(matches!(p.step, PublishStep::Finished(Ok(()))));
    let written = steps.iter().position(|s| s == "WriteCwdFile").unwrap();
    let renamed = steps.iter().position(|s| s == "RenameContainer").unwrap();
    assert!(written < renamed, "the metadata is in the container before it is public");
}

#[test]
fn final_publication_missing_summary_is_not_committed() {
    let gone = |s: &PublishStep| matches!(s, PublishStep::ReadSummary).then_some(missing());
    let (p, _) = publish("%2Fw", "/w", b"", gone);
    assert!(matches!(
        p.step,
        PublishStep::Finished(Err(FinalizeError::NotCommitted(Fault::Io(_))))
    ));
    assert!(!p.committed && p.container_held);
}

#[test]
fn final_publication_collision_is_not_committed() {
    let taken = |s: &PublishStep| matches!(s, PublishStep::RenameSession).then_some(taken_error());
    let (p, _) = publish("%2Fw", "/w", b"", taken);
    match p.step {
        PublishStep::Finished(Err(FinalizeError::NotCommitted(f))) => {
            assert_eq!(f.into_error().kind, ErrorKind::AlreadyExists)
        }
        step => panic!("{step:?}"),
    }
    assert!(!p.committed && p.container_held && p.session_held);
}

#[test]
fn post_rename_sync_failure_is_committed_and_drop_preserves_public_tree() {
    let full = |s: &PublishStep| matches!(s, PublishStep::SyncPublished).then_some(denied());
    let (p, _) = publish("%2Fw", "/w", b"", full);
    assert!(matches!(
        p.step,
        PublishStep::Finished(Err(FinalizeError::CommittedDurability(_)))
    ));
    assert!(p.committed);
    assert!(!reclaims_stage_on_drop(true, p.committed, p.container_held));
}

#[test]
fn canonical_identity_proof_rejects_replaced_root_path() {
    let swapped =
        |s: &PublishStep| matches!(s, PublishStep::Verify(Level::Root)).then_some(IoError::other("x"));
    let (p, _) = publish("%2Fw", "/w", b"", swapped);
    match p.step {
        PublishStep::Finished(Err(f)) => {
            assert!(matches!(f, FinalizeError::CommittedIdentity(Fault::Moved(Level::Root))));
            assert_eq!(
                f.message(),
                "publication committed but canonical identity is unverified: \
                 publication root identity is no longer canonically reachable"
            );
        }
        step => panic!("{step:?}"),
    }
    assert!(p.committed);
}

#[test]
fn losing_the_race_for_the_cwd_directory_joins_the_winner() {
    let race = |s: &PublishStep| match s {
        PublishStep::OpenParent => Some(missing()),
        PublishStep::RenameContainer => Some(taken_error()),
        _ => None,
    };
    let (p, steps) = publish("hashed", "/long", b"/long", race);
    assert!(matches!(p.step, PublishStep::Finished(Ok(()))));
    assert!(steps.contains(&"ReopenStagedSession".to_string()));
    assert!(steps.contains(&"ReadCwdFile".to_string()));
    let (p, _) = publish("hashed", "/long", b"/other", race);
    match p.step {
        PublishStep::Finished(Err(f)) => assert_eq!(
            f.message(),
            "publication not committed: \
             published cwd metadata does not exactly match the session cwd"
        ),
        step => panic!("{step:?}"),
    }
}

#[test]
fn sessions_root_that_exists_is_opened() {
    let there = |s: &PublishStep| matches!(s, PublishStep::CreateSessions).then_some(taken_error());
    let (p, steps) = publish("%2Fw", "/w", b"", there);
    assert!(matches!(p.step, PublishStep::Finished(Ok(()))));
    assert!(steps.contains(&"OpenSessions".to_string()));
}

#[test]
fn final_publication_rejects_symlinked_sessions_root() {
    let linked = |s: &PublishStep| match s {
        PublishStep::CreateSessions => Some(taken_error()),
        PublishStep::OpenSessions => Some(denied()),
        _ => None,
    };
    let (p, _) = publish("%2Fw", "/w", b"", linked);
    assert!(matches!(p.step, PublishStep::Finished(Err(FinalizeError::NotCommitted(_)))));
    assert!(!p.committed);
}

#[test]
fn missing_handles_stop_a_publication() {
    let p = Publication::begin("%2Fw".to_string(), false, true)
        .step(PublishEvent::Summary(Ok("/w".to_string())));
    match p.step {
        PublishStep::Finished(Err(f)) => assert_eq!(
            f.into_error().message,
            "fresh publication stage was already consumed"
        ),
        step => panic!("{step:?}"),
    }
    let mut p = Publication::begin("%2Fw".to_string(), true, false)
        .step(PublishEvent::Summary(Ok("/w".to_string())));
    for _ in 0..4 {
        p = p.step(PublishEvent::Done(Ok(())));
    }
    assert!(matches!(p.step, PublishStep::OpenParent));
    let p = p.step(PublishEvent::Done(Err(missing())));
    match p.step {
        PublishStep::Finished(Err(f)) => assert_eq!(
            f.into_error().message,
            "fresh publication container was already consumed"
        ),
        step => panic!("{step:?}"),
    }
}

#[test]
fn stage_is_reclaimed_only_while_it_is_private() {
    assert!(reclaims_stage_on_drop(true, false, true));
    assert!(!reclaims_stage_on_drop(true, true, true));
    assert!(!reclaims_stage_on_drop(false, false, true));
    assert!(!reclaims_stage_on_drop(true, false, false));
}

#[test]
fn a_published_session_needs_a_regular_summary() {
    assert!(require_regular_summary(true, false).is_ok());
    for (is_file, is_symlink) in [(false, false), (true, true), (false, true)] {
        let e = require_regular_summary(is_file, is_symlink).unwrap_err();
        assert_eq!(e.kind, ErrorKind::InvalidData);
        assert_eq!(e.message, "published session requires a regular summary.json");
    }
}

// The publication of a fork.

/// Answers each step of a fork's publication; `answer` may take one over.
fn publish_fork(
    parent_name: &str,
    cwd: &str,
    answer: impl Fn(&CopyStep) -> Option<CopyEvent>,
) -> (CopyPublication, Vec<String>) {
    let mut p = CopyPublication::begin(parent_name.to_string(), cwd.to_string(), true, true);
    let mut steps = Vec::new();
    while !matches!(p.step, CopyStep::Finished(_)) {
        steps.push(format!("{:?}", p.step));
        let event = answer(&p.step).unwrap_or_else(|| match &p.step {
            CopyStep::ProbeParent => CopyEvent::Flag(true),
            CopyStep::ProbeTarget
            | CopyStep::ProbeAfterOpen { .. }
            | CopyStep::ProbeAfterRename { .. }
            | CopyStep::ProbeAfterContainer
            | CopyStep::ProbeParentTaken
            | CopyStep::ProbeBeforeChild
            | CopyStep::ProbeAfterJoin { .. }
            | CopyStep::ProbeAfterJoinedRename { .. } => CopyEvent::Flag(false),
            CopyStep::ReadCwdFile | CopyStep::ReadJoinedCwdFile => {
                CopyEvent::Bytes(Ok(cwd.as_bytes().to_vec()))
            }
            CopyStep::CheckRoot | CopyStep::CheckSessions | CopyStep::Verify { .. } => {
                CopyEvent::Compared(Compared::Same(true))
            }
            _ => CopyEvent::Done(Ok(())),
        });
        assert!(p.accepts(&event), "{:?} in {:?}", event, p.step);
        p = p.step(event);
        assert!(steps.len() < 100);
    }
    (p, steps)
}

fn at(steps: &[String], name: &str) -> bool {
    steps.iter().any(|s| s == name)
}

#[test]
fn no_replace_copy_publication_success_moves_private_stage() {
    let (p, steps) = publish_fork("%2Fw", "/w", |_| None);
    assert!(matches!(p.step, CopyStep::Finished(Ok(()))));
    assert!(p.committed && !p.cleanup_armed && !p.reclaims_on_drop());
    assert!(at(&steps, "Rename") && at(&steps, "RemoveContainer"));
}

#[test]
fn long_cwd_parent_and_metadata_remain_private_until_publication() {
    let (p, steps) = publish_fork("hashed", "/long", |s| match s {
        CopyStep::ProbeParent => Some(CopyEvent::Flag(false)),
        CopyStep::OpenParent { .. } => Some(CopyEvent::Done(Err(missing()))),
        _ => None,
    });
    assert!(matches!(p.step, CopyStep::Finished(Ok(()))));
    assert!(p.whole);
    let place = |name: &str| steps.iter().position(|s| s == name).unwrap();
    assert!(place("WriteCwdFile") < place("RemoveMarkerInContainer"));
    assert!(place("RemoveMarkerInContainer") < place("RenameContainer"));
}

#[test]
fn copy_publication_rejects_mismatched_long_cwd_metadata() {
    let (p, _) = publish_fork("hashed", "/long", |s| match s {
        CopyStep::ReadCwdFile => Some(CopyEvent::Bytes(Ok(b"/other".to_vec()))),
        _ => None,
    });
    assert!(matches!(
        p.step,
        CopyStep::Finished(Err(CopyFinalizeError::NotCommitted(CopyFault::CwdMismatch { .. })))
    ));
    assert!(!p.committed && p.reclaims_on_drop());
}

#[test]
fn concurrent_matching_parent_creation_publishes_session_only() {
    let (p, steps) = publish_fork("hashed", "/long", |s| match s {
        CopyStep::ProbeParent => Some(CopyEvent::Flag(false)),
        CopyStep::OpenParent { .. } => Some(CopyEvent::Done(Err(missing()))),
        CopyStep::RenameContainer => Some(CopyEvent::Done(Err(taken_error()))),
        CopyStep::ProbeParentTaken => Some(CopyEvent::Flag(true)),
        _ => None,
    });
    assert!(matches!(p.step, CopyStep::Finished(Ok(()))));
    assert!(!p.whole);
    assert!(at(&steps, "JoinParent") && at(&steps, "RenameJoined"));
}

#[test]
fn concurrent_mismatched_long_cwd_parent_fails_closed_and_reclaims_stage() {
    let (p, _) = publish_fork("hashed", "/long", |s| match s {
        CopyStep::ProbeParent => Some(CopyEvent::Flag(false)),
        CopyStep::OpenParent { .. } => Some(CopyEvent::Done(Err(missing()))),
        CopyStep::RenameContainer => Some(CopyEvent::Done(Err(taken_error()))),
        CopyStep::ProbeParentTaken => Some(CopyEvent::Flag(true)),
        CopyStep::ReadJoinedCwdFile => Some(CopyEvent::Bytes(Ok(b"/mismatch".to_vec()))),
        _ => None,
    });
    match &p.step {
        CopyStep::Finished(Err(CopyFinalizeError::NotCommitted(f))) => {
            assert!(matches!(f, CopyFault::CwdMismatch { .. }))
        }
        step => panic!("{step:?}"),
    }
    assert!(p.reclaims_on_drop());
}

#[test]
fn no_replace_publication_preserves_concurrent_winner() {
    let (p, _) = publish_fork("%2Fw", "/w", |s| match s {
        CopyStep::Rename => Some(CopyEvent::Done(Err(taken_error()))),
        _ => None,
    });
    match p.step {
        CopyStep::Finished(Err(f)) => {
            let e = f.into_error("\"%2Fw\"");
            assert_eq!(e.kind, ErrorKind::AlreadyExists);
            assert_eq!(e.message, "no-replace publication collided");
        }
        step => panic!("{step:?}"),
    }
    assert_eq!(publication_collision_error().kind, ErrorKind::AlreadyExists);
}

#[test]
fn published_copy_post_commit_sync_failure_preserves_visible_target() {
    let (p, _) = publish_fork("%2Fw", "/w", |s| match s {
        CopyStep::SyncAfterCommit => Some(CopyEvent::Done(Err(denied()))),
        _ => None,
    });
    assert!(matches!(
        p.step,
        CopyStep::Finished(Err(CopyFinalizeError::CommittedDurability(_)))
    ));
    assert!(p.committed && !p.reclaims_on_drop());
}

#[test]
fn sessions_root_swap_before_commit_is_not_committed() {
    let (p, _) = publish_fork("%2Fw", "/w", |s| match s {
        CopyStep::CheckSessions => Some(CopyEvent::Compared(Compared::Same(false))),
        _ => None,
    });
    match p.step {
        CopyStep::Finished(Err(f)) => assert_eq!(
            f.message("\"%2Fw\""),
            "fork publication not committed: \
             sessions root identity changed before fork publication"
        ),
        step => panic!("{step:?}"),
    }
    assert!(!p.committed);
}

#[test]
fn sessions_root_swap_after_rename_is_committed_unreachable_hard_failure() {
    let (p, _) = publish_fork("%2Fw", "/w", |s| match s {
        CopyStep::Verify { level: Level::Sessions, .. } => {
            Some(CopyEvent::Compared(Compared::Same(false)))
        }
        _ => None,
    });
    assert!(matches!(
        p.step,
        CopyStep::Finished(Err(CopyFinalizeError::CommittedUnreachable(
            CopyFault::ChangedAfter(Level::Sessions)
        )))
    ));
    assert!(p.committed);
}

#[test]
fn parent_swap_after_rename_is_committed_unreachable_hard_failure() {
    let (p, _) = publish_fork("%2Fw", "/w", |s| match s {
        CopyStep::Verify { level: Level::Parent, .. } => {
            Some(CopyEvent::Compared(Compared::OpenFailed(missing())))
        }
        _ => None,
    });
    assert!(matches!(
        p.step,
        CopyStep::Finished(Err(CopyFinalizeError::CommittedUnreachable(CopyFault::At(_, _))))
    ));
    assert!(p.committed && !p.reclaims_on_drop());
}

#[test]
fn failures_name_their_step() {
    let e = io_step("sync staged tree", &denied());
    assert_eq!(e.kind, ErrorKind::PermissionDenied);
    assert_eq!(e.message, "sync staged tree: denied");
}

// Stages.

fn request(flow: Flow) -> StageRequest {
    let path = |parts: &[&str]| parts.iter().map(|p| p.to_string()).collect::<Vec<_>>();
    StageRequest {
        flow,
        session_id: "s".to_string(),
        source_id: "src".to_string(),
        sessions_root: path(&["home", "sessions"]),
        target: path(&["home", "sessions", "%2Fw", "s"]),
        shown_target: "/home/sessions/%2Fw/s".to_string(),
        style: PathStyle::Posix,
        expected_parent: "%2Fw".to_string(),
        writer_busy: false,
    }
}

fn build(req: &StageRequest, answer: impl Fn(&StageStep) -> Option<StageEvent>) -> (StageStep, Vec<String>) {
    let mut step = req.begin();
    let mut steps = Vec::new();
    while !matches!(step, StageStep::Finished(_)) {
        steps.push(format!("{step:?}"));
        let event = answer(&step).unwrap_or_else(|| match &step {
            StageStep::ProbeNamespace | StageStep::ProbeTarget => StageEvent::Flag(Ok(false)),
            _ => StageEvent::Done(Ok(())),
        });
        step = req.advance(step, event);
    }
    (step, steps)
}

fn refusal(req: &StageRequest, step: StageStep) -> IoError {
    match step {
        StageStep::Finished(Err(fault)) => req.error(fault),
        step => panic!("{step:?}"),
    }
}

#[test]
fn stages_are_built_in_order() {
    let (step, steps) = build(&request(Flow::Fresh), |_| None);
    assert!(matches!(step, StageStep::Finished(Ok(()))));
    assert_eq!(
        steps,
        vec![
            "LockTarget",
            "OpenStaging",
            "Reclaim",
            "ProbeNamespace",
            "CreateContainer",
            "RestrictContainer",
            "CreateSession",
            "RestrictSession",
            "CreateMarker"
        ]
    );
    let (step, steps) = build(&request(Flow::Import), |_| None);
    assert!(matches!(step, StageStep::Finished(Ok(()))));
    assert_eq!(&steps[..4], &["ProbeNamespace", "ProbeTarget", "OpenStaging", "Reclaim"]);
    let (step, steps) = build(&request(Flow::Copy), |_| None);
    assert!(matches!(step, StageStep::Finished(Ok(()))));
    assert!(steps[0].starts_with("LockForCopy"));
    assert_eq!(
        &steps[1..6],
        &["Reclaim", "OpenSessions", "ProbeNamespace", "ProbeTarget", "OpenStaging"]
    );
}

#[test]
fn fresh_claim_invalid_public_path_does_not_create_private_stage() {
    let mut req = request(Flow::Fresh);
    req.target = vec!["elsewhere".to_string(), "s".to_string()];
    let (step, steps) = build(&req, |_| None);
    assert!(!at(&steps, "CreateContainer"));
    let e = refusal(&req, step);
    assert_eq!(e.kind, ErrorKind::InvalidInput);
    assert_eq!(e.message, "published session is not a direct session-id child");
}

#[test]
fn cross_process_duplicate_claim_rechecks_other_encoded_cwd_after_lock() {
    let req = request(Flow::Fresh);
    let (step, steps) = build(&req, |s| match s {
        StageStep::ProbeNamespace => Some(StageEvent::Flag(Ok(true))),
        _ => None,
    });
    assert_eq!(steps[0], "LockTarget");
    let e = refusal(&req, step);
    assert_eq!(e.kind, ErrorKind::AlreadyExists);
    assert_eq!(e.message, "a persisted session with id s already exists");
}

#[test]
fn copy_rejects_duplicate_target_without_overwriting_it() {
    let req = request(Flow::Copy);
    let (step, _) = build(&req, |s| match s {
        StageStep::ProbeTarget => Some(StageEvent::Flag(Ok(true))),
        _ => None,
    });
    let e = refusal(&req, step);
    assert_eq!(e.kind, ErrorKind::AlreadyExists);
    assert_eq!(e.message, "a session with id s already exists");
}

#[test]
fn copy_stage_construction_failure_reclaims_deterministic_container() {
    let req = request(Flow::Copy);
    let (step, steps) = build(&req, |s| match s {
        StageStep::CreateSession => Some(StageEvent::Done(Err(denied()))),
        _ => None,
    });
    assert!(steps.last().unwrap().starts_with("CleanUp(Container,"));
    assert_eq!(refusal(&req, step).kind, ErrorKind::PermissionDenied);
}

#[test]
fn failed_constructions_remove_what_they_made() {
    for (flow, at, cleanup) in [
        (Flow::Fresh, "CreateMarker", Cleanup::ContainerTree),
        (Flow::Import, "RestrictSession", Cleanup::ContainerTree),
        (Flow::Copy, "RestrictSession", Cleanup::SessionAndContainer),
        (Flow::Copy, "CreateMarker", Cleanup::MarkerSessionContainer),
    ] {
        let (step, steps) = build(&request(flow), |s| {
            (format!("{s:?}") == at).then_some(StageEvent::Done(Err(denied())))
        });
        assert!(steps.last().unwrap().starts_with(&format!("CleanUp({cleanup:?},")));
        assert!(matches!(step, StageStep::Finished(Err(StageFault::Io(_)))));
    }
}

#[test]
fn refused_requests_say_why() {
    let mut req = request(Flow::Import);
    req.writer_busy = true;
    let step = req.begin();
    assert_eq!(refusal(&req, step).message, "session id is already present");
    let mut req = request(Flow::Copy);
    req.session_id = "src".to_string();
    let step = req.begin();
    let e = refusal(&req, step);
    assert_eq!(e.kind, ErrorKind::AlreadyExists);
    assert_eq!(e.message, "fork target session id must differ from source session id");
    let mut req = request(Flow::Copy);
    req.session_id = "../s".to_string();
    let step = req.begin();
    assert_eq!(refusal(&req, step).message, "session id must be a single path component");
    let mut req = request(Flow::Copy);
    req.source_id = "..\\s".to_string();
    assert!(matches!(req.begin(), StageStep::LockForCopy(_)));
    req.style = PathStyle::Windows;
    let step = req.begin();
    assert_eq!(refusal(&req, step).message, "session id must be a single path component");
    let mut req = request(Flow::Copy);
    req.expected_parent = "%2Fother".to_string();
    let (step, _) = build(&req, |_| None);
    assert_eq!(refusal(&req, step).message, "fork target parent does not match the target cwd");
    let mut req = request(Flow::Import);
    req.target = Vec::new();
    let step = req.begin();
    assert_eq!(refusal(&req, step).message, "session directory has no parent");
    let req = request(Flow::Import);
    let (step, _) = build(&req, |s| match s {
        StageStep::ProbeNamespace => Some(StageEvent::Flag(Ok(true))),
        _ => None,
    });
    assert_eq!(
        refusal(&req, step).message,
        "public session target already exists: /home/sessions/%2Fw/s"
    );
}

fn container(name: &str, children: &[&str]) -> ContainerProbe {
    ContainerProbe {
        name: name.to_string(),
        session_private: children.contains(&"a").then_some(true),
        children: Some(children.iter().map(|c| c.to_string()).collect()),
        cwd_file_opens: children.contains(&".cwd"),
        private: true,
    }
}

#[test]
fn fresh_claim_reclaims_markerless_exact_stage_and_preserves_other_shapes() {
    let exact = session_stage_container_name("a");
    assert!(is_reclaimable_stage(&container(&exact, &["a"]), "a"));
    assert!(is_reclaimable_stage(&container(&exact, &[]), "a"));
    assert!(is_reclaimable_stage(&container(&exact, &["a", ".cwd"]), "a"));
    assert!(is_reclaimable_stage(&container("renamed", &["a"]), "a"));
    assert!(!is_reclaimable_stage(&container("renamed", &[]), "a"));
    assert!(!is_reclaimable_stage(&container(&exact, &["a", "extra"]), "a"));
    let unlisted = ContainerProbe { children: None, ..container(&exact, &["a"]) };
    assert!(!is_reclaimable_stage(&unlisted, "a"));
    let linked = ContainerProbe { cwd_file_opens: false, ..container(&exact, &[".cwd"]) };
    assert!(!is_reclaimable_stage(&linked, "a"));
}

#[test]
fn fresh_claim_preserves_non_private_marked_stage() {
    let exact = session_stage_container_name("a");
    let open = ContainerProbe { private: false, ..container(&exact, &["a"]) };
    assert!(!is_reclaimable_stage(&open, "a"));
    let inner = ContainerProbe { session_private: Some(false), ..container(&exact, &["a"]) };
    assert!(!is_reclaimable_stage(&inner, "a"));
}

#[test]
fn abandoned_stages_are_picked_in_order() {
    let exact = session_stage_container_name("a");
    let probes = vec![
        container("x", &[]),
        container(&exact, &[]),
        container("y", &["b"]),
        container("z", &["a"]),
    ];
    assert_eq!(reclaim_abandoned_session_stages(&probes, "a"), vec![1, 3]);
}

fn cwd(holds: Result<bool, IoError>) -> Result<CwdProbe, IoError> {
    Ok(CwdProbe { is_dir: true, is_symlink: false, holds_id: holds })
}

#[test]
fn namespace_is_scanned_strictly_for_forks_only() {
    assert_eq!(public_session_id_namespace_present(Err(missing())).unwrap(), false);
    assert!(public_session_id_namespace_present(Err(denied())).is_err());
    let unreadable = || Ok(vec![cwd(Err(denied())), cwd(Ok(true))]);
    assert_eq!(public_session_id_namespace_present(unreadable()).unwrap(), true);
    assert!(persisted_session_id_present(Ok(()), unreadable()).is_err());
    let free = || Ok(vec![cwd(Ok(false))]);
    assert_eq!(public_session_id_namespace_present(free()).unwrap(), false);
    assert_eq!(persisted_session_id_present(Ok(()), free()).unwrap(), false);
    assert_eq!(persisted_session_id_present(Ok(()), Err(missing())).unwrap(), false);
    assert!(persisted_session_id_present(Err(missing()), Err(missing())).is_err());
    let entry_error = || Ok(vec![Err(denied()), cwd(Ok(true))]);
    assert!(public_session_id_namespace_present(entry_error()).is_err());
}

// Directory entries.

#[test]
fn only_real_directories_are_built_on() {
    assert!(require_real_directory(EntryType::Dir, None).is_ok());
    for entry in [EntryType::File, EntryType::Symlink, EntryType::Other] {
        let e = require_real_directory(entry, None).unwrap_err();
        assert_eq!(e.kind, ErrorKind::InvalidData);
        assert_eq!(e.message, "not a real directory");
        let e = require_real_directory(entry, Some("/x")).unwrap_err();
        assert_eq!(e.message, "not a real directory: /x");
    }
    let e = require_real_directory(EntryType::ReparsePoint, Some("/x")).unwrap_err();
    assert_eq!(e.message, "directory is a reparse point: /x");
}

#[test]
fn stages_hold_files_and_directories_only() {
    assert_eq!(sync_entry(EntryType::Dir, "/x").unwrap(), SyncEntry::Tree);
    assert_eq!(sync_entry(EntryType::File, "/x").unwrap(), SyncEntry::File);
    let e = sync_entry(EntryType::Symlink, "/x").unwrap_err();
    assert_eq!(e.kind, ErrorKind::InvalidData);
    assert_eq!(e.message, "unexpected non-file in fork target: /x");
}

#[test]
fn directories_that_exist_are_opened() {
    assert!(matches!(open_or_create_child_dir(Ok(())), CreateOrOpen::Created));
    assert!(matches!(open_or_create_child_dir(Err(taken_error())), CreateOrOpen::Open));
    assert!(matches!(open_or_create_child_dir(Err(denied())), CreateOrOpen::Failed(_)));
}

#[test]
fn names_are_made_of_the_digest() {
    let names = session_names(&vec![0, 0x0f, 0xa5]);
    assert_eq!(names.stem, "000fa5");
    assert_eq!(names.stage_container, "session-000fa5");
    assert_eq!(names.namespace_lock, "000fa5.namespace.lock");
    assert_eq!(names.mutation_lock, "000fa5.mutation.lock");
    assert_eq!(lock_order("0a.namespace.lock", "0b.namespace.lock"), CopyLockOrder::SourceFirst);
    assert_eq!(lock_order("0b.namespace.lock", "0a.namespace.lock"), CopyLockOrder::TargetFirst);
}
