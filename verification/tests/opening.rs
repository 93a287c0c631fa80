use session_persistence::io_error::{ErrorKind, IoError};
use session_persistence::lease::{Access, LockMode, SessionIdLock};
use session_persistence::load::{
    Auth, Create, CreateEvent, CreateStep, Load, LoadEvent, LoadStep, StorageMode, has_title,
    init_remote_sync,
};
use session_persistence::publish::{FinalizeError, Fault, PublishEvent, PublishStep};
use session_persistence::pull::{
    Pull, PullError, PullEvent, PullFault, PullStep, PulledSession, map_pull_on_miss_result,
    validate_existing_remote_pull,
};
use session_persistence::summary::{Info, Summary, Surroundings};
use session_persistence::timestamp::Timestamp;
use session_persistence::writer::PublishedSessionWrite;

fn info(id: &str, cwd: &str) -> Info {
    Info { id: id.to_string(), cwd: cwd.to_string() }
}

fn lease() -> SessionIdLock {
    SessionIdLock { namespace: None, mutation: Some(LockMode::Shared) }
}

fn denied() -> IoError {
    IoError::new(ErrorKind::PermissionDenied, "denied")
}

fn miss() -> IoError {
    IoError::new(ErrorKind::NotFound, "original local miss")
}

// Pulling.

#[test]
fn remote_pull_publication_existing_winner_rejects_summary_id_mismatch() {
    const REQUESTED_ID: &str = "019c0000-0000-7000-8000-000000000135";
    const RETURNED_ID: &str = "019c0000-0000-7000-8000-000000000136";
    const CWD: &str = "/repo/remote-pull/id-mismatch";
    let path = format!("/sessions/%2Frepo%2Fremote-pull%2Fid-mismatch/{REQUESTED_ID}");

    let error = validate_existing_remote_pull(
        REQUESTED_ID.to_string(),
        Ok(info(RETURNED_ID, CWD)),
        path.clone(),
        path,
        lease(),
    )
    .unwrap_err()
    .into_error();
    assert_eq!(error.kind, ErrorKind::InvalidData);
    assert!(error.message.contains("session id mismatch"));
    assert!(error.message.contains(REQUESTED_ID));
    assert!(error.message.contains(RETURNED_ID));
}

#[test]
fn remote_pull_publication_existing_winner_rejects_summary_cwd_path_mismatch() {
    const SESSION_ID: &str = "019c0000-0000-7000-8000-000000000137";
    const SUMMARY_CWD: &str = "/repo/remote-pull/summary";

    let error = validate_existing_remote_pull(
        SESSION_ID.to_string(),
        Ok(info(SESSION_ID, SUMMARY_CWD)),
        format!("/sessions/%2Frepo%2Fremote-pull%2Fsummary/{SESSION_ID}"),
        format!("/sessions/%2Frepo%2Fremote-pull%2Fphysical/{SESSION_ID}"),
        lease(),
    )
    .unwrap_err()
    .into_error();
    assert_eq!(error.kind, ErrorKind::InvalidData);
    assert!(error.message.contains("session path mismatch"));
    assert!(error.message.contains("%2Frepo%2Fremote-pull%2Fsummary"));
    assert!(error.message.contains("%2Frepo%2Fremote-pull%2Fphysical"));
}

#[test]
fn remote_pull_publication_integrity_error_survives_pull_on_miss_mapping() {
    let integrity = IoError::new(
        ErrorKind::InvalidData,
        "backend returned a mismatched session identity",
    );
    let error = map_pull_on_miss_result(miss(), Err(integrity)).unwrap_err();
    assert_eq!(error.kind, ErrorKind::InvalidData);
    assert_eq!(error.message, "backend returned a mismatched session identity");

    let error = map_pull_on_miss_result(miss(), Ok(None)).unwrap_err();
    assert_eq!(error.kind, ErrorKind::NotFound);
    assert_eq!(error.message, "original local miss");
}

#[test]
fn a_published_session_is_taken_if_it_is_the_one() {
    let pulled = validate_existing_remote_pull(
        "s".to_string(),
        Ok(info("s", "/w")),
        "/sessions/%2Fw/s".to_string(),
        "/sessions/%2Fw/s".to_string(),
        lease(),
    )
    .unwrap();
    assert_eq!(pulled.info.cwd, "/w");
    assert_eq!(pulled.lifetime_lease, lease());
    let e = validate_existing_remote_pull(
        "s".to_string(),
        Err(denied()),
        String::new(),
        String::new(),
        lease(),
    )
    .unwrap_err()
    .into_error();
    assert_eq!(e.kind, ErrorKind::InvalidData);
    assert_eq!(e.message, "canonical pulled session has invalid summary: denied");
}

fn fault(pull: Pull) -> IoError {
    match pull.step {
        PullStep::Finished(Err(fault)) => fault.into_error(),
        step => panic!("{step:?}"),
    }
}

#[test]
fn nothing_is_pulled_without_authentication() {
    let e = fault(Pull::begin("s".to_string(), false));
    assert_eq!(e.kind, ErrorKind::PermissionDenied);
    assert_eq!(e.message, "remote pull requires an authenticated backend client");
}

#[test]
fn remote_pull_publication_two_misses_publish_once_and_hide_partial_tree() {
    // The first one finds the id vacant and publishes what it fetched.
    let first = Pull::begin("s".to_string(), true)
        .step(PullEvent::Fetched(Ok(Some(info("s", "/w")))))
        .step(PullEvent::Claimed(Ok(None)));
    assert!(matches!(first.step, PullStep::BeginStage { .. }));
    let first = first
        .step(PullEvent::Staged(Ok(())))
        .step(PullEvent::Hydrated(Ok(())))
        .step(PullEvent::Published(Ok(())))
        .step(PullEvent::HandedOff(Ok(lease())));
    assert!(matches!(
        first.step,
        PullStep::Finished(Ok(Some(PulledSession { .. })))
    ));
    // The second one finds it published and stages nothing.
    let second = Pull::begin("s".to_string(), true)
        .step(PullEvent::Fetched(Ok(Some(info("s", "/w")))))
        .step(PullEvent::Claimed(Ok(Some(("/sessions/%2Fw/s".to_string(), lease())))));
    assert!(matches!(second.step, PullStep::ReadExisting { .. }));
    let second = second.step(PullEvent::ExistingRead {
        summary: Ok(info("s", "/w")),
        expected_path: "/sessions/%2Fw/s".to_string(),
    });
    assert!(matches!(second.step, PullStep::Finished(Ok(Some(_)))));
}

#[test]
fn what_the_backend_answers_decides() {
    let fetch = |result| Pull::begin("s".to_string(), true).step(PullEvent::Fetched(result));
    assert!(matches!(fetch(Ok(None)).step, PullStep::Finished(Ok(None))));
    let e = fault(fetch(Err(PullError::SessionIdMismatch("other id".to_string()))));
    assert_eq!((e.kind, e.message.as_str()), (ErrorKind::InvalidData, "other id"));
    let e = fault(fetch(Err(PullError::MalformedSession("no head".to_string()))));
    assert_eq!((e.kind, e.message.as_str()), (ErrorKind::InvalidData, "no head"));
    let e = fault(fetch(Err(PullError::Backend("503".to_string()))));
    assert_eq!((e.kind, e.message.as_str()), (ErrorKind::Other, "503"));
}

#[test]
fn a_committed_pull_needs_no_acknowledgement_of_durability() {
    let publish = |result| {
        Pull::begin("s".to_string(), true)
            .step(PullEvent::Fetched(Ok(Some(info("s", "/w")))))
            .step(PullEvent::Claimed(Ok(None)))
            .step(PullEvent::Staged(Ok(())))
            .step(PullEvent::Hydrated(Ok(())))
            .step(PullEvent::Published(Err(result)))
    };
    let late = publish(FinalizeError::CommittedDurability(Fault::Io(denied())));
    assert!(matches!(late.step, PullStep::HandOff { .. }));
    let failed = publish(FinalizeError::NotCommitted(Fault::CwdMismatch));
    assert_eq!(
        fault(failed).message,
        "published cwd metadata does not exactly match the session cwd"
    );
    let moved = publish(FinalizeError::CommittedIdentity(Fault::Io(denied())));
    assert_eq!(fault(moved).kind, ErrorKind::PermissionDenied);
}

#[test]
fn failures_on_the_way_end_a_pull() {
    let fetched = || {
        Pull::begin("s".to_string(), true).step(PullEvent::Fetched(Ok(Some(info("s", "/w")))))
    };
    assert_eq!(fault(fetched().step(PullEvent::Claimed(Err(denied())))).message, "denied");
    let vacant = || fetched().step(PullEvent::Claimed(Ok(None)));
    assert_eq!(fault(vacant().step(PullEvent::Staged(Err(denied())))).message, "denied");
    let e = fault(
        vacant()
            .step(PullEvent::Staged(Ok(())))
            .step(PullEvent::Hydrated(Err("torn".to_string()))),
    );
    assert_eq!((e.kind, e.message.as_str()), (ErrorKind::Other, "torn"));
    let e = fault(
        vacant()
            .step(PullEvent::Staged(Ok(())))
            .step(PullEvent::Hydrated(Ok(())))
            .step(PullEvent::Published(Ok(())))
            .step(PullEvent::HandedOff(Err(denied()))),
    );
    assert_eq!(e.message, "denied");
    let full = IoError {
        kind: ErrorKind::StorageFull,
        raw_os_error: Some(28),
        message: "no space".to_string(),
    };
    let e = fault(vacant().step(PullEvent::Staged(Err(full))));
    assert_eq!((e.kind, e.raw_os_error), (ErrorKind::StorageFull, Some(28)));
    assert!(matches!(PullFault::Io(denied()), PullFault::Io(_)));
}

// Loading.

#[test]
fn a_stored_session_is_loaded_under_its_lease() {
    let load: Load<&str> = Load::begin(info("s", "/w"), true)
        .step(LoadEvent::Locked(Ok(())))
        .step(LoadEvent::Content(Ok("content")))
        .step(LoadEvent::Retained(Ok(lease())))
        .step(LoadEvent::Touched)
        .step(LoadEvent::RemoteSync(Ok(())));
    match load.step {
        LoadStep::Finished(Ok(loaded)) => {
            assert_eq!(loaded.persisted, "content");
            assert_eq!(loaded.info.id, "s");
            assert_eq!(loaded.lifetime_lease, lease());
        }
        step => panic!("{step:?}"),
    }
}

#[test]
fn the_backend_is_asked_after_a_miss() {
    let missed = |backend| -> Load<&str> {
        Load::begin(info("s", "/w"), backend)
            .step(LoadEvent::Locked(Ok(())))
            .step(LoadEvent::Content(Err(miss())))
    };
    assert!(matches!(missed(false).step, LoadStep::Finished(Err(_))));
    let pulled = PulledSession { info: info("s", "/elsewhere"), lifetime_lease: lease() };
    let load = missed(true)
        .step(LoadEvent::Pulled(Ok(Some(pulled))))
        .step(LoadEvent::Content(Ok("pulled")))
        .step(LoadEvent::Touched)
        .step(LoadEvent::RemoteSync(Ok(())));
    match load.step {
        LoadStep::Finished(Ok(loaded)) => assert_eq!(loaded.info.cwd, "/elsewhere"),
        step => panic!("{step:?}"),
    }
    match missed(true).step(LoadEvent::Pulled(Ok(None))).step {
        LoadStep::Finished(Err(e)) => assert_eq!(e.message, "original local miss"),
        step => panic!("{step:?}"),
    }
    let broken: Load<&str> = Load::begin(info("s", "/w"), true)
        .step(LoadEvent::Locked(Ok(())))
        .step(LoadEvent::Content(Err(denied())));
    assert!(matches!(broken.step, LoadStep::Finished(Err(_))));
}

#[test]
fn a_load_ends_only_after_the_worktree_is_touched() {
    let retained = || -> Load<&str> {
        Load::begin(info("s", "/w"), true)
            .step(LoadEvent::Locked(Ok(())))
            .step(LoadEvent::Content(Ok("content")))
            .step(LoadEvent::Retained(Ok(lease())))
    };
    match retained().step {
        LoadStep::TouchWorktree { loaded } => assert_eq!(loaded.info.cwd, "/w"),
        step => panic!("{step:?}"),
    }
    let touched = retained().step(LoadEvent::Touched);
    assert!(matches!(touched.step, LoadStep::InitRemoteSync { .. }));
    match touched.step(LoadEvent::RemoteSync(Err(denied()))).step {
        LoadStep::Finished(Err(e)) => assert_eq!(e.message, "denied"),
        step => panic!("{step:?}"),
    }
    let pulled = PulledSession { info: info("s", "/elsewhere"), lifetime_lease: lease() };
    let load: Load<&str> = Load::begin(info("s", "/w"), true)
        .step(LoadEvent::Locked(Ok(())))
        .step(LoadEvent::Content(Err(miss())))
        .step(LoadEvent::Pulled(Ok(Some(pulled))))
        .step(LoadEvent::Content(Ok("pulled")));
    match load.step {
        LoadStep::TouchWorktree { loaded } => assert_eq!(loaded.info.cwd, "/elsewhere"),
        step => panic!("{step:?}"),
    }
}

#[test]
fn writeback_needs_authentication() {
    assert_eq!(init_remote_sync(StorageMode::Local, Auth::Absent, None).unwrap(), false);
    let e = init_remote_sync(StorageMode::Writeback, Auth::Absent, Some("grok")).unwrap_err();
    assert_eq!(e.kind, ErrorKind::PermissionDenied);
    assert_eq!(
        e.message,
        "Writeback storage mode requires authentication. Run `grok login` first."
    );
    let e = init_remote_sync(StorageMode::Writeback, Auth::Absent, None).unwrap_err();
    assert_eq!(e.message, "Writeback storage mode requires authentication. Sign in first.");
    let sync = |auth| init_remote_sync(StorageMode::Writeback, auth, None).unwrap();
    assert!(sync(Auth::NotLoaded));
    assert!(sync(Auth::Loaded { zero_data_retention: false }));
    assert!(!sync(Auth::Loaded { zero_data_retention: true }));
}

// Making sessions.

fn summary(model: &str) -> Summary {
    let around = Surroundings {
        created_at: Timestamp { seconds: 1, nanos: 0 },
        updated_at: Timestamp { seconds: 1, nanos: 0 },
        git_root_dir: None,
        git_remotes: Vec::new(),
        head_commit: None,
        head_branch: None,
        grok_home: None,
        worktree_label: None,
    };
    Summary::new(&info("s", "/w"), model.to_string(), around)
}

#[test]
fn fresh_sessions_are_claimed_first() {
    let create = Create::begin(false, "m".to_string());
    assert!(matches!(create.step, CreateStep::Claim));
    let create = create
        .step(CreateEvent::Done(Ok(())))
        .step(CreateEvent::Initialized(Ok(summary("m"))));
    assert!(matches!(create.step, CreateStep::InitRemoteSync));
    assert_eq!(create.summary.as_ref().unwrap().session_kind, None);
    let create = create.step(CreateEvent::Done(Ok(())));
    assert!(matches!(create.step, CreateStep::Finished(Ok(()))));
}

#[test]
fn a_stored_model_that_differs_is_replaced() {
    let create = Create::begin(false, "m".to_string())
        .step(CreateEvent::Done(Ok(())))
        .step(CreateEvent::Initialized(Ok(summary("other"))));
    assert!(matches!(create.step, CreateStep::UpdateModel));
    let create = create.step(CreateEvent::Done(Ok(())));
    assert!(matches!(create.step, CreateStep::InitRemoteSync));
    assert_eq!(create.summary.unwrap().current_model_id, "m");
}

#[test]
fn sessions_in_a_given_directory_are_subagents() {
    let create = Create::begin(true, "m".to_string());
    assert!(matches!(create.step, CreateStep::InitSession));
    let create = create.step(CreateEvent::Initialized(Ok(summary("m"))));
    assert!(matches!(create.step, CreateStep::TouchWorktree));
    let create = create.step(CreateEvent::Touched);
    assert!(matches!(create.step, CreateStep::WriteSummary));
    assert_eq!(create.summary.as_ref().unwrap().session_kind.as_deref(), Some("subagent"));
    let create = create.step(CreateEvent::Done(Ok(())));
    assert!(matches!(create.step, CreateStep::Finished(Ok(()))));

    let mut known = summary("m");
    known.session_kind = Some("subagent_fork".to_string());
    let create = Create::begin(true, "m".to_string()).step(CreateEvent::Initialized(Ok(known)));
    assert_eq!(create.summary.unwrap().session_kind.as_deref(), Some("subagent_fork"));
    let failed =
        Create::begin(true, "m".to_string()).step(CreateEvent::Initialized(Err(denied())));
    assert!(matches!(failed.step, CreateStep::Finished(Err(_))));
}

#[test]
fn titled_sessions_need_no_title() {
    let mut s = summary("m");
    assert!(!has_title(&s));
    s.session_summary = " ".to_string();
    assert!(has_title(&s));
    s.generated_title = Some("T".to_string());
    assert!(has_title(&s));
}

// Writers.

fn writer(dir: Option<&'static str>) -> PublishedSessionWrite<&'static str> {
    let lock =
        SessionIdLock { namespace: Some(LockMode::Exclusive), mutation: Some(LockMode::Exclusive) };
    PublishedSessionWrite::over(Access { lock, dir })
}

#[test]
fn unpublished_write_drop_removes_partial_private_tree() {
    let w = writer(None);
    assert!(!w.is_busy() && !w.reclaims_on_drop());
    let w = w.staged("%2Fw".to_string(), "/sessions/%2Fw/s");
    assert!(w.is_busy() && w.reclaims_on_drop());
}

#[test]
fn published_write_precommit_failure_restores_stage_for_drop_cleanup() {
    let w = writer(None).staged("%2Fw".to_string(), "/sessions/%2Fw/s");
    let p = w.publish_new().unwrap().step(PublishEvent::Summary(Err(denied())));
    assert!(matches!(p.step, PublishStep::Finished(Err(FinalizeError::NotCommitted(_)))));
    let w = w.published(&p);
    assert!(w.reclaims_on_drop());
    let e = w.into_lifetime_read(lease(), Ok(())).unwrap_err();
    assert_eq!((e.kind, e.message.as_str()), (ErrorKind::NotFound, "session was not published"));
}

#[test]
fn published_write_post_commit_sync_failure_preserves_visible_directory() {
    let w = writer(None).staged("%2Fw".to_string(), "/sessions/%2Fw/s");
    let mut p = w.publish_new().unwrap().step(PublishEvent::Summary(Ok("/w".to_string())));
    while !matches!(p.step, PublishStep::Finished(_)) {
        let event = match p.step {
            PublishStep::Verify(_) => PublishEvent::Identity(Ok(true)),
            PublishStep::SyncPublished => PublishEvent::Done(Err(denied())),
            _ => PublishEvent::Done(Ok(())),
        };
        p = p.step(event);
    }
    let w = w.published(&p);
    assert!(!w.reclaims_on_drop());
    let (dir, lock) = w.into_lifetime_read(lease(), Ok(())).unwrap();
    assert_eq!((dir, lock), ("/sessions/%2Fw/s", lease()));
}

#[test]
fn writers_without_a_stage_publish_nothing() {
    let e = writer(None).publish_new().unwrap_err();
    assert_eq!(e.kind, ErrorKind::NotFound);
    assert_eq!(e.message, "no private staged session to publish");
    assert!(writer(Some("dir")).is_busy());
    assert!(writer(Some("dir")).into_lifetime_read(lease(), Err(denied())).is_err());
}
