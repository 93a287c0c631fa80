use session_persistence::cleanup::{
    Age, CleanupEvent, CleanupLevel, CleanupStats, CleanupStep, CleanupWalk, DirProbe, EntryProbe,
    SummaryProbe, is_stale, resolve_cleanup_ttl_days,
};
use session_persistence::deletion::{
    BackendError, DeleteEvent, DeleteSessionError, DeleteStep, SessionDeletion,
    classify_remote_delete, delete_session_history,
};
use session_persistence::io_error::{ErrorKind, IoError};
use session_persistence::summary::Info;

#[test]
fn remote_ok_reports_removed() {
    assert!(
        classify_remote_delete(Ok(())).unwrap(),
        "a 2xx delete must report that a remote copy was removed"
    );
}

#[test]
fn remote_404_is_treated_as_already_deleted() {
    let removed = classify_remote_delete(Err(BackendError::RequestFailed { status: 404 }))
        .expect("a 404 means the remote copy is gone, deletion must stay idempotent");
    assert!(!removed, "a 404 must report that nothing was removed remotely");
}

#[test]
fn remote_non_404_request_failure_aborts() {
    let res = classify_remote_delete(Err(BackendError::RequestFailed { status: 500 }));
    assert!(matches!(res, Err(DeleteSessionError::Remote(_))));
}

#[test]
fn remote_auth_failure_aborts() {
    let res = classify_remote_delete(Err(BackendError::Auth("denied".to_string())));
    assert!(matches!(res, Err(DeleteSessionError::Remote(_))));
}

#[test]
fn any_removed_reflects_either_location() {
    assert!(!SessionDeletion::default().any_removed());
    assert!(SessionDeletion { local_removed: true, remote_removed: false }.any_removed());
    assert!(
        SessionDeletion { local_removed: false, remote_removed: true }.any_removed(),
        "a remote-only delete must count as removed"
    );
}

fn info() -> Info {
    Info { id: "s".to_string(), cwd: "/w".to_string() }
}

fn run_deletion(needs_remote: bool, events: Vec<DeleteEvent>) -> DeleteStep {
    let mut d = delete_session_history(needs_remote);
    for event in events {
        d = d.step(event);
    }
    d.step
}

#[test]
fn deletion_removes_both_copies() {
    let step = run_deletion(
        true,
        vec![
            DeleteEvent::Locked(Ok(())),
            DeleteEvent::Resolved(Ok(Some(info()))),
            DeleteEvent::RemoteDeleted(Ok(())),
            DeleteEvent::LocalDeleted(Ok(())),
        ],
    );
    assert!(matches!(step, DeleteStep::Evict { remote_removed: true, .. }));
    let step = run_deletion(
        true,
        vec![
            DeleteEvent::Locked(Ok(())),
            DeleteEvent::Resolved(Ok(Some(info()))),
            DeleteEvent::RemoteDeleted(Ok(())),
            DeleteEvent::LocalDeleted(Ok(())),
            DeleteEvent::Evicted,
        ],
    );
    let expected = SessionDeletion { local_removed: true, remote_removed: true };
    assert!(matches!(step, DeleteStep::Finished(Ok(d)) if d == expected));
}

#[test]
fn remote_failure_leaves_the_local_copy() {
    let step = run_deletion(
        true,
        vec![
            DeleteEvent::Locked(Ok(())),
            DeleteEvent::Resolved(Ok(Some(info()))),
            DeleteEvent::RemoteDeleted(Err(BackendError::RequestFailed { status: 500 })),
        ],
    );
    assert!(matches!(step, DeleteStep::Finished(Err(DeleteSessionError::Remote(_)))));
}

#[test]
fn local_deletion_without_remote_copy() {
    let step = run_deletion(
        false,
        vec![DeleteEvent::Locked(Ok(())), DeleteEvent::Resolved(Ok(Some(info())))],
    );
    assert!(matches!(step, DeleteStep::DeleteLocal { remote_removed: false, .. }));
}

#[test]
fn deleting_nothing_is_a_success() {
    let nothing = SessionDeletion { local_removed: false, remote_removed: false };
    let step = run_deletion(
        false,
        vec![DeleteEvent::Locked(Ok(())), DeleteEvent::Resolved(Ok(None))],
    );
    assert!(matches!(step, DeleteStep::Finished(Ok(d)) if d == nothing));
    let step = run_deletion(
        true,
        vec![
            DeleteEvent::Locked(Ok(())),
            DeleteEvent::Resolved(Ok(None)),
            DeleteEvent::RemoteDeleted(Err(BackendError::RequestFailed { status: 404 })),
        ],
    );
    assert!(matches!(step, DeleteStep::Finished(Ok(d)) if d == nothing));
}

#[test]
fn deletion_failures_say_where() {
    let e = || IoError::new(ErrorKind::PermissionDenied, "no");
    let step = run_deletion(false, vec![DeleteEvent::Locked(Err(e()))]);
    match step {
        DeleteStep::Finished(Err(f)) => {
            assert_eq!(f.message("-"), "failed to resolve local session: no")
        }
        _ => panic!("locking failed"),
    }
    let step = run_deletion(
        false,
        vec![DeleteEvent::Locked(Ok(())), DeleteEvent::Resolved(Err(e()))],
    );
    assert!(matches!(step, DeleteStep::Finished(Err(DeleteSessionError::List(_)))));
    let step = run_deletion(
        false,
        vec![
            DeleteEvent::Locked(Ok(())),
            DeleteEvent::Resolved(Ok(Some(info()))),
            DeleteEvent::LocalDeleted(Err(e())),
        ],
    );
    match step {
        DeleteStep::Finished(Err(f)) => assert_eq!(f.message("-"), "failed to delete session: no"),
        _ => panic!("deletion failed"),
    }
    let remote = DeleteSessionError::Remote(BackendError::Other("x".to_string()));
    assert_eq!(remote.message("HTTP 500"), "failed to delete remote session data: HTTP 500");
}

// The walk.

#[test]
fn ttl_comes_from_a_positive_setting() {
    assert_eq!(resolve_cleanup_ttl_days(None), 30);
    assert_eq!(resolve_cleanup_ttl_days(Some(0)), 30);
    assert_eq!(resolve_cleanup_ttl_days(Some(-5)), 30);
    assert_eq!(resolve_cleanup_ttl_days(Some(7)), 7);
    assert_eq!(resolve_cleanup_ttl_days(Some(0xFFFF_FFFF)), u32::MAX);
    assert_eq!(resolve_cleanup_ttl_days(Some(0x1_0000_0000)), u32::MAX, "not zero days");
}

fn age(secs: u64, nanos: u32) -> Option<Age> {
    Some(Age { secs, nanos })
}

#[test]
fn staleness_starts_past_the_ttl() {
    assert!(!is_stale(None, 0));
    assert!(!is_stale(age(86400, 0), 1));
    assert!(is_stale(age(86400, 1), 1));
    assert!(is_stale(age(86401, 0), 1));
    assert!(!is_stale(age(0, 0), 0));
    assert!(is_stale(age(u64::MAX, 0), u32::MAX));
}

fn open_dir(name: &str) -> CleanupEvent {
    CleanupEvent::Opened(DirProbe {
        unpublished: false,
        name: Some(name.to_string()),
        kept: false,
        listed: true,
    })
}

fn dir(summary: SummaryProbe) -> CleanupEvent {
    CleanupEvent::Entry(EntryProbe::Dir { protected: false, summary, utf8_name: true })
}

fn file(days: u64) -> CleanupEvent {
    CleanupEvent::Entry(EntryProbe::Other { age: age(days * 86400, 0) })
}

fn walk(events: Vec<CleanupEvent>) -> CleanupWalk {
    let mut w = CleanupWalk::begin(30);
    for event in events {
        assert!(w.accepts(&event), "{:?} in {:?}", event, w.step);
        w.step(event);
    }
    w
}

#[test]
fn walk_removes_stale_files_and_emptied_directories() {
    let w = walk(vec![
        open_dir("sessions"),
        dir(SummaryProbe::Missing),
        open_dir("%2Fw"),
        dir(SummaryProbe::Regular),
        CleanupEvent::Leased(true),
        open_dir("session"),
        file(31),
        CleanupEvent::FileRemoved(true),
        file(29),
        file(31),
        CleanupEvent::FileRemoved(false),
        CleanupEvent::NoMoreEntries,
        CleanupEvent::DirRemoved(false),
        CleanupEvent::NoMoreEntries,
        CleanupEvent::DirRemoved(true),
        CleanupEvent::NoMoreEntries,
    ]);
    assert_eq!(w.step, CleanupStep::Finished);
    assert_eq!(w.stats, CleanupStats { files_deleted: 1, dirs_removed: 1, errors: 1 });
}

#[test]
fn walk_leaves_directories_without_deletions() {
    let w = walk(vec![
        open_dir("sessions"),
        dir(SummaryProbe::Missing),
        open_dir("%2Fw"),
        dir(SummaryProbe::Missing),
        open_dir("stub"),
        CleanupEvent::NoMoreEntries,
    ]);
    assert_eq!(w.step, CleanupStep::NextEntry);
    assert_eq!(w.stack.len(), 2);
    assert_eq!(w.stack[1].level, CleanupLevel::Cwd);
}

#[test]
fn walk_stays_out_of_closed_directories() {
    for closed in [
        DirProbe { unpublished: true, name: Some("a".to_string()), kept: false, listed: true },
        DirProbe { unpublished: false, name: Some(".a".to_string()), kept: false, listed: true },
        DirProbe { unpublished: false, name: Some("a".to_string()), kept: true, listed: true },
        DirProbe { unpublished: false, name: None, kept: false, listed: false },
    ] {
        let mut w = walk(vec![open_dir("sessions"), dir(SummaryProbe::Missing)]);
        w.step(CleanupEvent::Opened(closed));
        assert_eq!(w.step, CleanupStep::NextEntry);
        assert_eq!(w.stack.len(), 1);
        assert_eq!(w.stats, CleanupStats { files_deleted: 0, dirs_removed: 0, errors: 0 });
    }
}

#[test]
fn walk_passes_over_what_it_must_keep() {
    let before = || {
        vec![open_dir("sessions"), dir(SummaryProbe::Missing), open_dir("%2Fw")]
    };
    for (entry, step, errors) in [
        (EntryProbe::Kept, CleanupStep::NextEntry, 0),
        (EntryProbe::Unreadable, CleanupStep::NextEntry, 1),
        (EntryProbe::NoMetadata, CleanupStep::NextEntry, 1),
        (
            EntryProbe::Dir {
                protected: false,
                summary: SummaryProbe::Unreadable,
                utf8_name: true,
            },
            CleanupStep::NextEntry,
            1,
        ),
        (
            EntryProbe::Dir {
                protected: false,
                summary: SummaryProbe::Irregular,
                utf8_name: true,
            },
            CleanupStep::NextEntry,
            0,
        ),
        (
            EntryProbe::Dir { protected: false, summary: SummaryProbe::Regular, utf8_name: false },
            CleanupStep::NextEntry,
            0,
        ),
        (
            EntryProbe::Dir { protected: false, summary: SummaryProbe::Regular, utf8_name: true },
            CleanupStep::Lease,
            0,
        ),
    ] {
        let mut w = walk(before());
        w.step(CleanupEvent::Entry(entry));
        assert_eq!(w.step, step, "{entry:?}");
        assert_eq!(w.stats.errors, errors, "{entry:?}");
    }
    let mut w = walk(before());
    w.step(dir(SummaryProbe::Regular));
    w.step(CleanupEvent::Leased(false));
    assert_eq!(w.step, CleanupStep::NextEntry);
    let mut w = walk(vec![open_dir("sessions")]);
    w.step(CleanupEvent::Entry(EntryProbe::Dir {
        protected: true,
        summary: SummaryProbe::Missing,
        utf8_name: true,
    }));
    assert_eq!(w.step, CleanupStep::NextEntry);
    assert_eq!(w.stack.len(), 1);
}

#[test]
fn walk_refuses_events_out_of_turn() {
    let w = CleanupWalk::begin(1);
    assert!(!w.accepts(&CleanupEvent::NoMoreEntries));
    assert!(!w.accepts(&CleanupEvent::FileRemoved(true)));
    assert!(w.accepts(&open_dir("x")));
}
