use session_persistence::io_error::{ErrorKind, IoError};
use session_persistence::resolve::{
    CandidateCwd, ChildCandidate, CwdDir, LocalSessionResolutionKind, SessionsRoot, StoredSession,
    SummaryRead, find_local_child_for_remote, is_stamped_after, newest_child,
    resolve_local_session, resolve_local_session_for_repo, restored_child,
    session_exists_for_cwd,
};
use session_persistence::summary::{Info, Summary, Surroundings};
use session_persistence::timestamp::{Timestamp, parse_rfc3339};
use session_persistence::view::{
    SessionsView, ViewedSession, find_deletable_local_info, find_session_dir_by_id,
    find_summary_by_session_id, local_summaries_for_cwd_sync, most_recent_local_summary_for_cwd,
    resolve_local_session_any_cwd, resolve_published_session_dir_locked,
    resumed_session_sandbox_profile, session_exists_in_root,
};

/// One directory with what is in it.
struct Dir {
    cwd: String,
    session: StoredSession,
}

fn stored(name: &str) -> StoredSession {
    StoredSession {
        name: Some(name.to_string()),
        is_dir: true,
        unpublished: false,
        summary_exists: true,
        summary_is_file: true,
        raw_summary: Some("{}".to_string()),
        summary: SummaryRead::Malformed,
        mtime_nanos: 0,
    }
}

fn stub(name: &str) -> StoredSession {
    StoredSession {
        summary_exists: false,
        summary_is_file: false,
        raw_summary: None,
        summary: SummaryRead::Failed(IoError::new(ErrorKind::NotFound, "missing")),
        ..stored(name)
    }
}

fn child(name: &str, raw: &str) -> StoredSession {
    StoredSession { raw_summary: Some(raw.to_string()), ..stored(name) }
}

fn at(cwd: &str, session: StoredSession) -> Dir {
    Dir { cwd: cwd.to_string(), session }
}

fn dirname(cwd: &str) -> String {
    cwd.replace('/', "%2F")
}

fn root(dirs: Vec<Dir>) -> SessionsRoot {
    let mut r = SessionsRoot { dirs: Vec::new() };
    for dir in dirs {
        let name = dirname(&dir.cwd);
        if let Some(known) = r.dirs.iter_mut().find(|d| d.dirname == name) {
            known.sessions.push(dir.session);
        } else {
            r.dirs.push(CwdDir { dirname: name, sessions: vec![dir.session] });
        }
    }
    r
}

fn view(dirs: Vec<Dir>) -> SessionsView {
    SessionsView {
        sessions: dirs
            .into_iter()
            .map(|d| ViewedSession {
                dirname: dirname(&d.cwd),
                cwd: Some(d.cwd),
                session: d.session,
            })
            .collect(),
    }
}

fn day(month: i64) -> Timestamp {
    Timestamp { seconds: month * 2_600_000, nanos: 0 }
}

fn summary(id: &str, cwd: &str) -> Summary {
    Summary::new(
        &Info { id: id.to_string(), cwd: cwd.to_string() },
        "grok-3".to_string(),
        Surroundings {
            created_at: day(1),
            updated_at: day(1),
            git_root_dir: None,
            git_remotes: Vec::new(),
            head_commit: None,
            head_branch: None,
            grok_home: None,
            worktree_label: None,
        },
    )
}

fn session(
    cwd: &str,
    id: &str,
    updated_at: Timestamp,
    last_active_at: Option<Timestamp>,
    profile: Option<&str>,
    hidden: bool,
) -> Dir {
    let mut s = summary(id, cwd);
    s.updated_at = updated_at;
    s.last_active_at = last_active_at;
    s.sandbox_profile = profile.map(str::to_string);
    s.hidden = if hidden { Some(true) } else { None };
    at(cwd, StoredSession { summary: SummaryRead::Read(s), ..stored(id) })
}

// Any working directory.

#[test]
fn returns_false_when_root_does_not_exist() {
    assert!(!session_exists_in_root("any-id", &view(vec![])));
}

#[test]
fn returns_false_when_root_is_empty() {
    assert!(!session_exists_in_root("my-session", &view(vec![])));
}

#[test]
fn returns_true_when_session_dir_exists_under_any_cwd() {
    let v = view(vec![at("some_cwd_dir", stored("my-session-id"))]);
    assert!(session_exists_in_root("my-session-id", &v));
}

#[test]
fn returns_false_when_session_id_is_a_file_not_a_dir() {
    let file = StoredSession { is_dir: false, ..stub("my-session-id") };
    assert!(!session_exists_in_root("my-session-id", &view(vec![at("some_cwd_dir", file)])));
}

#[test]
fn returns_false_for_different_session_id() {
    let v = view(vec![at("some_cwd_dir", stub("session-a"))]);
    assert!(!session_exists_in_root("session-b", &v));
}

#[test]
fn finds_session_across_multiple_cwd_dirs() {
    let v = view(vec![at("cwd1", stored("other-session")), at("cwd2", stored("target-session"))]);
    assert!(session_exists_in_root("target-session", &v));
    assert!(!session_exists_in_root("missing-session", &v));
}

#[test]
fn returns_none_when_root_missing() {
    assert!(find_summary_by_session_id("any", &view(vec![])).is_none());
}

#[test]
fn returns_none_when_no_matching_session() {
    let v = view(vec![session("cwd1", "other-id", day(1), None, None, false)]);
    assert!(find_summary_by_session_id("missing-id", &v).is_none());
}

#[test]
fn finds_summary_across_cwd_dirs() {
    let mut s = summary("test-session", "/tmp");
    s.head_commit = Some("deadbeef".to_string());
    s.head_branch = Some("feature/x".to_string());
    let entry = StoredSession { summary: SummaryRead::Read(s), ..stored("target-session") };
    let v = view(vec![at("encoded_cwd", entry)]);
    let found = find_summary_by_session_id("target-session", &v).unwrap();
    assert_eq!(found.head_commit.as_deref(), Some("deadbeef"));
    assert_eq!(found.head_branch.as_deref(), Some("feature/x"));
}

#[test]
fn skips_malformed_summary() {
    let v = view(vec![at("cwd1", stored("bad-session"))]);
    assert!(find_summary_by_session_id("bad-session", &v).is_none());
}

#[test]
fn find_summary_by_session_id_reads_cross_cwd_uuid() {
    let id = "019f870d-6976-7d73-a12a-52e9d4aebcd4";
    let cwd = "/project/elsewhere";
    let mut s = summary(id, cwd);
    s.session_summary = "cross-cwd hit".to_string();
    let entry = StoredSession { summary: SummaryRead::Read(s), ..stored(id) };
    let v = view(vec![at(cwd, entry)]);
    let found = find_summary_by_session_id(id, &v).expect("found by id across cwds");
    assert_eq!(found.info.id, id);
    assert_eq!(found.info.cwd, cwd);
    assert_eq!(found.session_summary, "cross-cwd hit");
}

#[test]
fn resolve_local_session_any_cwd_skips_stub_and_finds_real() {
    let v = view(vec![
        at("/project/beta", stub("real-session")),
        at("/project/alpha", stored("real-session")),
    ]);
    assert_eq!(
        resolve_local_session_any_cwd("real-session", &v).as_deref(),
        Some("/project/alpha"),
        "must anchor to the real session's cwd, not the stub's"
    );
}

#[test]
fn session_dir_lookup_takes_stubs_too() {
    let v = view(vec![
        at("/project/beta", stub("real-session")),
        at("/project/alpha", stored("real-session")),
    ]);
    let found = find_session_dir_by_id("real-session", &v).expect("a directory");
    assert_eq!(found.dirname, "%2Fproject%2Fbeta");
    assert!(find_session_dir_by_id("other", &v).is_none());
    let file = StoredSession { is_dir: false, ..stub("real-session") };
    assert!(find_session_dir_by_id("real-session", &view(vec![at("/a", file)])).is_none());
}

// One working directory.

#[test]
fn returns_true_when_session_exists_under_matching_cwd() {
    let r = root(vec![at("/project/alpha", stored("my-session"))]);
    assert!(session_exists_for_cwd("my-session", &dirname("/project/alpha"), &r));
}

#[test]
fn unpublished_session_is_hidden_from_direct_and_all_cwd_resolution() {
    let pending = || StoredSession { unpublished: true, ..stored("pending-session") };
    let cwd = "/project/pending";
    let r = root(vec![at(cwd, pending())]);
    let v = view(vec![at(cwd, pending())]);
    assert!(!session_exists_for_cwd("pending-session", &dirname(cwd), &r));
    assert!(!session_exists_in_root("pending-session", &v));
    assert_eq!(resolve_local_session_any_cwd("pending-session", &v), None);
}

#[test]
fn returns_false_when_session_absent_under_cwd() {
    assert!(!session_exists_for_cwd("missing", &dirname("/project/alpha"), &root(vec![])));
}

#[test]
fn session_under_different_cwd_is_not_considered_present() {
    let id = "cross-cwd-session";
    let r = root(vec![at("/project/alpha", stored(id))]);
    let v = view(vec![at("/project/alpha", stored(id))]);
    assert!(session_exists_in_root(id, &v), "global scan must find the session under cwd-A");
    assert!(
        !session_exists_for_cwd(id, &dirname("/project/beta"), &r),
        "cwd-specific check must return false for cwd-B; remote restore must not be skipped"
    );
    assert!(
        session_exists_for_cwd(id, &dirname("/project/alpha"), &r),
        "cwd-specific check must return true for the matching cwd-A"
    );
}

#[test]
fn images_only_stub_is_not_a_session() {
    let r = root(vec![at("/project/alpha", stub("stub-session"))]);
    assert!(!session_exists_for_cwd("stub-session", &dirname("/project/alpha"), &r));
}

#[test]
fn published_dir_prefers_the_named_cwd() {
    let r = root(vec![at("/b", stored("s"))]);
    let v = view(vec![at("/a", stored("s")), at("/b", stored("s"))]);
    let found = resolve_published_session_dir_locked("s", Some("%2Fb"), &r, &v);
    assert_eq!(found.as_deref(), Some("%2Fb"));
    let found = resolve_published_session_dir_locked("s", Some("%2Fc"), &r, &v);
    assert_eq!(found.as_deref(), Some("%2Fa"));
    let found = resolve_published_session_dir_locked("s", None, &r, &v);
    assert_eq!(found.as_deref(), Some("%2Fa"));
    assert_eq!(resolve_published_session_dir_locked("t", Some("%2Fb"), &r, &v), None);
}

// Restored children.

fn raw_child(parent: &str) -> String {
    format!("{{\"parent_session_id\":\"{parent}\"}}")
}

#[test]
fn returns_child_id_when_parent_matches() {
    let r = root(vec![at("/work", child("local-child-uuid", &raw_child("remote-abc")))]);
    let found = find_local_child_for_remote("remote-abc", &dirname("/work"), &r);
    assert_eq!(found.as_deref(), Some("local-child-uuid"));
}

#[test]
fn unpublished_restored_child_is_not_resolved() {
    let pending = StoredSession {
        unpublished: true,
        ..child("pending-local-child", &raw_child("remote-abc"))
    };
    let r = root(vec![at("/work", pending)]);
    assert!(find_local_child_for_remote("remote-abc", &dirname("/work"), &r).is_none());
}

#[test]
fn returns_none_when_no_child_exists() {
    let r = SessionsRoot {
        dirs: vec![CwdDir { dirname: dirname("/work"), sessions: Vec::new() }],
    };
    assert!(find_local_child_for_remote("remote-abc", &dirname("/work"), &r).is_none());
}

#[test]
fn returns_none_for_different_parent() {
    let r = root(vec![at("/work", child("local-child-uuid", &raw_child("remote-xyz")))]);
    assert!(find_local_child_for_remote("remote-abc", &dirname("/work"), &r).is_none());
}

#[test]
fn repeated_resume_returns_existing_child() {
    let r = root(vec![at("/project", child("child-1", &raw_child("remote-parent")))]);
    let first = find_local_child_for_remote("remote-parent", &dirname("/project"), &r);
    let second = find_local_child_for_remote("remote-parent", &dirname("/project"), &r);
    assert_eq!(first, second);
    assert_eq!(first.as_deref(), Some("child-1"));
}

#[test]
fn duplicate_children_returns_newest_by_updated_at() {
    let cwd = "/project";
    let r = root(vec![
        at(
            cwd,
            child(
                "old-child",
                r#"{"parent_session_id":"remote-parent","updated_at":"2026-01-01T10:00:00Z"}"#,
            ),
        ),
        at(
            cwd,
            child(
                "new-child",
                r#"{"parent_session_id":"remote-parent","updated_at":"2026-06-01T10:00:00Z"}"#,
            ),
        ),
    ]);
    let found = find_local_child_for_remote("remote-parent", &dirname(cwd), &r);
    assert_eq!(found.as_deref(), Some("new-child"), "must return the newest child by updated_at");
}

#[test]
fn duplicate_children_equal_timestamps_stable_tiebreak() {
    let cwd = "/project-tie";
    let raw = r#"{"parent_session_id":"remote-tie","updated_at":"2026-03-15T12:00:00Z"}"#;
    let mut dirs = Vec::new();
    for name in ["aaaa-uuid", "zzzz-uuid", "mmmm-uuid"] {
        let entry =
            StoredSession { mtime_nanos: 1_700_000_000_000_000_000, ..child(name, raw) };
        dirs.push(at(cwd, entry));
    }
    let found = find_local_child_for_remote("remote-tie", &dirname(cwd), &root(dirs));
    assert_eq!(
        found.as_deref(),
        Some("zzzz-uuid"),
        "lexicographically largest id must win the three-way tie"
    );
}

#[test]
fn child_with_later_directory_wins_an_equal_timestamp() {
    let raw = r#"{"parent_session_id":"p","updated_at":"t"}"#;
    let r = root(vec![
        at("/w", StoredSession { mtime_nanos: 2, ..child("a", raw) }),
        at("/w", StoredSession { mtime_nanos: 1, ..child("b", raw) }),
    ]);
    assert_eq!(find_local_child_for_remote("p", "%2Fw", &r).as_deref(), Some("a"));
}

#[test]
fn child_summary_that_is_no_object_is_passed_over() {
    let w = "%2Fw";
    for raw in ["", "not json", "[]", "\"p\"", r#"{"parent_session_id":1}"#, r#"{"x":"p"}"#] {
        let r = root(vec![at("/w", child("c", raw))]);
        assert_eq!(find_local_child_for_remote("p", w, &r), None, "{raw}");
    }
    let r = root(vec![at("/w", child("c", r#"{"parent_session_id":"p"}"#))]);
    assert_eq!(find_local_child_for_remote("p", w, &r).as_deref(), Some("c"));
    let file = StoredSession { is_dir: false, ..child("c", &raw_child("p")) };
    assert_eq!(find_local_child_for_remote("p", w, &root(vec![at("/w", file)])), None);
    let nameless = StoredSession { name: None, ..child("c", &raw_child("p")) };
    assert_eq!(find_local_child_for_remote("p", w, &root(vec![at("/w", nameless)])), None);
}

#[test]
fn newest_child_does_not_depend_on_order() {
    let one = |at: &str, nanos: u128, id: &str| ChildCandidate {
        updated_at: at.to_string(),
        mtime_nanos: nanos,
        session_id: id.to_string(),
    };
    assert_eq!(newest_child(&vec![]), None);
    let up = vec![one("1", 9, "z"), one("2", 1, "a"), one("2", 3, "b"), one("2", 3, "c")];
    let down = vec![one("2", 3, "c"), one("2", 3, "b"), one("2", 1, "a"), one("1", 9, "z")];
    assert_eq!(newest_child(&up).as_deref(), Some("c"));
    assert_eq!(newest_child(&up), newest_child(&down));
}

fn updated(name: &str, at: &str) -> StoredSession {
    child(name, &format!("{{\"parent_session_id\":\"r\",\"updated_at\":\"{at}\"}}"))
}

/// The child found of two that were updated at these times, whichever is
/// listed first.
fn newest_of(a: &str, b: &str) -> String {
    let found = |dirs: Vec<Dir>| find_local_child_for_remote("r", "%2Fw", &root(dirs)).unwrap();
    let one = || at("/w", updated("child-a", a));
    let other = || at("/w", updated("child-b", b));
    let newest = found(vec![one(), other()]);
    assert_eq!(found(vec![other(), one()]), newest);
    newest
}

#[test]
fn newest_child_is_the_latest_in_time() {
    assert_eq!(newest_of("2026-01-01T10:00:00Z", "2026-01-01T10:00:00.500Z"), "child-b");
    assert_eq!(newest_of("2026-01-01T10:00:00.123456Z", "2026-01-01T10:00:00.123Z"), "child-a");
    assert_eq!(newest_of("2026-01-01T10:00:00+02:00", "2026-01-01T09:00:00Z"), "child-b");
    assert_eq!(newest_of("2026-01-01T10:00:00-02:00", "2026-01-01T11:00:00Z"), "child-a");
    assert_eq!(newest_of("2026-01-01T10:00:00Z", "tomorrow"), "child-a");
    assert_eq!(newest_of("soon", "tomorrow"), "child-b");
    // One time in two spellings leaves the choice to the directory and the id.
    assert_eq!(newest_of("2026-01-01T10:00:00.5Z", "2026-01-01T11:00:00.500+01:00"), "child-b");
    assert!(!is_stamped_after("2026-01-01T10:00:00Z", "2026-01-01T10:00:00.000Z"));
    assert!(!is_stamped_after("2026-01-01T10:00:00.000Z", "2026-01-01T10:00:00Z"));
}

#[test]
fn stamps_are_read_as_points_in_time() {
    let read = |text: &str| parse_rfc3339(text).map(|t| (t.seconds, t.nanos));
    for (text, seconds, nanos) in [
        ("1970-01-01T00:00:00Z", 0, 0),
        ("1969-12-31T23:59:59Z", -1, 0),
        ("2026-01-01T10:00:00Z", 1_767_261_600, 0),
        ("2026-01-01t10:00:00z", 1_767_261_600, 0),
        ("2026-01-01 10:00:00+00:00", 1_767_261_600, 0),
        ("2026-01-01T10:00:00+05:30", 1_767_241_800, 0),
        ("2026-01-01T10:00:00.500Z", 1_767_261_600, 500_000_000),
        ("2026-01-01T10:00:00.0000000019Z", 1_767_261_600, 1),
        ("2000-02-29T00:00:00Z", 951_782_400, 0),
        ("1600-02-29T00:00:00Z", -11_670_998_400, 0),
        ("2016-12-31T23:59:60.25Z", 1_483_228_799, 1_250_000_000),
        ("0001-01-01T00:00:00Z", -62_135_596_800, 0),
        ("9999-12-31T23:59:59Z", 253_402_300_799, 0),
    ] {
        assert_eq!(read(text), Some((seconds, nanos)), "{text}");
    }
    for text in [
        "",
        "t",
        "2026-01-01",
        "2026-01-01T10:00:00",
        "2026-01-01T10:00:00.Z",
        "2026-01-01T10:00:00+0200",
        "2026-01-01T10:00:00+24:00",
        "2026-01-01T24:00:00Z",
        "2026-01-01T10:60:00Z",
        "2026-01-01T10:00:61Z",
        "2026-13-01T10:00:00Z",
        "2026-02-29T10:00:00Z",
        "1900-02-29T00:00:00Z",
        "2026-00-10T10:00:00Z",
        "2026-01-00T10:00:00Z",
        "2026/01/01T10:00:00Z",
        "2026-01-01T10:00:00Zx",
        "2026-01-01T1O:00:00Z",
    ] {
        assert_eq!(read(text), None, "{text}");
    }
}

#[test]
fn what_an_id_resolves_to_resolves_to_itself() {
    let r = root(vec![
        at("/w", child("one", &raw_child("remote"))),
        at("/w", child("two", &raw_child("one"))),
    ]);
    let found = resolve_local_session("remote", "%2Fw", &r).unwrap();
    assert_eq!(found, "one");
    assert_eq!(resolve_local_session(&found, "%2Fw", &r).as_deref(), Some("one"));
}

// What an id means.

#[test]
fn exact_match_returns_original_id() {
    let cwd = "/project/alpha";
    let r = root(vec![at(cwd, stored("sess-123"))]);
    assert!(session_exists_for_cwd("sess-123", &dirname(cwd), &r));
    assert_eq!(resolve_local_session("sess-123", &dirname(cwd), &r).as_deref(), Some("sess-123"));
}

#[test]
fn child_match_returns_child_id() {
    let cwd = "/project/beta";
    let r = root(vec![at(cwd, child("local-child-xyz", &raw_child("remote-abc")))]);
    assert!(!session_exists_for_cwd("remote-abc", &dirname(cwd), &r));
    assert_eq!(
        find_local_child_for_remote("remote-abc", &dirname(cwd), &r).as_deref(),
        Some("local-child-xyz")
    );
    assert_eq!(
        resolve_local_session("remote-abc", &dirname(cwd), &r).as_deref(),
        Some("local-child-xyz")
    );
}

#[test]
fn no_match_returns_none() {
    let cwd = "/project/gamma";
    let r = SessionsRoot { dirs: vec![CwdDir { dirname: dirname(cwd), sessions: Vec::new() }] };
    assert!(!session_exists_for_cwd("missing", &dirname(cwd), &r));
    assert_eq!(find_local_child_for_remote("missing", &dirname(cwd), &r), None);
    assert_eq!(resolve_local_session("missing", &dirname(cwd), &r), None);
}

#[test]
fn exact_match_takes_priority_over_child() {
    let cwd = "/project/delta";
    let r = root(vec![
        at(cwd, stored("sess-both")),
        at(cwd, child("local-child-from-same", &raw_child("sess-both"))),
    ]);
    assert!(session_exists_for_cwd("sess-both", &dirname(cwd), &r));
    assert_eq!(resolve_local_session("sess-both", &dirname(cwd), &r).as_deref(), Some("sess-both"));
}

// Several working directories.

fn candidates(cwds: &[&str]) -> Vec<CandidateCwd> {
    cwds.iter()
        .map(|cwd| CandidateCwd { cwd: cwd.to_string(), dirname: dirname(cwd) })
        .collect()
}

fn restored(child_id: &str, parent_id: &str) -> StoredSession {
    child(
        child_id,
        &format!(
            r#"{{"session_id":"{child_id}","parent_session_id":"{parent_id}","updated_at":"2024-01-01T00:00:00Z"}}"#
        ),
    )
}

#[test]
fn exact_cwd_takes_priority_over_same_repo() {
    let cwds = candidates(&["/repo/main", "/repo/worktree-1"]);
    let r = root(vec![
        at("/repo/main", stored("sess-A")),
        at("/repo/worktree-1", stored("sess-A")),
    ]);
    let found = resolve_local_session_for_repo("sess-A", &cwds, &r).unwrap();
    assert_eq!(found.session_id, "sess-A");
    assert_eq!(found.cwd, "/repo/main");
    assert_eq!(found.resolution_kind, LocalSessionResolutionKind::ExactCwd);
}

#[test]
fn skips_images_only_stub_and_resolves_real_sibling() {
    let cwds = candidates(&["/repo/main", "/repo/worktree-1"]);
    let r =
        root(vec![at("/repo/main", stub("sess-A")), at("/repo/worktree-1", stored("sess-A"))]);
    let found = resolve_local_session_for_repo("sess-A", &cwds, &r)
        .expect("must skip the stub and find the real sibling session");
    assert_eq!(found.cwd, "/repo/worktree-1");
    assert_eq!(found.resolution_kind, LocalSessionResolutionKind::SameRepoDifferentCwd);
}

#[test]
fn falls_back_to_same_repo_cwd_when_not_in_exact() {
    let cwds = candidates(&["/repo/main", "/repo/worktree-1"]);
    let r = root(vec![at("/repo/worktree-1", stored("sess-B"))]);
    let found = resolve_local_session_for_repo("sess-B", &cwds, &r).unwrap();
    assert_eq!(found.session_id, "sess-B");
    assert_eq!(found.cwd, "/repo/worktree-1");
    assert_eq!(found.resolution_kind, LocalSessionResolutionKind::SameRepoDifferentCwd);
}

#[test]
fn finds_restored_child_in_exact_cwd() {
    let r = root(vec![at("/repo/main", restored("local-child", "remote-sess"))]);
    let found =
        resolve_local_session_for_repo("remote-sess", &candidates(&["/repo/main"]), &r).unwrap();
    assert_eq!(found.session_id, "local-child");
    assert_eq!(found.cwd, "/repo/main");
    assert_eq!(found.resolution_kind, LocalSessionResolutionKind::RestoredChildInExactCwd);
}

#[test]
fn finds_restored_child_in_same_repo_different_cwd() {
    let cwds = candidates(&["/repo/main", "/repo/worktree-2"]);
    let r = root(vec![at("/repo/worktree-2", restored("restored-child", "remote-sess"))]);
    let found = resolve_local_session_for_repo("remote-sess", &cwds, &r).unwrap();
    assert_eq!(found.session_id, "restored-child");
    assert_eq!(found.cwd, "/repo/worktree-2");
    assert_eq!(
        found.resolution_kind,
        LocalSessionResolutionKind::RestoredChildInSameRepoDifferentCwd
    );
}

#[test]
fn returns_none_when_no_candidate_has_session() {
    let cwds = candidates(&["/cwd-1", "/cwd-2", "/cwd-3"]);
    assert!(resolve_local_session_for_repo("nonexistent", &cwds, &root(vec![])).is_none());
}

#[test]
fn direct_session_preferred_over_restored_child_in_same_cwd() {
    let r = root(vec![
        at("/repo/main", stored("sess-X")),
        at("/repo/main", restored("child-of-X", "sess-X")),
    ]);
    let found =
        resolve_local_session_for_repo("sess-X", &candidates(&["/repo/main"]), &r).unwrap();
    assert_eq!(found.session_id, "sess-X");
    assert_eq!(found.resolution_kind, LocalSessionResolutionKind::ExactCwd);
}

#[test]
fn direct_in_later_cwd_preferred_over_child_in_same_later_cwd() {
    let cwds = candidates(&["/repo/main", "/repo/worktree-1"]);
    let r = root(vec![
        at("/repo/worktree-1", stored("sess-Y")),
        at("/repo/worktree-1", restored("child-of-Y", "sess-Y")),
    ]);
    let found = resolve_local_session_for_repo("sess-Y", &cwds, &r).unwrap();
    assert_eq!(found.session_id, "sess-Y");
    assert_eq!(found.resolution_kind, LocalSessionResolutionKind::SameRepoDifferentCwd);
}

#[test]
fn empty_candidates_returns_none() {
    assert!(resolve_local_session_for_repo("any-sess", &candidates(&[]), &root(vec![])).is_none());
}

// The profile of a session to resume.

fn profile(id: Option<&str>, cwd: Option<&str>, dirs: fn() -> Vec<Dir>) -> Option<String> {
    let name = cwd.map(dirname);
    resumed_session_sandbox_profile(id, name.as_deref(), &root(dirs()), &view(dirs()))
}

#[test]
fn explicit_id_returns_persisted_profile() {
    let dirs = || vec![session("/work/a", "sess-1", day(1), None, Some("strict"), false)];
    assert_eq!(profile(Some("sess-1"), None, dirs), Some("strict".to_string()));
}

#[test]
fn explicit_id_without_persisted_profile_is_none() {
    let dirs = || vec![session("/work/a", "sess-old", day(1), None, None, false)];
    assert_eq!(profile(Some("sess-old"), None, dirs), None);
}

#[test]
fn explicit_remote_id_resolves_local_child_profile() {
    let dirs = || {
        let mut s = summary("local-child", "/work/remote");
        s.parent_session_id = Some("remote-xyz".to_string());
        s.sandbox_profile = Some("workspace".to_string());
        let entry = StoredSession {
            summary: SummaryRead::Read(s),
            ..child("local-child", &raw_child("remote-xyz"))
        };
        vec![at("/work/remote", entry)]
    };
    assert_eq!(
        profile(Some("remote-xyz"), Some("/work/remote"), dirs),
        Some("workspace".to_string())
    );
    assert_eq!(profile(Some("remote-xyz"), None, dirs), None);
}

#[test]
fn empty_or_missing_id_and_no_cwd_is_none() {
    assert_eq!(profile(Some(""), None, || vec![]), None);
    assert_eq!(profile(None, None, || vec![]), None);
}

fn most_recent(cwd: &str, dirs: Vec<Dir>) -> Option<String> {
    let v = view(dirs);
    most_recent_local_summary_for_cwd(&dirname(cwd), &v).unwrap().map(|s| s.info.id.clone())
}

#[test]
fn most_recent_cwd_picks_latest_session_profile() {
    let dirs = || {
        vec![
            session("/work/proj", "older", day(1), None, Some("workspace"), false),
            session("/work/proj", "newer", day(6), None, Some("off"), false),
        ]
    };
    assert_eq!(most_recent("/work/proj", dirs()).as_deref(), Some("newer"));
    assert_eq!(profile(None, Some("/work/proj"), dirs), Some("off".to_string()));
}

#[test]
fn most_recent_cwd_skips_corrupt_summary() {
    let dirs = vec![
        session("/work/proj", "valid", day(6), None, Some("workspace"), false),
        at("/work/proj", stored("corrupt")),
    ];
    assert_eq!(most_recent("/work/proj", dirs).as_deref(), Some("valid"));
}

#[test]
fn most_recent_cwd_skips_raced_not_found() {
    let gone = StoredSession {
        summary: SummaryRead::Failed(IoError::new(ErrorKind::NotFound, "injected")),
        ..stored("removed")
    };
    let dirs = vec![
        session("/work/proj", "valid", day(6), None, Some("workspace"), false),
        at("/work/proj", gone),
    ];
    assert_eq!(most_recent("/work/proj", dirs).as_deref(), Some("valid"));
}

#[test]
fn most_recent_cwd_propagates_non_not_found_io_errors() {
    let unreadable = StoredSession {
        summary: SummaryRead::Failed(IoError::new(ErrorKind::PermissionDenied, "injected")),
        ..stored("unreadable-newer")
    };
    let v = view(vec![
        session("/work/proj", "older", day(1), None, Some("workspace"), false),
        at("/work/proj", unreadable),
    ]);
    let error = most_recent_local_summary_for_cwd(&dirname("/work/proj"), &v).unwrap_err();
    assert_eq!(error.kind, ErrorKind::PermissionDenied);
}

#[test]
fn most_recent_cwd_prefers_last_active_at_over_updated_at() {
    let dirs = || {
        let w = "/work/proj";
        vec![
            session(w, "recent_activity", day(2), Some(day(5)), Some("workspace"), false),
            session(w, "stale_activity", day(4), Some(day(1)), Some("off"), false),
        ]
    };
    assert_eq!(most_recent("/work/proj", dirs()).as_deref(), Some("recent_activity"));
    assert_eq!(profile(None, Some("/work/proj"), dirs), Some("workspace".to_string()));
}

#[test]
fn most_recent_cwd_skips_hidden_session() {
    let dirs = || {
        vec![
            session("/work/proj", "visible", day(1), None, Some("workspace"), false),
            session("/work/proj", "hidden-newer", day(6), None, Some("off"), true),
        ]
    };
    assert_eq!(most_recent("/work/proj", dirs()).as_deref(), Some("visible"));
    assert_eq!(profile(None, Some("/work/proj"), dirs), Some("workspace".to_string()));
}

#[test]
fn most_recent_cwd_with_no_sessions_is_none() {
    assert_eq!(profile(None, Some("/empty/cwd"), || vec![]), None);
}

#[test]
fn most_recent_takes_the_smaller_id_of_two() {
    let dirs = vec![
        session("/w", "b", day(3), None, None, false),
        session("/w", "a", day(3), None, None, false),
        session("/other", "0", day(9), None, None, false),
    ];
    assert_eq!(most_recent("/w", dirs).as_deref(), Some("a"));
}

#[test]
fn listing_leaves_out_hidden_and_unreadable_sessions() {
    let v = view(vec![
        session("/w", "one", day(1), None, None, false),
        session("/w", "hidden", day(2), None, None, true),
        at("/w", stored("corrupt")),
        session("/x", "elsewhere", day(2), None, None, false),
        session("/w", "two", day(3), None, None, false),
    ]);
    let ids: Vec<String> =
        local_summaries_for_cwd_sync("%2Fw", &v).iter().map(|s| s.info.id.clone()).collect();
    assert_eq!(ids, vec!["one".to_string(), "two".to_string()]);
}

// What a deletion finds.

#[test]
fn deletion_finds_the_named_session_only() {
    let v = view(vec![
        session("/a", "s", day(1), None, None, false),
        session("/b", "s", day(1), None, None, false),
        session("/b", "hidden", day(1), None, None, true),
    ]);
    let cwd = |name: Option<&str>| find_deletable_local_info(&v, "s", name).map(|i| i.cwd);
    assert_eq!(cwd(None).as_deref(), Some("/a"));
    assert_eq!(cwd(Some("%2Fb")).as_deref(), Some("/b"));
    assert_eq!(cwd(Some("%2Fc")), None);
    assert!(find_deletable_local_info(&v, "hidden", None).is_none());
    assert!(find_deletable_local_info(&v, "t", None).is_none());
}

#[test]
fn deletion_refuses_a_directory_of_another_session() {
    let s = summary("other", "/a");
    let entry = StoredSession { summary: SummaryRead::Read(s), ..stored("s") };
    assert!(find_deletable_local_info(&view(vec![at("/a", entry)]), "s", None).is_none());
}

#[test]
fn a_child_is_known_by_its_parent() {
    let text = |t: &str| Some(t.to_string());
    let entry = StoredSession { mtime_nanos: 7, ..stored("local-1") };
    let child = restored_child(&entry, text("remote-1"), text("2026-01-02"), "remote-1").unwrap();
    assert_eq!(child.session_id, "local-1");
    assert_eq!(child.updated_at, "2026-01-02");
    assert_eq!(child.mtime_nanos, 7);
    let child = restored_child(&entry, text("remote-1"), None, "remote-1").unwrap();
    assert_eq!(child.updated_at, "", "an update time that is not text counts as none");
    assert!(restored_child(&entry, text("remote-2"), None, "remote-1").is_none());
    assert!(restored_child(&entry, None, text("2026-01-02"), "remote-1").is_none());
    let hidden = StoredSession { unpublished: true, ..stored("local-1") };
    assert!(restored_child(&hidden, text("remote-1"), None, "remote-1").is_none());
    let file = StoredSession { is_dir: false, ..stored("local-1") };
    assert!(restored_child(&file, text("remote-1"), None, "remote-1").is_none());
}
