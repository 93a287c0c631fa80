use session_persistence::summary::{Info, Summary, Surroundings, is_zero};
use session_persistence::timestamp::Timestamp;

fn surroundings() -> Surroundings {
    Surroundings {
        created_at: Timestamp { seconds: 100, nanos: 0 },
        updated_at: Timestamp { seconds: 200, nanos: 5_000_000 },
        git_root_dir: Some("/repo".to_string()),
        git_remotes: vec!["origin".to_string()],
        head_commit: Some("abc123".to_string()),
        head_branch: Some("main".to_string()),
        grok_home: Some("/home/.grok".to_string()),
        worktree_label: Some("label".to_string()),
    }
}

fn summary() -> Summary {
    Summary::new(
        &Info { id: "test".to_string(), cwd: "/tmp".to_string() },
        "test-model".to_string(),
        surroundings(),
    )
}

fn summary_with_kind(kind: Option<&str>) -> Summary {
    let mut s = summary();
    s.session_kind = kind.map(str::to_string);
    s.hidden = None;
    s
}

#[test]
fn hidden_for_all_subagent_kinds() {
    for kind in ["subagent", "subagent_fork", "subagent_resume"] {
        assert!(summary_with_kind(Some(kind)).is_hidden(), "{kind} should be hidden");
    }
}

#[test]
fn not_hidden_for_regular_sessions() {
    assert!(!summary_with_kind(None).is_hidden());
    assert!(!summary_with_kind(Some("fork")).is_hidden());
    assert!(!summary_with_kind(Some("worktree")).is_hidden());
}

#[test]
fn explicit_hidden_overrides_session_kind() {
    let mut s = summary_with_kind(Some("subagent"));
    s.hidden = Some(false);
    assert!(!s.is_hidden(), "explicit hidden=false overrides kind");

    let mut s = summary_with_kind(None);
    s.hidden = Some(true);
    assert!(s.is_hidden(), "explicit hidden=true overrides kind");
}

#[test]
fn display_title_returns_generated_title_when_set() {
    let mut s = summary();
    s.generated_title = Some("Refactor auth layer".to_string());
    assert_eq!(s.display_title(), "Refactor auth layer");
}

#[test]
fn display_title_falls_back_on_empty_generated_title() {
    let mut s = summary();
    s.session_summary = "first prompt fallback".to_string();
    s.generated_title = Some(String::new());
    assert_eq!(s.display_title(), "first prompt fallback");
}

#[test]
fn display_title_falls_back_on_none_generated_title() {
    let mut s = summary();
    s.session_summary = "session summary fallback".to_string();
    s.generated_title = None;
    assert_eq!(s.display_title(), "session summary fallback");
}

#[test]
fn manual_title_opt_none_for_auto_generated_title() {
    let mut s = summary();
    s.generated_title = Some("Auto Title".to_string());
    assert!(s.manual_title_opt().is_none());
    assert_eq!(s.display_title_opt().as_deref(), Some("Auto Title"));
}

#[test]
fn manual_title_opt_ignores_stale_flag_over_blank_generated_title() {
    let mut s = summary();
    s.session_summary = "auto first-prompt summary".to_string();
    s.generated_title = Some("   ".to_string());
    s.title_is_manual = true;
    assert!(s.manual_title_opt().is_none());
    assert_eq!(s.display_title_opt().as_deref(), Some("auto first-prompt summary"));
}

#[test]
fn manual_title_is_the_title_shown() {
    let mut s = summary();
    s.session_summary = "fallback".to_string();
    s.generated_title = Some("  Release notes \u{3000}".to_string());
    s.title_is_manual = true;
    assert_eq!(s.manual_title_opt().as_deref(), Some("Release notes"));
    assert_eq!(s.manual_title_opt(), s.display_title_opt());
    assert_eq!(s.display_title(), "Release notes");
}

#[test]
fn blank_summary_has_no_title() {
    let mut s = summary();
    assert_eq!(s.display_title_opt(), None);
    s.session_summary = " \t\n".to_string();
    assert_eq!(s.display_title(), " \t\n");
    assert_eq!(s.display_title_opt(), None);
}

#[test]
fn new_summary_takes_its_surroundings() {
    let s = summary();
    assert_eq!(s.info.id, "test");
    assert_eq!(s.info.cwd, "/tmp");
    assert_eq!(s.current_model_id, "test-model");
    assert_eq!(s.created_at, Timestamp { seconds: 100, nanos: 0 });
    assert_eq!(s.updated_at, Timestamp { seconds: 200, nanos: 5_000_000 });
    assert_eq!(s.git_root_dir.as_deref(), Some("/repo"));
    assert_eq!(s.git_remotes, vec!["origin".to_string()]);
    assert_eq!(s.head_commit.as_deref(), Some("abc123"));
    assert_eq!(s.head_branch.as_deref(), Some("main"));
    assert_eq!(s.grok_home.as_deref(), Some("/home/.grok"));
    assert_eq!(s.worktree_label.as_deref(), Some("label"));
    assert_eq!(s.session_summary, "");
    assert_eq!(s.chat_format_version, 1);
    assert_eq!(s.cwd_generation, 0);
    assert!(s.previous_cwd.is_none());
    assert!(s.pending_cwd_switch_reminder.is_none());
    assert!(!s.title_is_manual);
}

#[test]
fn last_change_prefers_activity() {
    let mut s = summary();
    assert_eq!(s.last_change_unix_ms(), 200_005);
    s.last_active_at = Some(Timestamp { seconds: -1, nanos: 999_999_999 });
    assert_eq!(s.last_change_unix_ms(), -1);
}

#[test]
fn zero_counters_are_left_out() {
    assert!(is_zero(0));
    assert!(!is_zero(1));
}
