use session_persistence::checkpoint::{
    CheckpointCopy, CheckpointEvent, CheckpointStep, checkpoint_path,
};
use session_persistence::copy_data::{
    ChatFacts, CopyData, CopyDataEvent, CopyDataStep, CopySessionResult, OrchestrationDir, Sidecar,
};
use session_persistence::copy_publish::{
    CopyFault, CopyFinalizeError, reconcile_copy_publication,
};
use session_persistence::fork::{
    ChatTransform, ContentPart, ConversationItem, CopySessionOptions, ForkCounters, ForkStamp,
    Rebind, bookkeeping_generation, copy_sidecar_file, fork_summary, inherited_prefix_len,
    rebind_checkpoint, rebind_compaction_hint, rewrite_chat, select_chat,
};
use session_persistence::io_error::{ErrorKind, IoError};
use session_persistence::jsonl::{
    CopiedUpdates, LinePass, LineReader, ParsedUpdate, PassEvent, PassStep, SurvivorCursor, TranscriptCopy, UpdateLineWriter,
    for_each_jsonl_line_capped, is_orchestration_projection_update, surviving_line_indexes,
    trim_ascii,
};
use session_persistence::naming::PathStyle;
use session_persistence::segments::{SegmentCopy, SegmentEvent, SegmentStep};
use session_persistence::summary::{Info, PendingCwdSwitchReminder, Summary, Surroundings};
use session_persistence::timestamp::Timestamp;

// Lines.

#[test]
fn capped_line_reader_discards_overlong_lines_without_shifting_indexes() {
    fn collect(input: &[u8], cap: usize) -> Vec<(usize, Vec<u8>)> {
        for_each_jsonl_line_capped(input, cap)
    }

    assert_eq!(collect(b"abcd\n", 4), vec![(0, b"abcd".to_vec())]);
    assert_eq!(
        collect(b"aa\nxxxxx\nbb\n", 4),
        vec![(0, b"aa".to_vec()), (1, b"bb".to_vec())]
    );
    assert_eq!(collect(b"xxxxxxxxxxxxxxxxxxxxx\ncc\n", 4), vec![(0, b"cc".to_vec())]);
    assert_eq!(collect(b"aa\nxxxxxxxx", 4), vec![(0, b"aa".to_vec())]);
    assert_eq!(collect(b"aa\nbb", 4), vec![(0, b"aa".to_vec()), (1, b"bb".to_vec())]);
}

#[test]
fn blank_lines_take_no_index() {
    let lines = for_each_jsonl_line_capped(b"\n \t\r\n a \x0c\n\n b", 100);
    assert_eq!(lines, vec![(0, b"a".to_vec()), (1, b"b".to_vec())]);
    assert_eq!(for_each_jsonl_line_capped(b"", 4), vec![]);
    assert_eq!(for_each_jsonl_line_capped(b"a\nbc\n", 0), vec![]);
}

#[test]
fn trimming_keeps_what_is_not_ascii_white_space() {
    assert_eq!(trim_ascii(&b" \x0b a \x0b ".to_vec()), b"\x0b a \x0b".to_vec());
    assert_eq!(trim_ascii(&b"\t\n".to_vec()), Vec::<u8>::new());
}

#[test]
fn reader_holds_no_more_than_its_cap() {
    let mut reader = LineReader::new(3);
    for _ in 0..1000 {
        assert_eq!(reader.push(b'x'), None);
        assert!(reader.buf.len() <= 3);
    }
    assert!(reader.overlong);
    assert_eq!(reader.push(b'\n'), None);
    assert_eq!(reader.push(b'y'), None);
    assert_eq!(reader.push(b'\n'), Some((0, b"y".to_vec())));
    assert_eq!(reader.push(b'z'), None);
    assert_eq!(reader.last_line(), Some((1, b"z".to_vec())));
}

/// Passes over a transcript; `answer` is asked for each line. Gives the lines
/// that were handed on and how the pass ended.
fn pass(
    data: &[u8],
    answer: impl Fn(usize, &[u8]) -> Result<bool, IoError>,
) -> (Vec<(usize, Vec<u8>)>, Result<(), IoError>) {
    let mut pass = LinePass::begin(100);
    let mut bytes = data.iter();
    let mut handed = Vec::new();
    loop {
        let event = match &pass.step {
            PassStep::Finished(_) => break,
            PassStep::Read => bytes.next().map_or(PassEvent::End, |byte| PassEvent::Byte(*byte)),
            PassStep::Call { index, line } => {
                handed.push((*index, line.clone()));
                PassEvent::Called(answer(*index, line))
            }
        };
        assert!(pass.accepts(&event));
        pass.step(event);
    }
    match pass.step {
        PassStep::Finished(result) => (handed, result),
        step => panic!("{step:?}"),
    }
}

#[test]
fn a_pass_ends_where_it_is_stopped() {
    let data = b"a\n\n b\nc";
    let (handed, result) = pass(data, |_, _| Ok(false));
    assert_eq!(handed, for_each_jsonl_line_capped(data, 100));
    assert_eq!(handed.len(), 3);
    assert!(result.is_ok());
    let (handed, result) = pass(data, |index, _| Ok(index == 1));
    assert_eq!(handed.last(), Some(&(1, b"b".to_vec())));
    assert!(result.is_ok());
    let denied = || IoError::new(ErrorKind::PermissionDenied, "no");
    for stop in 0..3 {
        let fail = |index: usize, _: &[u8]| if index == stop { Err(denied()) } else { Ok(false) };
        let (handed, result) = pass(data, fail);
        assert_eq!(handed.len(), stop + 1);
        assert_eq!(result.unwrap_err().message, "no");
    }
    let mut broken = LinePass::begin(100);
    broken.step(PassEvent::Byte(b'a'));
    broken.step(PassEvent::ReadFailed(denied()));
    assert!(matches!(&broken.step, PassStep::Finished(Err(e)) if e.message == "no"));
    assert!(!broken.accepts(&PassEvent::End));
}

#[test]
fn survivors_are_a_prefix_of_the_live_branch() {
    let live = |lines: &[usize]| (0..9).map(|line| lines.contains(&line)).collect::<Vec<_>>();
    assert_eq!(surviving_line_indexes(&live(&[0, 1, 5, 6, 7]), 4), vec![0, 1, 5, 6]);
    assert_eq!(surviving_line_indexes(&live(&[0, 1]), 4), vec![0, 1]);
    assert_eq!(surviving_line_indexes(&live(&[0, 1]), 0), Vec::<usize>::new());
    assert_eq!(surviving_line_indexes(&vec![], 4), Vec::<usize>::new());
}

#[test]
fn an_earlier_cut_keeps_a_prefix_of_a_later_one() {
    let branch = vec![0, 2, 3, 7, 8];
    let live: Vec<bool> = (0..10).map(|line| branch.contains(&line)).collect();
    let mut last = Vec::new();
    for keep in 0..7 {
        let now = surviving_line_indexes(&live, keep);
        assert!(now.starts_with(&last));
        assert!(now.windows(2).all(|pair| pair[0] < pair[1]));
        last = now;
    }
    assert_eq!(last, branch);
}

#[test]
fn cursor_keeps_exactly_the_survivors() {
    let mut cursor = SurvivorCursor::new(vec![0, 3, 4]);
    let mut kept = Vec::new();
    for line in 0..10 {
        if cursor.take(line) {
            kept.push(line);
        }
        if cursor.is_done() {
            break;
        }
    }
    assert_eq!(kept, vec![0, 3, 4]);
    let mut empty = SurvivorCursor::new(vec![]);
    assert!(!empty.take(0));
    assert!(empty.is_done());
}

#[test]
fn transcript_copy_takes_every_line_without_a_cut() {
    let mut copy = TranscriptCopy::begin(None);
    assert!(copy.wants(0) && copy.wants(7));
    assert!(!copy.is_done());
    let mut copy = TranscriptCopy::begin(Some(vec![1]));
    assert!(!copy.wants(0));
    assert!(!copy.is_done());
    assert!(copy.wants(1));
    assert!(copy.is_done());
}

fn checkpoint(file: &str) -> Option<ParsedUpdate> {
    Some(ParsedUpdate::CompactionCheckpoint { checkpoint_file: file.to_string() })
}

#[test]
fn writer_counts_and_remembers() {
    let mut w = UpdateLineWriter::new();
    assert!(w.copy_line(Some(ParsedUpdate::Acp)));
    assert!(!w.copy_line(None), "a torn line is skipped");
    assert!(!w.copy_line(Some(ParsedUpdate::WorkflowUpdated)));
    assert!(!w.copy_line(Some(ParsedUpdate::GoalUpdated)));
    assert!(w.copy_line(checkpoint("b")));
    assert!(w.copy_line(checkpoint("a")));
    assert!(w.copy_line(checkpoint("b")));
    assert!(w.copy_line(Some(ParsedUpdate::OtherExtension)));
    assert_eq!(w.skipped_lines, 1);
    let copied = w.finish();
    assert_eq!(copied.count, 5);
    assert_eq!(copied.checkpoint_files, vec!["a".to_string(), "b".to_string()]);
}

#[test]
fn orchestration_state_is_not_taken_over() {
    assert!(is_orchestration_projection_update(&ParsedUpdate::WorkflowUpdated));
    assert!(is_orchestration_projection_update(&ParsedUpdate::GoalUpdated));
    assert!(!is_orchestration_projection_update(&ParsedUpdate::Acp));
    assert!(!is_orchestration_projection_update(&ParsedUpdate::OtherExtension));
}

// Checkpoints.

#[test]
fn only_checkpoint_paths_have_the_shape() {
    for good in [
        "compaction_checkpoints/a.json",
        "compaction_checkpoints//a.json",
        "compaction_checkpoints/./a.json",
        "compaction_checkpoints/a.json/",
        "compaction_checkpoints/..json",
        "compaction_checkpoints/a.b.json",
    ] {
        assert!(checkpoint_path(good, PathStyle::Posix), "{good}");
    }
    for bad in [
        "",
        "updates.jsonl",
        "compaction_checkpoints",
        "compaction_checkpoints/",
        "compaction_checkpoints/.json",
        "compaction_checkpoints/a.jsonl",
        "compaction_checkpoints/..",
        "compaction_checkpoints/a/b.json",
        "compaction_checkpoints/../a.json",
        "./compaction_checkpoints/a.json",
        "/compaction_checkpoints/a.json",
        "other/a.json",
        "a.json",
    ] {
        assert!(!checkpoint_path(bad, PathStyle::Posix), "{bad}");
    }
}

#[test]
fn backslashes_separate_where_the_platform_says_so() {
    for path in [
        "compaction_checkpoints\\a.json",
        "compaction_checkpoints\\.\\a.json",
        "compaction_checkpoints/\\a.json",
    ] {
        assert!(checkpoint_path(path, PathStyle::Windows), "{path}");
    }
    assert!(!checkpoint_path("compaction_checkpoints\\a.json", PathStyle::Posix));
    assert!(checkpoint_path("compaction_checkpoints/..\\a.json", PathStyle::Posix));
    for bad in [
        "compaction_checkpoints/..\\a.json",
        "\\compaction_checkpoints\\a.json",
        ".\\compaction_checkpoints\\a.json",
        "C:compaction_checkpoints\\a.json",
        "C:\\compaction_checkpoints\\a.json",
        "compaction_checkpoints\\b\\a.json",
    ] {
        assert!(!checkpoint_path(bad, PathStyle::Windows), "{bad}");
    }
    let c = CheckpointCopy::begin(names(&["compaction_checkpoints\\a.json"]), PathStyle::Windows);
    let c = c.step(CheckpointEvent::Dir(Ok(true)));
    assert!(matches!(c.step, CheckpointStep::ProbeFile));
}

fn begin_checkpoints(files: Vec<String>) -> CheckpointCopy {
    CheckpointCopy::begin(files, PathStyle::Posix)
}

fn names(files: &[&str]) -> Vec<String> {
    files.iter().map(|f| f.to_string()).collect()
}

#[test]
fn checkpoint_record_with_non_checkpoint_path_is_not_copied() {
    let c = begin_checkpoints(names(&["updates.jsonl"]));
    let c = c.step(CheckpointEvent::Dir(Ok(true)));
    assert!(matches!(c.step, CheckpointStep::Finished(Ok(0))));
}

#[test]
fn dangling_checkpoint_record_copies_without_file() {
    let c = begin_checkpoints(names(&["compaction_checkpoints/ckpt-gone.json"]));
    let gone = c.step(CheckpointEvent::Dir(Err(IoError::new(ErrorKind::NotFound, "gone"))));
    assert!(matches!(gone.step, CheckpointStep::Finished(Ok(0))));
    let c = begin_checkpoints(names(&["compaction_checkpoints/ckpt-gone.json"]));
    let c = c.step(CheckpointEvent::Dir(Ok(true)));
    assert!(matches!(c.step, CheckpointStep::ProbeFile));
    let c = c.step(CheckpointEvent::File(Err(IoError::new(ErrorKind::NotFound, "gone"))));
    assert!(matches!(c.step, CheckpointStep::Finished(Ok(0))));
}

#[test]
fn symlinked_checkpoint_file_is_not_copied() {
    let c = begin_checkpoints(names(&["compaction_checkpoints/ckpt-a.json"]));
    let c = c.step(CheckpointEvent::Dir(Ok(true)));
    let c = c.step(CheckpointEvent::File(Ok(false)));
    assert!(matches!(c.step, CheckpointStep::Finished(Ok(0))));
}

#[test]
fn symlinked_checkpoint_dir_is_not_copied() {
    let c = begin_checkpoints(names(&["compaction_checkpoints/ckpt-a.json"]));
    let c = c.step(CheckpointEvent::Dir(Ok(false)));
    assert!(matches!(c.step, CheckpointStep::Finished(Ok(0))));
}

#[test]
fn checkpoints_are_copied_in_turn() {
    let c = begin_checkpoints(names(&[
        "compaction_checkpoints/a.json",
        "evil",
        "compaction_checkpoints/b.json",
    ]));
    let c = c.step(CheckpointEvent::Dir(Ok(true)));
    assert_eq!(c.next, 0);
    let c = c.step(CheckpointEvent::File(Ok(true)));
    assert!(matches!(c.step, CheckpointStep::CopyFile));
    let c = c.step(CheckpointEvent::Copied(Ok(())));
    assert_eq!(c.next, 2);
    let c = c.step(CheckpointEvent::File(Ok(true))).step(CheckpointEvent::Copied(Ok(())));
    assert!(matches!(c.step, CheckpointStep::Finished(Ok(2))));
    assert!(matches!(begin_checkpoints(vec![]).step, CheckpointStep::Finished(Ok(0))));
}

#[test]
fn checkpoint_failures_end_the_copy() {
    let denied = || IoError::new(ErrorKind::PermissionDenied, "no");
    let begin = || begin_checkpoints(names(&["compaction_checkpoints/a.json"]));
    let c = begin().step(CheckpointEvent::Dir(Err(denied())));
    assert!(matches!(c.step, CheckpointStep::Finished(Err(_))));
    let probed = begin().step(CheckpointEvent::Dir(Ok(true)));
    let c = probed.step(CheckpointEvent::File(Err(denied())));
    assert!(matches!(c.step, CheckpointStep::Finished(Err(_))));
    let c = begin()
        .step(CheckpointEvent::Dir(Ok(true)))
        .step(CheckpointEvent::File(Ok(true)))
        .step(CheckpointEvent::Copied(Err(denied())));
    assert!(matches!(c.step, CheckpointStep::Finished(Err(_))));
}

// Pointers in the chat.

fn user_meta(text: &str) -> ConversationItem<u8> {
    ConversationItem::User {
        compaction_meta: true,
        content: vec![ContentPart::Text(text.to_string())],
    }
}

fn user(text: &str) -> ConversationItem<u8> {
    ConversationItem::User {
        compaction_meta: false,
        content: vec![ContentPart::Text(text.to_string())],
    }
}

fn text_of(item: &ConversationItem<u8>) -> String {
    match item {
        ConversationItem::User { content, .. } => content
            .iter()
            .map(|part| match part {
                ContentPart::Text(text) => text.as_str(),
                ContentPart::Other(_) => "",
            })
            .collect(),
        ConversationItem::Other(_) => String::new(),
    }
}

fn bind<'a>(source: &'a str, target: &'a str) -> Option<Rebind<'a>> {
    Some(Rebind { source_hint: source, target_hint: target })
}

#[test]
fn copied_compaction_hint_survives_source_deletion() {
    let source_archive = "/sessions/compaction-hint-src/compaction";
    let hint = format!("\n[history at {source_archive}]");
    let target_hint = "\n[history at /sessions/compaction-hint-dst/compaction]";
    let decoy = format!("same-meta quoted canonical decoy:{hint}");
    let quoted = format!("real user quoted the generated hint verbatim:{hint}");
    let items = vec![
        user_meta(&format!(
            "summary body\n{decoy}\nunchanged exact decoy: {source_archive}\n\
             unchanged prefixed decoy: {source_archive}-backup{hint}"
        )),
        user(&quoted),
        ConversationItem::Other(9),
    ];
    let copied = rebind_compaction_hint(items, bind(&hint, target_hint));
    let summary = text_of(&copied[0]);
    assert!(summary.ends_with(target_hint));
    assert!(summary.contains(&decoy));
    assert!(summary.contains("summary body"));
    assert!(summary.contains(&format!("unchanged exact decoy: {source_archive}")));
    assert!(summary.contains(&format!("unchanged prefixed decoy: {source_archive}-backup")));
    assert_eq!(text_of(&copied[1]), quoted);
    assert!(matches!(copied[2], ConversationItem::Other(9)));
}

#[test]
fn modes_without_pointers_bind_nothing() {
    let items = rebind_compaction_hint(vec![user_meta("x HINT")], None);
    assert_eq!(text_of(&items[0]), "x HINT");
}

#[test]
fn binding_there_and_back_restores_the_text() {
    let there = rebind_compaction_hint(vec![user_meta("body<a>")], bind("<a>", "<bb>"));
    assert_eq!(text_of(&there[0]), "body<bb>");
    let back = rebind_compaction_hint(there, bind("<bb>", "<a>"));
    assert_eq!(text_of(&back[0]), "body<a>");
}

#[test]
fn issue345_checkpoint_rebind_runs_on_deserialized_items() {
    let source = r"[segments at C:\Users\iml1s\.grok\sessions\parent\compaction]";
    let target = r"[segments at C:\Users\iml1s\.grok\sessions\child\compaction]";
    let same = r"[transcript at C:\same\updates.jsonl]";
    let history = vec![user_meta(&format!("summary body{source}"))];
    let rebound = rebind_checkpoint(history, bind(source, target), bind(same, same))
        .expect("segments hint must rebind");
    let text = text_of(&rebound[0]);
    assert!(text.contains(r"\child\compaction"), "got {text}");
    assert!(!text.contains(r"\parent\compaction"), "got {text}");
}

#[test]
fn checkpoints_without_pointers_are_copied_as_they_are() {
    let none = rebind_checkpoint(vec![user_meta("plain"), user("x<t>")], None, bind("<t>", "<u>"));
    assert!(none.is_none());
    let same = rebind_checkpoint(vec![user_meta("x<t>")], None, bind("<t>", "<t>"));
    assert!(same.is_none());
    let transcript = rebind_checkpoint(vec![user_meta("x<t>")], None, bind("<t>", "<u>"));
    assert_eq!(text_of(&transcript.expect("bound")[0]), "x<u>");
    assert!(rebind_checkpoint(Vec::<ConversationItem<u8>>::new(), None, None).is_none());
}

// Options.

fn options() -> CopySessionOptions {
    CopySessionOptions {
        target_prompt_index: None,
        fork_filter: false,
        inherited_prefix_len: None,
        skip_cwd_transform: false,
        copy_compaction_segments: false,
        strip_reasoning: false,
        copy_plan_state: true,
        copy_signals: true,
        copy_plan_mode_state: true,
        copy_tool_state: true,
        copy_announcement_state: true,
        new_model_id: None,
        parent_session_id: None,
        prompt_display_cwd: None,
        session_kind: None,
        fork_context_source: None,
        fork_parent_prompt_id: None,
        source_workspace_dir: None,
    }
}

fn info(id: &str, cwd: &str) -> Info {
    Info { id: id.to_string(), cwd: cwd.to_string() }
}

#[test]
fn chat_changes_come_in_order() {
    assert_eq!(select_chat(&options()), vec![]);
    let cut = CopySessionOptions { target_prompt_index: Some(1), fork_filter: true, ..options() };
    assert_eq!(
        select_chat(&cut),
        vec![ChatTransform::CutBeforePrompt(2), ChatTransform::ForkFilter],
        "the target prompt is kept"
    );
    let (a, b) = (info("s", "/a"), info("t", "/b"));
    assert_eq!(
        rewrite_chat(&options(), &a, &b),
        vec![ChatTransform::RewriteCwd, ChatTransform::RebindTranscript]
    );
    assert_eq!(rewrite_chat(&options(), &a, &info("t", "/a")), vec![ChatTransform::RebindTranscript]);
    let all = CopySessionOptions {
        skip_cwd_transform: true,
        copy_compaction_segments: true,
        strip_reasoning: true,
        ..options()
    };
    assert_eq!(
        rewrite_chat(&all, &a, &b),
        vec![
            ChatTransform::RebindSegments,
            ChatTransform::RebindTranscript,
            ChatTransform::StripReasoning
        ]
    );
    let filtered = CopySessionOptions { fork_filter: true, ..options() };
    assert_eq!(rewrite_chat(&filtered, &a, &info("t", "/a")), vec![]);
}

#[test]
fn a_subagent_inherits_all_that_was_selected() {
    let told = CopySessionOptions { inherited_prefix_len: Some(4), ..options() };
    assert_eq!(inherited_prefix_len(&told, 9), Some(4));
    assert_eq!(inherited_prefix_len(&options(), 9), None);
    let filtered = CopySessionOptions { fork_filter: true, inherited_prefix_len: Some(4), ..options() };
    assert_eq!(inherited_prefix_len(&filtered, 9), Some(9));
}

#[test]
fn the_latest_switch_counts() {
    assert_eq!(bookkeeping_generation(&vec![]), 0);
    assert_eq!(bookkeeping_generation(&vec![None, None]), 0);
    assert_eq!(bookkeeping_generation(&vec![Some(2), None, Some(5), Some(3)]), 5);
}

// The fork's summary.

fn time(seconds: i64) -> Timestamp {
    Timestamp { seconds, nanos: 0 }
}

fn source_summary() -> Summary {
    let mut s = Summary::new(
        &info("src", "/src"),
        "old-model".to_string(),
        Surroundings {
            created_at: time(1),
            updated_at: time(2),
            git_root_dir: Some("/repo".to_string()),
            git_remotes: vec!["origin".to_string()],
            head_commit: Some("abc123".to_string()),
            head_branch: Some("feature-branch".to_string()),
            grok_home: Some("/far/.grok".to_string()),
            worktree_label: Some("label".to_string()),
        },
    );
    s.session_summary = "Why /x/compaction/segment_000.md keeps growing".to_string();
    s.last_turn_summary = Some("[history at /x/compaction]".to_string());
    s.last_turn_summary_prompt_id = Some("p9".to_string());
    s.sandbox_profile = Some("workspace".to_string());
    s.agent_name = Some("cursor".to_string());
    s.catalog_identity = Some("{}".to_string());
    s.hidden = Some(true);
    s.next_trace_turn = 7;
    s.collection_id = Some("c".to_string());
    s.request_id = Some("r".to_string());
    s.generated_title = Some("Title".to_string());
    s.title_is_manual = true;
    s.last_active_at = Some(time(3));
    s.cwd_generation = 3;
    s.previous_cwd = Some("/older".to_string());
    s.pending_cwd_switch_reminder = Some(PendingCwdSwitchReminder {
        cwd_generation: 3,
        previous_cwd: "/src".to_string(),
        destination_cwd: "/destination".to_string(),
        content: "switch".to_string(),
        destination_project_instructions: None,
    });
    s
}

fn stamp() -> ForkStamp {
    ForkStamp {
        created_at: time(10),
        updated_at: time(11),
        forked_at: time(12),
        grok_home: Some("/here/.grok".to_string()),
    }
}

fn counters(generation: u64) -> ForkCounters {
    ForkCounters {
        num_messages: 4,
        num_chat_messages: 5,
        cwd_switch_bookkeeping_generation: generation,
        inherited_prefix_len: Some(2),
    }
}

fn fork(options: &CopySessionOptions) -> Summary {
    fork_summary(source_summary(), &info("tgt", "/tgt"), options, counters(3), stamp())
}

#[test]
fn copy_session_data_with_model_override() {
    let s = fork(&CopySessionOptions {
        parent_session_id: Some("source-model-test".to_string()),
        new_model_id: Some("grok-3".to_string()),
        ..options()
    });
    assert_eq!(s.current_model_id, "grok-3");
    assert_eq!(s.parent_session_id, Some("source-model-test".to_string()));
    assert_eq!(s.agent_name, None);
    assert_eq!(s.catalog_identity, None);
}

#[test]
fn copy_fork_provenance_persisted_in_summary() {
    let s = fork(&CopySessionOptions {
        parent_session_id: Some("src-prov".to_string()),
        session_kind: Some("subagent_fork".to_string()),
        fork_context_source: Some("forked".to_string()),
        fork_parent_prompt_id: Some("prompt-42".to_string()),
        ..options()
    });
    assert_eq!(s.session_kind.as_deref(), Some("subagent_fork"));
    assert_eq!(s.fork_context_source.as_deref(), Some("forked"));
    assert_eq!(s.fork_parent_prompt_id.as_deref(), Some("prompt-42"));
}

#[test]
fn copy_session_data_inherits_source_summary_fields() {
    let s = fork(&options());
    assert_eq!(s.head_commit.as_deref(), Some("abc123"));
    assert_eq!(s.head_branch.as_deref(), Some("feature-branch"));
    assert_eq!(s.sandbox_profile.as_deref(), Some("workspace"));
    assert_eq!(s.current_model_id, "old-model");
    assert_eq!(s.agent_name.as_deref(), Some("cursor"));
    assert_eq!(s.catalog_identity.as_deref(), Some("{}"));
    assert_eq!(s.generated_title.as_deref(), Some("Title"));
    assert!(s.title_is_manual);
    assert_eq!(s.last_active_at, Some(time(3)));
    assert_eq!(s.worktree_label.as_deref(), Some("label"));
}

#[test]
fn fork_starts_afresh_where_it_is_a_session_of_its_own() {
    let s = fork(&options());
    assert_eq!(s.info.id, "tgt");
    assert_eq!(s.info.cwd, "/tgt");
    assert_eq!((s.created_at, s.updated_at, s.forked_at), (time(10), time(11), Some(time(12))));
    assert_eq!(s.grok_home.as_deref(), Some("/here/.grok"));
    assert_eq!(s.session_kind.as_deref(), Some("fork"));
    assert!(!s.is_hidden(), "a fork of a hidden session shows");
    assert_eq!((s.num_messages, s.num_chat_messages), (4, 5));
    assert_eq!(s.inherited_prefix_len, Some(2));
    assert_eq!(s.next_trace_turn, 0);
    assert_eq!(s.chat_format_version, 1);
    assert!(s.collection_id.is_none() && s.request_id.is_none() && s.git_root_dir.is_none());
    assert!(s.git_remotes.is_empty());
}

#[test]
fn unfiltered_copy_clears_pending_relocation() {
    let s = fork(&options());
    assert_eq!(s.cwd_generation, 3);
    assert_eq!(s.previous_cwd.as_deref(), Some("/older"));
    assert!(s.pending_cwd_switch_reminder.is_none());
    assert_eq!(s.cwd_switch_bookkeeping_generation, 3);
}

#[test]
fn filtered_copy_clears_pending_relocation() {
    let filtered = CopySessionOptions { fork_filter: true, ..options() };
    let s = fork_summary(source_summary(), &info("tgt", "/tgt"), &filtered, counters(0), stamp());
    assert_eq!(s.cwd_generation, 3);
    assert_eq!(s.previous_cwd.as_deref(), Some("/older"));
    assert!(s.pending_cwd_switch_reminder.is_none());
    assert_eq!(s.cwd_switch_bookkeeping_generation, 0);
}

#[test]
fn issue423_fork_preserves_authored_summary_text_verbatim() {
    let s = fork(&CopySessionOptions { copy_compaction_segments: true, ..options() });
    assert_eq!(s.session_summary, "Why /x/compaction/segment_000.md keeps growing");
    assert_eq!(s.last_turn_summary.as_deref(), Some("[history at /x/compaction]"));
    assert_eq!(s.last_turn_summary_prompt_id.as_deref(), Some("p9"));
    let partial = fork(&CopySessionOptions { target_prompt_index: Some(0), ..options() });
    assert_eq!(partial.last_turn_summary, None);
    assert_eq!(partial.last_turn_summary_prompt_id, None);
}

// A whole copy.

/// Runs a copy in which every file is there and nothing fails.
/// The entries of an archive, each with whether it is a regular file.
const ARCHIVE: [(&str, bool); 5] = [
    ("segment_000.md", true),
    ("nested", false),
    ("segment_001.md", true),
    ("link.md", false),
    ("INDEX.md", true),
];

/// Copies an archive; gives the names that were copied and how the copy ended.
fn copy_archive(entries: &[(&str, bool)]) -> (Vec<String>, Result<usize, IoError>) {
    let mut entries = entries.iter();
    let mut entry = "";
    let mut copied = Vec::new();
    let mut copy = SegmentCopy::begin();
    loop {
        let event = match &copy.step {
            SegmentStep::Finished(_) => break,
            SegmentStep::ProbeDir => SegmentEvent::Dir(true),
            SegmentStep::CreateDir | SegmentStep::ListDir => SegmentEvent::Done(Ok(())),
            SegmentStep::NextEntry => SegmentEvent::Entry(Ok(entries.next().map(|(name, regular)| {
                entry = *name;
                *regular
            }))),
            SegmentStep::CopyEntry => {
                copied.push(entry.to_string());
                SegmentEvent::Done(Ok(()))
            }
        };
        assert!(copy.accepts(&event));
        copy = copy.step(event);
    }
    match copy.step {
        SegmentStep::Finished(result) => (copied, result),
        step => panic!("{step:?}"),
    }
}

#[test]
fn regular_files_of_an_archive_are_copied() {
    let (copied, result) = copy_archive(&ARCHIVE);
    assert_eq!(copied, names(&["segment_000.md", "segment_001.md", "INDEX.md"]));
    assert_eq!(result.unwrap(), 3);
    assert_eq!(copy_archive(&[]).1.unwrap(), 0);
    let none = SegmentCopy::begin().step(SegmentEvent::Dir(false));
    assert!(matches!(none.step, SegmentStep::Finished(Ok(0))));
}

#[test]
fn failures_end_the_copy_of_an_archive() {
    let denied = || IoError::new(ErrorKind::PermissionDenied, "no");
    let created = || SegmentCopy::begin().step(SegmentEvent::Dir(true));
    let listed = || created().step(SegmentEvent::Done(Ok(())));
    let at_entry = || listed().step(SegmentEvent::Done(Ok(())));
    for failed in [
        created().step(SegmentEvent::Done(Err(denied()))),
        listed().step(SegmentEvent::Done(Err(denied()))),
        at_entry().step(SegmentEvent::Entry(Err(denied()))),
        at_entry()
            .step(SegmentEvent::Entry(Ok(Some(true))))
            .step(SegmentEvent::Done(Err(denied()))),
    ] {
        assert!(matches!(&failed.step, SegmentStep::Finished(Err(e)) if e.message == "no"));
        assert!(!failed.accepts(&SegmentEvent::Done(Ok(()))));
    }
}

fn run(options: CopySessionOptions, from_root: bool) -> (CopyData, Vec<String>) {
    let mut copy = CopyData::begin(options, info("tgt", "/tgt"), from_root);
    let mut steps = Vec::new();
    loop {
        let (name, event) = match &copy.step {
            CopyDataStep::BeginPublication => ("begin", CopyDataEvent::Done(Ok(()))),
            CopyDataStep::CreateTargetDir => ("mkdir", CopyDataEvent::Done(Ok(()))),
            CopyDataStep::ReadSummary => ("summary", CopyDataEvent::SummaryRead(Ok(source_summary()))),
            CopyDataStep::ReadChat => (
                "chat",
                CopyDataEvent::ChatRead(Ok(ChatFacts { selected_len: 6, len: 5, generation: 3 })),
            ),
            CopyDataStep::RemoveDir(OrchestrationDir::Workflows) => (
                "workflows",
                CopyDataEvent::Done(Err(IoError::new(ErrorKind::NotFound, "none"))),
            ),
            CopyDataStep::RemoveDir(OrchestrationDir::Goal) => ("goal", CopyDataEvent::Done(Ok(()))),
            CopyDataStep::WriteChat => ("write-chat", CopyDataEvent::Done(Ok(()))),
            CopyDataStep::WriteEmptyTranscript => {
                ("empty", CopyDataEvent::EmptyTranscriptWritten(Ok(stamp())))
            }
            CopyDataStep::CopyTranscript => (
                "transcript",
                CopyDataEvent::TranscriptCopied(Ok((
                    CopiedUpdates {
                        count: 4,
                        checkpoint_files: names(&["compaction_checkpoints/a.json"]),
                    },
                    stamp(),
                ))),
            ),
            CopyDataStep::WriteSummary(_) => ("write-summary", CopyDataEvent::Done(Ok(()))),
            CopyDataStep::CopySidecar(Sidecar::Plan) => ("plan", CopyDataEvent::SidecarCopied(Ok(true))),
            CopyDataStep::CopySidecar(Sidecar::Signals) => {
                ("signals", CopyDataEvent::SidecarCopied(Ok(true)))
            }
            CopyDataStep::CopySidecar(Sidecar::PlanModeState) => {
                ("plan-mode", CopyDataEvent::SidecarCopied(Ok(true)))
            }
            CopyDataStep::CopySidecar(Sidecar::ToolState) => {
                ("tool", CopyDataEvent::SidecarCopied(Ok(true)))
            }
            CopyDataStep::CopySidecar(Sidecar::AnnouncementState) => {
                ("announcement", CopyDataEvent::SidecarCopied(Ok(true)))
            }
            CopyDataStep::CopySegments => ("segments", CopyDataEvent::Counted(copy_archive(&ARCHIVE).1)),
            CopyDataStep::CopyCheckpoints => {
                ("checkpoints", CopyDataEvent::Counted(Ok(copy.checkpoint_files.len())))
            }
            CopyDataStep::Publish => (
                "publish",
                CopyDataEvent::Published { outcome: Ok(()), shown_parent: "\"%2Ftgt\"".to_string() },
            ),
            CopyDataStep::Finished(_) => return (copy, steps),
        };
        steps.push(name.to_string());
        copy = copy.step(event);
    }
}

fn result_of(copy: &CopyData) -> CopySessionResult {
    match &copy.step {
        CopyDataStep::Finished(Ok(result)) => *result,
        step => panic!("not finished: {step:?}"),
    }
}

#[test]
fn sidecar_flags_gate_their_files_independently() {
    let cases: [fn(&mut CopySessionOptions); 5] = [
        |o| o.copy_plan_state = false,
        |o| o.copy_signals = false,
        |o| o.copy_plan_mode_state = false,
        |o| o.copy_tool_state = false,
        |o| o.copy_announcement_state = false,
    ];
    for (off, disable) in cases.iter().enumerate() {
        let mut o = options();
        disable(&mut o);
        let r = result_of(&run(o, true).0);
        let copied = [
            r.plan_state_copied,
            r.signals_copied,
            r.plan_mode_state_copied,
            r.tool_state_copied,
            r.announcement_state_copied,
        ];
        for (i, copied) in copied.into_iter().enumerate() {
            assert_eq!(copied, i != off, "{off} off: sidecar {i} copied flag");
        }
    }
    let r = result_of(&run(options(), true).0);
    assert!(r.plan_state_copied && r.signals_copied && r.plan_mode_state_copied);
    assert!(r.tool_state_copied && r.announcement_state_copied);
}

#[test]
fn copy_session_data_skips_tool_state_directory() {
    assert!(!copy_sidecar_file(true, false));
    assert!(!copy_sidecar_file(false, true));
    assert!(copy_sidecar_file(true, true));
}

#[test]
fn copy_session_data_copies_compaction_segments_when_enabled() {
    let r = result_of(&run(CopySessionOptions { copy_compaction_segments: true, ..options() }, true).0);
    assert_eq!(r.compaction_segments_copied, 3); // 2 segments + INDEX.md
    let (copied, _) = copy_archive(&ARCHIVE);
    for name in ["segment_000.md", "segment_001.md", "INDEX.md"] {
        assert!(copied.contains(&name.to_string()), "{name}");
    }
    let r = result_of(&run(options(), true).0);
    assert_eq!(r.compaction_segments_copied, 0);
}

#[test]
fn fork_filter_copy_skips_compaction_checkpoints() {
    let (copy, steps) = run(CopySessionOptions { fork_filter: true, ..options() }, true);
    let r = result_of(&copy);
    assert_eq!(r.compaction_checkpoints_copied, 0);
    assert_eq!(r.updates_copied, 0, "fork_filter clears the transcript");
    assert!(steps.contains(&"empty".to_string()) && !steps.contains(&"transcript".to_string()));
}

#[test]
fn copies_go_step_by_step() {
    let (copy, steps) = run(options(), true);
    assert_eq!(
        steps,
        names(&[
            "begin",
            "summary",
            "chat",
            "workflows",
            "goal",
            "write-chat",
            "transcript",
            "write-summary",
            "plan",
            "signals",
            "plan-mode",
            "tool",
            "announcement",
            "checkpoints",
            "publish"
        ])
    );
    let r = result_of(&copy);
    assert_eq!((r.chat_messages_copied, r.updates_copied, r.compaction_checkpoints_copied), (5, 4, 1));
    let (_, steps) = run(options(), false);
    assert_eq!(steps.first().map(String::as_str), Some("mkdir"));
    assert_eq!(steps.last().map(String::as_str), Some("checkpoints"), "nothing to publish");
}

#[test]
fn copy_session_data_source_not_found() {
    let copy = CopyData::begin(options(), info("t", "/t"), true);
    let copy = copy.step(CopyDataEvent::Done(Ok(())));
    let missing = IoError::new(ErrorKind::NotFound, "missing");
    let copy = copy.step(CopyDataEvent::SummaryRead(Err(missing)));
    match copy.step {
        CopyDataStep::Finished(Err(e)) => assert_eq!(e.kind, ErrorKind::NotFound),
        step => panic!("{step:?}"),
    }
}

#[test]
fn a_directory_that_cannot_be_removed_ends_the_copy() {
    let copy = CopyData::begin(options(), info("t", "/t"), false)
        .step(CopyDataEvent::Done(Ok(())))
        .step(CopyDataEvent::SummaryRead(Ok(source_summary())))
        .step(CopyDataEvent::ChatRead(Ok(ChatFacts { selected_len: 0, len: 0, generation: 0 })))
        .step(CopyDataEvent::Done(Err(IoError::new(ErrorKind::PermissionDenied, "no"))));
    assert!(matches!(copy.step, CopyDataStep::Finished(Err(_))));
}

#[test]
fn caller_preserves_result_only_after_committed_durability_error() {
    let expected = CopySessionResult {
        chat_messages_copied: 3,
        updates_copied: 4,
        plan_state_copied: true,
        plan_mode_state_copied: false,
        signals_copied: false,
        tool_state_copied: false,
        announcement_state_copied: false,
        compaction_segments_copied: 0,
        compaction_checkpoints_copied: 0,
    };
    let failure = IoError::other("injected committed durability failure");
    let actual = reconcile_copy_publication(
        expected,
        Err(CopyFinalizeError::CommittedDurability(CopyFault::Io(failure))),
        "committed-result",
    )
    .expect("committed publication must remain caller-visible success");
    assert_eq!(actual.chat_messages_copied, expected.chat_messages_copied);
    assert_eq!(actual.updates_copied, expected.updates_copied);
}

#[test]
fn caller_hard_fails_committed_unreachable_publication() {
    let failure = IoError::new(ErrorKind::InvalidData, "detached commit");
    let error = reconcile_copy_publication(
        1u8,
        Err(CopyFinalizeError::CommittedUnreachable(CopyFault::Io(failure))),
        "unreachable-result",
    )
    .expect_err("committed but unreachable fork must never be reported as success");
    assert_eq!(error.kind, ErrorKind::InvalidData);
}

#[test]
fn a_failed_publication_keeps_the_code_of_the_system() {
    let failure = || IoError {
        kind: ErrorKind::StorageFull,
        raw_os_error: Some(28),
        message: "no space".to_string(),
    };
    let error = reconcile_copy_publication(
        1u8,
        Err(CopyFinalizeError::NotCommitted(CopyFault::Io(failure()))),
        "full",
    )
    .unwrap_err();
    assert_eq!(error.raw_os_error, Some(28));
    assert_eq!((error.kind, error.message.as_str()), (ErrorKind::StorageFull, "no space"));
}

// Transcripts, from bytes to what is taken.

/// Copies a transcript whose lines are told apart by their text.
fn copy_transcript(data: &[u8], survivors: Option<Vec<usize>>) -> CopiedUpdates {
    let mut copy = TranscriptCopy::begin(survivors);
    let mut writer = UpdateLineWriter::new();
    for (index, line) in for_each_jsonl_line_capped(data, 1024) {
        if copy.wants(index) {
            let update = match std::str::from_utf8(&line) {
                Ok(text) if text.starts_with("ckpt-") => checkpoint(&format!(
                    "compaction_checkpoints/{text}.json"
                )),
                Ok(text) if !text.starts_with('{') => Some(ParsedUpdate::Acp),
                _ => None,
            };
            writer.copy_line(update);
        }
        if copy.is_done() {
            break;
        }
    }
    writer.finish()
}

#[test]
fn a_transcript_without_a_cut_is_copied_whole() {
    let data = b"P0\nckpt-b\n{torn\nckpt-a\nA0\n";
    let whole = copy_transcript(data, None);
    assert_eq!(whole.count, 4);
    assert_eq!(
        whole.checkpoint_files,
        vec![
            "compaction_checkpoints/ckpt-a.json".to_string(),
            "compaction_checkpoints/ckpt-b.json".to_string()
        ]
    );
    let all = copy_transcript(data, Some(vec![0, 1, 2, 3, 4]));
    assert_eq!((all.count, all.checkpoint_files), (whole.count, whole.checkpoint_files));
    assert_eq!(copy_transcript(data, Some(vec![0])).count, 1);
}

#[test]
fn copy_session_data_skips_torn_updates_lines() {
    let mut data = b"P0\nA0\n{\"method\":\"session/update\",\"params\":{tor\n".to_vec();
    data.extend_from_slice(&[0xFF, 0xFE, b'\n']);
    data.extend_from_slice(b"P1\n");
    assert_eq!(copy_transcript(&data, None).count, 3, "P0 + A0 + P1, torn lines dropped");
    let survivors = surviving_line_indexes(&vec![true; 5], 4);
    assert_eq!(
        copy_transcript(&data, Some(survivors)).count,
        2,
        "P0 + A0; torn tail and P1 cut"
    );
}

#[test]
fn copy_session_data_copies_referenced_compaction_checkpoints() {
    let copied = copy_transcript(b"ckpt-a\nckpt-a\n", None);
    assert_eq!(copied.count, 2, "checkpoint records must be copied");
    assert_eq!(copied.checkpoint_files, vec!["compaction_checkpoints/ckpt-a.json".to_string()]);
    assert!(checkpoint_path(&copied.checkpoint_files[0], PathStyle::Posix));
}

#[test]
fn target_prompt_index_truncation_gates_checkpoint_copy() {
    let survivors = surviving_line_indexes(&vec![true; 5], 2);
    let copied = copy_transcript(b"P0\nckpt-early\nP1\nP2\nckpt-late\n", Some(survivors));
    assert_eq!(copied.checkpoint_files, vec!["compaction_checkpoints/ckpt-early.json".to_string()]);
}

#[test]
fn issue345_fork_rewrites_parent_compaction_transcript_hint() {
    let hint = "[segments at /sessions/issue345-parent/compaction]";
    let child = "[segments at /sessions/issue345-child/compaction]";
    let items = rebind_compaction_hint(
        vec![user_meta(&format!(
            "Compacted history still needs /source/workspace/src/main.rs.{hint}"
        ))],
        bind(hint, child),
    );
    let text = text_of(&items[0]);
    assert!(text.contains("/sessions/issue345-child/compaction"));
    assert!(!text.contains("/sessions/issue345-parent/compaction"));
    assert!(text.contains("/source/workspace/src/main.rs"));

    let mut source = source_summary();
    source.last_turn_summary = Some(hint.to_string());
    let forked =
        fork_summary(source, &info("issue345-child", "/w"), &options(), counters(0), stamp());
    assert_eq!(forked.last_turn_summary.as_deref(), Some(hint));
}

#[test]
fn copied_transcript_hint_survives_source_deletion() {
    let source = "/sessions/transcript-hint-src/updates.jsonl";
    let hint = format!("\n[transcript at {source}]");
    let target_hint = "\n[transcript at /sessions/transcript-hint-dst/updates.jsonl]";
    let decoy = format!("same-meta quoted canonical decoy:{hint}");
    let quoted = format!("real user quoted the generated hint verbatim:{hint}");
    let copied = rebind_compaction_hint(
        vec![
            user_meta(&format!(
                "summary body\n{decoy}\nunchanged exact decoy: {source}\n\
                 unchanged prefixed decoy: {source}.backup{hint}"
            )),
            user(&quoted),
        ],
        bind(&hint, target_hint),
    );
    let summary = text_of(&copied[0]);
    assert!(summary.ends_with(target_hint));
    assert!(summary.contains(&decoy));
    assert!(summary.contains("summary body"));
    assert!(summary.contains(&format!("unchanged exact decoy: {source}")));
    assert!(summary.contains(&format!("unchanged prefixed decoy: {source}.backup")));
    assert_eq!(text_of(&copied[1]), quoted);
}

#[test]
fn fork_rebinds_checkpoint_hint_without_touching_quoted_transcript_paths() {
    let parent = "/sessions/ckpt-rebind-src/compaction";
    let child = "/sessions/ckpt-rebind-dst/compaction";
    let hint = format!("[segments at {parent}]");
    let child_hint = format!("[segments at {child}]");
    let quoted = format!("what is in {parent}/segment_000.md?");
    let history = vec![user_meta(&format!("summary body{hint}")), user(&quoted)];
    let restored = rebind_checkpoint(history, bind(&hint, &child_hint), bind("<t>", "<u>"))
        .expect("the hint must be bound");
    let text = text_of(&restored[0]);
    assert!(text.contains(child), "got {text}");
    assert!(!text.contains(parent), "got {text}");
    assert_eq!(text_of(&restored[1]), quoted);
}

/// The summary that a copy writes, and its result, for a source of these counts.
fn copied(options: CopySessionOptions, id: &str, counts: [usize; 2], plan: bool) -> (Summary, CopySessionResult) {
    let mut copy = CopyData::begin(options, info(id, "/target/workspace"), true);
    let mut written = None;
    loop {
        let event = match &copy.step {
            CopyDataStep::Finished(_) => break,
            CopyDataStep::ReadSummary => CopyDataEvent::SummaryRead(Ok(source_summary())),
            CopyDataStep::ReadChat => CopyDataEvent::ChatRead(Ok(ChatFacts {
                selected_len: counts[0],
                len: counts[0],
                generation: 0,
            })),
            CopyDataStep::CopyTranscript => CopyDataEvent::TranscriptCopied(Ok((
                CopiedUpdates { count: counts[1], checkpoint_files: Vec::new() },
                stamp(),
            ))),
            CopyDataStep::WriteSummary(summary) => {
                written = Some(summary.clone());
                CopyDataEvent::Done(Ok(()))
            }
            CopyDataStep::CopySidecar(_) => CopyDataEvent::SidecarCopied(Ok(plan)),
            CopyDataStep::CopySegments | CopyDataStep::CopyCheckpoints => {
                CopyDataEvent::Counted(Ok(0))
            }
            CopyDataStep::Publish => CopyDataEvent::Published {
                outcome: Ok(()),
                shown_parent: "\"%2Ftarget%2Fworkspace\"".to_string(),
            },
            _ => CopyDataEvent::Done(Ok(())),
        };
        copy = copy.step(event);
    }
    let result = result_of(&copy);
    (written.expect("a summary"), result)
}

#[test]
fn copy_session_data_basic() {
    let options = CopySessionOptions {
        parent_session_id: Some("source-session-123".to_string()),
        ..options()
    };
    let (summary, result) = copied(options, "fork-source-session-123-abcd1234", [3, 1], true);
    assert_eq!(result.chat_messages_copied, 3);
    assert_eq!(result.updates_copied, 1);
    assert!(result.plan_state_copied);
    assert_eq!(summary.info.id, "fork-source-session-123-abcd1234");
    assert_eq!(summary.info.cwd, "/target/workspace");
    assert_eq!(summary.session_kind.as_deref(), Some("fork"));
    assert_eq!(summary.parent_session_id.as_deref(), Some("source-session-123"));
    assert!(summary.forked_at.is_some());
    assert_eq!(summary.num_chat_messages, 3);
    assert_eq!(summary.num_messages, 1);
}

#[test]
fn copy_session_data_without_plan() {
    let (_, result) = copied(options(), "fork-source-no-plan-12345678", [1, 0], false);
    assert_eq!(result.chat_messages_copied, 1);
    assert_eq!(result.updates_copied, 0);
    assert!(!result.plan_state_copied);
}
