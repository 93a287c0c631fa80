use session_persistence::actor::{
    Action, AppendUpdateError, Effect, Event, ModelSwitchCommitError, Refusal, SessionPersistence,
    WORKTREE_TOUCH_INTERVAL_MS, backfill_updates_to_sync,
};
use session_persistence::feedback::{default_btw_attempts, is_false};
use session_persistence::handle::{DurableAppendError, PersistenceHandle, Reply};
use session_persistence::io_error::{
    DiskFullCodes, ErrorKind, IoError, io_error_to_acp, is_disk_full_io_error,
};
use session_persistence::message::{PersistenceMsg, StorageOp};
use session_persistence::notification::{
    AcpUpdate, ContentBlock, ContentChunk, PersistenceContentChunk, SessionNotification,
    SessionUpdate, TextContent, is_empty_chunk, maybe_merge_notification, try_merge_text,
};

type Payload = &'static str;
type Actor = SessionPersistence<Payload, u32, u32>;
type Msg = PersistenceMsg<Payload, u32, u32>;
type Out = Vec<Effect<Payload, u32>>;

const CODES: DiskFullCodes = DiskFullCodes { no_space: Some(28), quota: Some(122) };

fn text_block(text: &str) -> ContentBlock<Payload> {
    ContentBlock::Text(TextContent { text: text.to_string(), annotations: None, meta: None })
}

fn chunk(text: &str) -> ContentChunk<Payload> {
    ContentChunk { content: text_block(text), meta: None }
}

fn notify(update: AcpUpdate<Payload>) -> SessionNotification<Payload> {
    SessionNotification { session_id: "s".to_string(), update, meta: None }
}

fn said(text: &str) -> SessionNotification<Payload> {
    notify(AcpUpdate::AgentMessageChunk(chunk(text)))
}

fn thought(text: &str) -> SessionNotification<Payload> {
    notify(AcpUpdate::AgentThoughtChunk(chunk(text)))
}

fn text_of(n: &SessionNotification<Payload>) -> &str {
    match &n.update {
        AcpUpdate::AgentMessageChunk(c) | AcpUpdate::AgentThoughtChunk(c) => match &c.content {
            ContentBlock::Text(t) => &t.text,
            ContentBlock::Other(p) => p,
        },
        AcpUpdate::Other(p) => p,
    }
}

fn full() -> IoError {
    IoError { kind: ErrorKind::Other, raw_os_error: Some(28), message: "full".to_string() }
}

fn denied() -> IoError {
    IoError::new(ErrorKind::PermissionDenied, "denied")
}

fn actor(fresh: bool, remote: bool) -> Actor {
    SessionPersistence::new(fresh, !fresh, remote, false, true, false, CODES, 0)
}

fn step(actor: Actor, event: Event<Payload, u32, u32>) -> (Actor, Out) {
    assert!(actor.accepts(&event), "{:?} in {:?}", event, actor.phase);
    let turn = actor.step(event);
    (turn.actor, turn.effects)
}

fn send(actor: Actor, msg: Msg) -> (Actor, Out) {
    step(actor, Event::Message { msg, now_ms: 1, committed: false })
}

fn update(n: SessionNotification<Payload>) -> Msg {
    PersistenceMsg::Update(SessionUpdate::Acp(n))
}

// Merging.

#[test]
fn consecutive_text_of_one_kind_is_merged() {
    let (buffer, due) = maybe_merge_notification(None, said("a"));
    assert!(due.is_none());
    let (buffer, due) = maybe_merge_notification(buffer, said("b"));
    assert!(due.is_none());
    assert_eq!(text_of(buffer.as_ref().unwrap()), "ab");
    let (buffer, due) = maybe_merge_notification(buffer, thought("t"));
    assert_eq!(text_of(&due.unwrap()), "ab");
    let (buffer, due) = maybe_merge_notification(buffer, said(""));
    assert!(due.is_none());
    assert_eq!(text_of(&buffer.unwrap()), "t");
}

#[test]
fn merging_keeps_the_order_in_which_text_is_shown() {
    let incoming =
        vec![said("a"), thought("x"), thought("y"), said("b"), said(""), said("c"), thought("z")];
    let kind = |n: &SessionNotification<Payload>| match &n.update {
        AcpUpdate::AgentThoughtChunk(_) => 'T',
        _ => 'S',
    };
    let mut shown = Vec::new();
    let mut buffer = None;
    for notification in incoming {
        let (kept, due) = maybe_merge_notification(buffer, notification);
        buffer = kept;
        shown.extend(due);
    }
    shown.extend(buffer);
    let shown: Vec<(char, String)> = shown.iter().map(|n| (kind(n), text_of(n).to_string())).collect();
    let expected = [('S', "a"), ('T', "xy"), ('S', "bc"), ('T', "z")];
    assert_eq!(shown, expected.map(|(kind, text)| (kind, text.to_string())));
}

#[test]
fn merged_text_takes_the_later_metadata() {
    let later =
        SessionNotification { session_id: "t".to_string(), meta: Some("m"), ..said("b") };
    let (buffer, _) = maybe_merge_notification(Some(said("a")), later);
    let merged = buffer.unwrap();
    assert_eq!(merged.session_id, "t");
    assert_eq!(merged.meta, Some("m"));
    assert_eq!(text_of(&merged), "ab");
}

#[test]
fn text_that_carries_more_is_not_merged() {
    let marked = notify(AcpUpdate::AgentMessageChunk(ContentChunk {
        content: text_block("b"),
        meta: Some("m"),
    }));
    let (buffer, due) = maybe_merge_notification(Some(said("a")), marked);
    assert_eq!(text_of(&due.unwrap()), "a");
    assert_eq!(text_of(&buffer.unwrap()), "b");
    let noted = ContentBlock::Text(TextContent {
        text: "b".to_string(),
        annotations: Some("n"),
        meta: None,
    });
    let (kept, merged) = try_merge_text(text_block("a"), &noted);
    assert!(!merged && matches!(kept, ContentBlock::Text(t) if t.text == "a"));
    let (joined, merged) = try_merge_text(text_block("a"), &text_block("b"));
    assert!(merged && matches!(joined, ContentBlock::Text(t) if t.text == "ab"));
}

#[test]
fn empty_chunks_are_those_without_text_and_metadata() {
    assert!(is_empty_chunk(&said("").update));
    assert!(is_empty_chunk(&thought("").update));
    assert!(!is_empty_chunk(&said("a").update));
    assert!(!is_empty_chunk(&AcpUpdate::Other("")));
    let marked: AcpUpdate<Payload> =
        AcpUpdate::AgentMessageChunk(ContentChunk { content: text_block(""), meta: Some("m") });
    assert!(!is_empty_chunk(&marked));
}

#[test]
fn turn_text_is_joined_line_by_line() {
    let turn = PersistenceContentChunk::new(vec![
        text_block("a"),
        ContentBlock::Other("image"),
        text_block(""),
        text_block("b"),
    ]);
    assert_eq!(turn.joined_text(), "a\n\nb");
    let none: PersistenceContentChunk<Payload> = PersistenceContentChunk::new(Vec::new());
    assert_eq!(none.joined_text(), "");
}

// The actor.

#[test]
fn updates_are_written_once_pushed_out_and_then_queued() {
    let (a, out) = send(actor(false, true), update(said("a")));
    assert!(out.is_empty() && a.action() == Action::Receive);
    let (a, _) = send(a, update(said("b")));
    let (a, _) = send(a, update(thought("t")));
    assert_eq!(a.action(), Action::Perform(StorageOp::AppendUpdate));
    let (a, out) = step(a, Event::Appended { result: Ok(()) });
    match out.as_slice() {
        [Effect::QueueSync { notification, remote: true, relay: false }] => {
            assert_eq!(text_of(notification), "ab")
        }
        out => panic!("{out:?}"),
    }
    let (a, _) = send(a, PersistenceMsg::Update(SessionUpdate::Xai("x")));
    assert_eq!(a.action(), Action::Perform(StorageOp::AppendUpdate));
    let (a, out) = step(a, Event::Appended { result: Ok(()) });
    assert!(out.is_empty());
    assert_eq!(text_of(&a.pending_notification.unwrap()), "t");
}

#[test]
fn aborted_fresh_publication_drops_queued_mutations_and_sync_side_effects() {
    let (a, out) = send(
        actor(true, true),
        PersistenceMsg::PublishFresh { publication_gate: 7, respond_to: 1 },
    );
    assert!(matches!(out.as_slice(), [Effect::FlushSync { remote: true, relay: false }]));
    assert_eq!(a.action(), Action::Perform(StorageOp::SyncSessionFiles));
    let (a, out) = step(a, Event::Done { result: Ok(()) });
    assert!(matches!(out.as_slice(), [Effect::Reply { to: 1, result: Ok(()) }]));
    assert_eq!(a.action(), Action::AwaitPublished);
    let (mut a, out) = step(a, Event::Gate { published: false, committed: false });
    assert!(out.is_empty());

    for msg in [
        update(said("must be discarded")),
        PersistenceMsg::Chat("must be discarded"),
        PersistenceMsg::UpgradeToWriteback { auth_manager: "auth" },
        PersistenceMsg::FlushAndAck { respond_to: 2 },
    ] {
        let (next, out) = send(a, msg);
        assert!(out.is_empty());
        assert_eq!(next.action(), Action::Receive);
        a = next;
    }
    assert!(a.pending_notification.is_none() && !a.remote_sync);

    let (a, _) = send(a, PersistenceMsg::AbortFreshAndDelete { publication_gate: 7, respond_to: 3 });
    assert_eq!(a.action(), Action::AbortGateAndJoinThreads);
    let (a, _) = step(a, Event::ThreadsExited { committed: false });
    assert_eq!(a.action(), Action::Perform(StorageOp::DeleteSession));
    let (a, out) = step(a, Event::Done { result: Ok(()) });
    assert!(matches!(
        out.as_slice(),
        [Effect::NotifySearch, Effect::Reply { to: 3, result: Ok(()) }]
    ));
    assert_eq!(a.action(), Action::Stop);
}

#[test]
fn published_and_resumed_sessions_are_not_aborted() {
    let abort = || PersistenceMsg::AbortFreshAndDelete { publication_gate: 7, respond_to: 3 };
    let (a, out) = send(actor(false, false), abort());
    assert!(matches!(
        out.as_slice(),
        [Effect::Refuse { to: 3, why: Refusal::NotProvisional }]
    ));
    assert_eq!(a.action(), Action::Receive);
    let (a, _) =
        step(actor(true, false), Event::Message { msg: abort(), now_ms: 1, committed: true });
    assert_eq!(a.action(), Action::ConvertClaim);
    let (a, out) = step(a, Event::Lease { result: Ok(()) });
    assert!(matches!(
        out.as_slice(),
        [Effect::Refuse { to: 3, why: Refusal::NotProvisional }]
    ));
    assert!(a.published_lease && !a.fresh_claim);
    let e = Refusal::NotProvisional.error();
    assert_eq!(e.kind, ErrorKind::InvalidInput);
    assert_eq!(
        e.message,
        "refusing to delete a published or resumed session through provisional abort"
    );
}

#[test]
fn only_claimed_fresh_sessions_can_be_armed() {
    let arm = || PersistenceMsg::PublishFresh { publication_gate: 7, respond_to: 3 };
    let (_, out) = send(actor(false, false), arm());
    assert!(matches!(
        out.as_slice(),
        [Effect::Refuse { to: 3, why: Refusal::NotPublishable }]
    ));
    let e = Refusal::NotPublishable.error();
    assert_eq!(e.kind, ErrorKind::InvalidInput);
    assert_eq!(e.message, "fresh session is published, aborted, or has no publication claim");
    let e = Refusal::AlreadyArmed.error();
    assert_eq!(e.kind, ErrorKind::AlreadyExists);
    assert_eq!(e.message, "fresh session publication is already armed");
}

fn armed() -> Actor {
    let (a, _) = send(
        actor(true, false),
        PersistenceMsg::PublishFresh { publication_gate: 7, respond_to: 1 },
    );
    step(a, Event::Done { result: Ok(()) }).0
}

#[test]
fn publication_downgrades_the_claim() {
    let (a, _) = step(armed(), Event::Gate { published: true, committed: true });
    assert_eq!(a.action(), Action::ConvertClaim);
    let (a, out) = step(a, Event::Lease { result: Ok(()) });
    assert!(matches!(out.as_slice(), [Effect::TouchWorktree]));
    assert!(a.published_lease && !a.fresh_claim);
    assert_eq!(a.action(), Action::Receive);

    let (a, _) = step(armed(), Event::Gate { published: true, committed: true });
    let (a, _) = step(a, Event::Lease { result: Err(denied()) });
    assert!(!a.published_lease && a.fresh_claim);
}

#[test]
fn gate_that_opens_before_the_commit_stops_the_actor() {
    let (a, out) = step(armed(), Event::Gate { published: true, committed: false });
    assert!(matches!(out.as_slice(), [Effect::DropClaim]));
    assert_eq!(a.action(), Action::Stop);
    assert!(a.fresh_publication_aborted && !a.fresh_claim);
}

#[test]
fn failed_flush_keeps_the_buffer_and_answers() {
    let (a, _) = send(actor(false, false), update(said("a")));
    let (a, _) = send(a, PersistenceMsg::FlushAndAck { respond_to: 2 });
    assert_eq!(a.action(), Action::Perform(StorageOp::AppendUpdate));
    let (a, out) = step(
        a,
        Event::Appended { result: Err(AppendUpdateError::NotCommitted(denied())) },
    );
    assert!(matches!(
        out.as_slice(),
        [Effect::Reply { to: 2, result: Err(e) }] if e.message == "denied"
    ));
    assert_eq!(text_of(&a.pending_notification.unwrap()), "a");
}

#[test]
fn durable_appends_come_behind_the_buffer() {
    let (a, _) = send(actor(false, true), update(said("a")));
    let (a, _) = send(
        a,
        PersistenceMsg::AppendUpdateDurablyAndAck {
            update: SessionUpdate::Acp(said("b")),
            respond_to: 2,
        },
    );
    assert_eq!(a.action(), Action::Perform(StorageOp::AppendUpdate));
    let (a, out) = step(a, Event::Appended { result: Err(AppendUpdateError::Committed(denied())) });
    assert!(matches!(
        out.as_slice(),
        [Effect::QueueSync { .. }, Effect::ReplyAppend { to: 2, result: Err(AppendUpdateError::Committed(_)) }]
    ));
    let (a, _) = send(
        a,
        PersistenceMsg::AppendUpdateDurablyAndAck {
            update: SessionUpdate::Acp(said("b")),
            respond_to: 2,
        },
    );
    assert_eq!(a.action(), Action::Perform(StorageOp::AppendUpdateDurable));
    let (_, out) = step(a, Event::Appended { result: Ok(()) });
    assert!(matches!(
        out.as_slice(),
        [Effect::QueueSync { .. }, Effect::ReplyAppend { to: 2, result: Ok(()) }]
    ));
}

#[test]
fn a_full_disk_is_told_once_until_a_write_succeeds() {
    let probe = |a: Actor, result: Result<(), IoError>| {
        let (a, _) = send(a, PersistenceMsg::ProbeWritable { respond_to: 1 });
        assert_eq!(a.action(), Action::Perform(StorageOp::ProbeWritable));
        step(a, Event::Done { result })
    };
    let (a, out) = probe(actor(false, false), Err(full()));
    assert!(matches!(
        out.as_slice(),
        [Effect::DiskFull(true), Effect::DiskFullNotice, Effect::Reply { .. }]
    ));
    let (a, out) = probe(a, Err(full()));
    assert!(matches!(out.as_slice(), [Effect::Reply { .. }]));
    let (a, out) = probe(a, Err(denied()));
    assert!(matches!(out.as_slice(), [Effect::Reply { .. }]));
    let (a, _) = send(a, PersistenceMsg::Flush);
    assert!(a.disk.full && a.disk.notified);
    let (a, out) = probe(a, Ok(()));
    assert!(matches!(out.as_slice(), [Effect::DiskFull(false), Effect::Reply { .. }]));
    let (_, out) = probe(a, Err(full()));
    assert!(matches!(
        out.as_slice(),
        [Effect::DiskFull(true), Effect::DiskFullNotice, Effect::Reply { .. }]
    ));
}

#[test]
fn worktrees_are_touched_at_most_hourly() {
    let chunk = || PersistenceMsg::ReplaceSummarySamplingConfig("c");
    let at = |a: Actor, now_ms: u64| {
        step(a, Event::Message { msg: chunk(), now_ms, committed: false })
    };
    let (a, out) = at(actor(false, false), WORKTREE_TOUCH_INTERVAL_MS - 1);
    assert!(matches!(out.as_slice(), [Effect::ReplaceSummarySampling("c")]));
    let (a, out) = at(a, WORKTREE_TOUCH_INTERVAL_MS);
    assert!(matches!(
        out.as_slice(),
        [Effect::TouchWorktree, Effect::ReplaceSummarySampling("c")]
    ));
    let (_, out) = at(a, WORKTREE_TOUCH_INTERVAL_MS + 1);
    assert_eq!(out.len(), 1);
    let (_, out) = at(actor(true, false), WORKTREE_TOUCH_INTERVAL_MS);
    assert_eq!(out.len(), 1);
}

#[test]
fn titles_are_announced_once_adopted() {
    let title = || PersistenceMsg::GeneratedTitle("T".to_string());
    let (a, _) = send(actor(false, true), title());
    assert_eq!(a.action(), Action::Perform(StorageOp::SetGeneratedTitleIfAbsent));
    let (a, out) = step(a, Event::Title { result: Ok(true) });
    assert!(matches!(
        out.as_slice(),
        [Effect::AdoptTitle { title, remote: true, registry: false }] if title == "T"
    ));
    let (a, _) = send(a, title());
    let (a, out) = step(a, Event::Title { result: Ok(false) });
    assert!(out.is_empty());
    let (a, _) = send(a, title());
    let (_, out) = step(a, Event::Title { result: Err(denied()) });
    assert!(out.is_empty());
}

fn model(respond_to: Option<u32>) -> Msg {
    let model_id = "m".to_string();
    match respond_to {
        None => PersistenceMsg::CurrentModel {
            model_id,
            catalog_identity: None,
            agent_name: None,
            reasoning_effort: None,
        },
        Some(respond_to) => PersistenceMsg::CurrentModelAndAck {
            model_id,
            catalog_identity: None,
            agent_name: None,
            reasoning_effort: None,
            respond_to,
        },
    }
}

#[test]
fn backends_learn_of_model_choices() {
    let (a, _) = send(actor(false, true), model(None));
    let (a, out) = step(a, Event::Done { result: Err(denied()) });
    assert!(matches!(out.as_slice(), [Effect::SetModel { .. }]));
    let (a, _) = send(a, model(Some(4)));
    let (a, out) = step(a, Event::Done { result: Err(denied()) });
    assert!(matches!(out.as_slice(), [Effect::Reply { to: 4, result: Err(_) }]));
    let (a, _) = send(a, model(Some(4)));
    let (_, out) = step(a, Event::Done { result: Ok(()) });
    assert!(matches!(
        out.as_slice(),
        [Effect::SetModel { .. }, Effect::Reply { to: 4, result: Ok(()) }]
    ));
}

#[test]
fn committed_model_switches_take_effect() {
    let switch = || PersistenceMsg::ModelSwitchAndAck {
        messages: "chat",
        model_id: "m".to_string(),
        catalog_identity: None,
        agent_name: None,
        reasoning_effort: None,
        summary_sampling_config: Some("config"),
        respond_to: 5,
    };
    let (a, _) = send(actor(false, true), switch());
    assert_eq!(a.action(), Action::Perform(StorageOp::CommitModelSwitch));
    let failed = ModelSwitchCommitError::NotCommitted(denied());
    assert!(!failed.is_committed());
    let (a, out) = step(a, Event::ModelSwitch { result: Err(failed) });
    assert!(matches!(out.as_slice(), [Effect::ReplyModelSwitch { to: 5, result: Err(_) }]));
    let (a, _) = send(a, switch());
    let late = ModelSwitchCommitError::Committed(denied());
    assert!(late.is_committed());
    let (_, out) = step(a, Event::ModelSwitch { result: Err(late) });
    assert!(matches!(
        out.as_slice(),
        [
            Effect::SetModel { .. },
            Effect::ReplaceSummarySampling("config"),
            Effect::ReplyModelSwitch { to: 5, .. }
        ]
    ));
}

#[test]
fn writeback_backfills_fresh_sessions_only() {
    let history = || vec![
        SessionUpdate::Acp(said("a")),
        SessionUpdate::Xai("x"),
        SessionUpdate::Acp(said("b")),
    ];
    for fresh in [true, false] {
        let (a, _) =
            send(actor(fresh, false), PersistenceMsg::UpgradeToWriteback { auth_manager: "auth" });
        assert_eq!(a.action(), Action::Perform(StorageOp::LoadSession));
        let (a, _) = step(a, Event::Loaded { result: Ok(history()) });
        assert_eq!(a.action(), Action::ConnectRemote);
        let (a, out) = step(a, Event::Connected { result: Ok(true) });
        assert!(a.remote_sync);
        match out.as_slice() {
            [Effect::Backfill { notifications }] => {
                assert!(fresh);
                let texts: Vec<&str> = notifications.iter().map(text_of).collect();
                assert_eq!(texts, vec!["a", "b"]);
            }
            [] => assert!(!fresh),
            out => panic!("{out:?}"),
        }
        let (a, out) = send(a, PersistenceMsg::UpgradeToWriteback { auth_manager: "auth" });
        assert!(out.is_empty() && a.action() == Action::Receive);
    }
    assert_eq!(backfill_updates_to_sync(true, history()).len(), 2);
    assert_eq!(backfill_updates_to_sync(false, history()).len(), 0);
    let (a, _) =
        send(actor(true, false), PersistenceMsg::UpgradeToWriteback { auth_manager: "auth" });
    let (a, _) = step(a, Event::Loaded { result: Err(denied()) });
    assert!(!a.remote_sync && a.action() == Action::Receive);
}

#[test]
fn copies_are_taken_after_a_flush_and_a_sync() {
    let (a, _) = send(actor(false, false), update(said("a")));
    let (a, _) = send(a, PersistenceMsg::CopyFile { one_shot: 9 });
    assert_eq!(a.action(), Action::Perform(StorageOp::AppendUpdate));
    let (a, _) = step(a, Event::Appended { result: Ok(()) });
    assert_eq!(a.action(), Action::Perform(StorageOp::SyncSessionFiles));
    let (a, _) = step(a, Event::Done { result: Err(denied()) });
    assert_eq!(a.action(), Action::Perform(StorageOp::CopySessionDir));
    let (_, out) = step(a, Event::Payload { payload: "files" });
    assert!(matches!(
        out.as_slice(),
        [Effect::ReplyPayload { to: 9, payload: "files" }]
    ));
}

#[test]
fn user_turns_reach_the_title_and_the_search_index() {
    let turn = PersistenceContentChunk::new(vec![text_block("hello")]);
    let (_, out) = send(actor(false, false), PersistenceMsg::ContentChunk(turn));
    match out.as_slice() {
        [Effect::UpdateSummary(chunk), Effect::NotifySearch] => {
            assert_eq!(chunk.joined_text(), "hello")
        }
        out => panic!("{out:?}"),
    }
}

#[test]
fn closing_the_channel_drains_the_buffer() {
    let (a, _) = send(actor(false, true), update(said("a")));
    let (a, _) = step(a, Event::Closed);
    assert_eq!(a.action(), Action::Perform(StorageOp::AppendUpdate));
    let (a, out) = step(a, Event::Appended { result: Ok(()) });
    assert!(matches!(
        out.as_slice(),
        [Effect::QueueSync { .. }, Effect::FlushSync { remote: true, relay: false }]
    ));
    assert_eq!(a.action(), Action::Stop);
}

#[test]
fn messages_name_their_storage_operation() {
    let cases: Vec<(Msg, Option<StorageOp>)> = vec![
        (PersistenceMsg::PlanState("p"), Some(StorageOp::WritePlanState)),
        (PersistenceMsg::RewindPoint("p"), Some(StorageOp::AppendRewindPoint)),
        (
            PersistenceMsg::TruncateRewindPoints { from_index: 3 },
            Some(StorageOp::TruncateRewindPoints),
        ),
        (
            PersistenceMsg::GitHead { commit: None, branch: None },
            Some(StorageOp::UpdateGitHead),
        ),
        (PersistenceMsg::LastTurnSummary(None), Some(StorageOp::SetLastTurnSummary)),
        (PersistenceMsg::Flush, None),
        (PersistenceMsg::CopyFile { one_shot: 1 }, None),
    ];
    for (msg, op) in cases {
        assert_eq!(msg.storage_op(), op);
    }
}

// Handles.

#[test]
fn handles_that_lead_nowhere_refuse_durable_appends() {
    assert!(PersistenceHandle::noop().is_noop());
    assert!(!PersistenceHandle::live().is_noop());
    let e = PersistenceHandle::noop().append_update_durably(Reply::NotSent).unwrap_err();
    assert!(matches!(&e, DurableAppendError::NotCommitted(e) if e.kind == ErrorKind::Unsupported));
    assert_eq!(
        e.message(),
        "durable session update append is unsupported by a no-op persistence handle"
    );
}

#[test]
fn stopped_actors_are_reported() {
    let live = PersistenceHandle::live();
    let e = live.append_update_durably(Reply::NotSent).unwrap_err();
    assert!(matches!(&e, DurableAppendError::NotCommitted(_)));
    assert_eq!(e.message(), "session persistence actor stopped before durable append dispatch");
    let e = live.append_update_durably(Reply::Lost).unwrap_err();
    assert!(matches!(&e, DurableAppendError::AcknowledgementLost(_)));
    assert_eq!(
        e.message(),
        "session persistence actor stopped before durable append acknowledgement"
    );
    let e = live
        .append_update_durably(Reply::Answer(Err(AppendUpdateError::Committed(denied()))))
        .unwrap_err();
    assert!(matches!(e, DurableAppendError::Committed(_)));
    assert!(live.append_update_durably(Reply::Answer(Ok(()))).is_ok());
    let text = |r: Result<(), IoError>| {
        let e = r.unwrap_err();
        assert_eq!(e.kind, ErrorKind::BrokenPipe);
        e.message
    };
    assert_eq!(
        text(PersistenceHandle::publish_fresh(Reply::NotSent)),
        "session persistence actor stopped before provisional publication"
    );
    assert_eq!(
        text(PersistenceHandle::publish_fresh(Reply::Lost)),
        "session persistence actor stopped before provisional publication acknowledgement"
    );
    assert_eq!(
        text(PersistenceHandle::abort_fresh_and_delete(Reply::NotSent)),
        "session persistence actor stopped before provisional abort"
    );
    assert_eq!(
        text(PersistenceHandle::abort_fresh_and_delete(Reply::Lost)),
        "session persistence actor stopped before provisional abort acknowledgement"
    );
    assert!(PersistenceHandle::publish_fresh(Reply::Answer(Ok(()))).is_ok());
}

// Failures.

#[test]
fn storage_full_maps_to_no_space_left() {
    let io = IoError {
        kind: ErrorKind::StorageFull,
        raw_os_error: None,
        message: "no storage space".to_string(),
    };
    assert!(is_disk_full_io_error(&io, CODES));
    let acp_err = io_error_to_acp(&io, CODES);
    assert_eq!(acp_err.message, "No space left on device");
    assert_eq!(acp_err.code, "FS_DISK_QUOTA_EXCEEDED");
}

#[test]
fn system_codes_report_a_full_disk() {
    let unix = DiskFullCodes { no_space: Some(libc::ENOSPC), quota: Some(libc::EDQUOT) };
    let windows = DiskFullCodes { no_space: Some(112), quota: Some(39) };
    for (codes, raw) in [
        (unix, libc::ENOSPC),
        (unix, libc::EDQUOT),
        (windows, 112),
        (windows, 39),
    ] {
        let e = IoError { raw_os_error: Some(raw), ..denied() };
        assert!(is_disk_full_io_error(&e, codes));
        assert_eq!(io_error_to_acp(&e, codes).code, "FS_DISK_QUOTA_EXCEEDED");
    }
    assert!(is_disk_full_io_error(&full(), CODES));
    let foreign = IoError { raw_os_error: Some(1), ..denied() };
    assert!(!is_disk_full_io_error(&foreign, CODES));
    assert_eq!(io_error_to_acp(&foreign, CODES).code, "FS_PERMISSION_DENIED");
    let none = DiskFullCodes { no_space: None, quota: None };
    assert!(!is_disk_full_io_error(&full(), none), "a platform without codes");
    assert!(!is_disk_full_io_error(&denied(), none));
}

#[test]
fn failures_are_described_to_clients() {
    let describe = |kind: ErrorKind| {
        let e = io_error_to_acp(&IoError::new(kind, "detail"), CODES);
        assert_eq!(e.detail, "detail");
        (e.message, e.code)
    };
    assert_eq!(
        describe(ErrorKind::NotFound),
        ("Path not found.".to_string(), "FS_NOT_FOUND".to_string())
    );
    assert_eq!(
        describe(ErrorKind::PermissionDenied),
        ("Permission denied.".to_string(), "FS_PERMISSION_DENIED".to_string())
    );
    assert_eq!(
        describe(ErrorKind::BrokenPipe),
        ("An unexpected I/O error occurred.".to_string(), "FS_OTHER".to_string())
    );
}

#[test]
fn stored_entries_have_their_defaults() {
    assert_eq!(default_btw_attempts(), 1);
    assert!(is_false(&false) && !is_false(&true));
}

#[test]
fn notifications_reach_the_log_in_the_order_they_came() {
    let mut now = actor(false, false);
    let mut log = Vec::new();
    let messages = vec![
        update(said("a")),
        update(said("b")),
        update(said("")),
        update(thought("c")),
        PersistenceMsg::Flush,
        update(notify(AcpUpdate::Other("d"))),
        update(said("e")),
        PersistenceMsg::Flush,
    ];
    let mut failures = 1;
    for msg in messages {
        let draining = matches!(msg, PersistenceMsg::Flush);
        now = send(now, msg).0;
        while let Action::Perform(StorageOp::AppendUpdate) = now.action() {
            let Some(SessionUpdate::Acp(n)) = &now.in_flight else { panic!("nothing in flight") };
            let result = if draining && failures > 0 {
                failures -= 1;
                Err(AppendUpdateError::NotCommitted(denied()))
            } else {
                log.push(text_of(n).to_string());
                Ok(())
            };
            now = step(now, Event::Appended { result }).0;
        }
    }
    assert_eq!(log, ["ab", "c", "d", "e"], "what a drain could not write is kept in its place");
}
