//! What storage holds of a session, and what serving a message does to it.
//!
//! The model says of each storage operation what it does with what a message
//! carries. The laws say of each message what it does to the session.

use vstd::prelude::*;

use crate::actor::{action_in, served, transition, Action, Effect, Event, Phase, SessionPersistence};
use crate::feedback::{BtwEntry, LocalFeedbackEntry};
use crate::message::{single_op, PersistenceMsg, StorageOp};
use crate::notification::SessionUpdate;

verus! {

/// The model that a session runs under.
#[verifier::ext_equal]
pub struct StoredModel<P> {
    pub model_id: String,
    pub catalog_identity: Option<P>,
    pub agent_name: Option<String>,
}

/// A change to the rewind points of a session.
pub enum RewindChange<P> {
    Added(P),
    DroppedFrom(usize),
    MergedFrom(usize),
}

/// A change to the workflow runs of a session.
pub enum WorkflowChange<P> {
    Written(P),
    Deleted(String),
}

/// What storage holds of a session.
#[verifier::ext_equal]
pub struct SessionStore<P> {
    pub chat: Seq<P>,
    pub log: Seq<SessionUpdate<P>>,
    pub model: StoredModel<P>,
    /// The effort that the model reasons with.
    pub effort: Option<P>,
    pub plan: Option<P>,
    pub plan_mode: Option<P>,
    pub goal: Option<P>,
    pub signals: Option<P>,
    pub announcement: Option<P>,
    pub workflows: Seq<WorkflowChange<P>>,
    pub rewinds: Seq<RewindChange<P>>,
    pub title: Option<String>,
    pub last_turn: Option<(String, String)>,
    pub collection: Option<String>,
    pub trace: (u64, Option<String>),
    pub feedback: Seq<LocalFeedbackEntry<P>>,
    pub btw: Seq<BtwEntry>,
    pub git_head: (Option<String>, Option<String>),
    pub checkpoints: Seq<P>,
    pub compaction_requests: Seq<P>,
    pub recaps: Seq<P>,
    pub segments: Seq<P>,
}

/// The one payload that a message carries to storage, if it carries one.
pub open spec fn carried<P, R, G>(msg: PersistenceMsg<P, R, G>) -> Option<P> {
    match msg {
        PersistenceMsg::Chat(p) => Some(p),
        PersistenceMsg::AppendCwdSwitchAndAck { item, .. } => Some(item),
        PersistenceMsg::ReplaceChatHistory(p) => Some(p),
        PersistenceMsg::ReplaceChatHistoryAndAck { messages, .. } => Some(messages),
        PersistenceMsg::ModelSwitchAndAck { messages, .. } => Some(messages),
        PersistenceMsg::PlanState(p) => Some(p),
        PersistenceMsg::PlanModeState(p) => Some(p),
        PersistenceMsg::RewindPoint(p) => Some(p),
        PersistenceMsg::Signals(p) => Some(p),
        PersistenceMsg::AnnouncementState(p) => Some(p),
        PersistenceMsg::GoalModeState(p) => Some(p),
        PersistenceMsg::WorkflowRunState(p) => Some(p),
        PersistenceMsg::WorkflowRunStateAndAck { manifest, .. } => Some(manifest),
        PersistenceMsg::CompactionCheckpoint(p) => Some(p),
        PersistenceMsg::CompactionRequest(p) => Some(p),
        PersistenceMsg::RecapRequest(p) => Some(p),
        PersistenceMsg::CompactionSegment(p) => Some(p),
        _ => None,
    }
}

/// The model that a message names, if it names one.
pub open spec fn named_model<P, R, G>(msg: PersistenceMsg<P, R, G>) -> Option<StoredModel<P>> {
    match msg {
        PersistenceMsg::CurrentModel { model_id, catalog_identity, agent_name, .. } => Some(
            StoredModel { model_id, catalog_identity, agent_name },
        ),
        PersistenceMsg::CurrentModelAndAck { model_id, catalog_identity, agent_name, .. } => Some(
            StoredModel { model_id, catalog_identity, agent_name },
        ),
        PersistenceMsg::ModelSwitchAndAck { model_id, catalog_identity, agent_name, .. } => Some(
            StoredModel { model_id, catalog_identity, agent_name },
        ),
        _ => None,
    }
}

/// The effort after a message that may say how hard the model reasons.
pub open spec fn told_effort<P, R, G>(msg: PersistenceMsg<P, R, G>, was: Option<P>) -> Option<P> {
    match msg {
        PersistenceMsg::CurrentModel { reasoning_effort: Some(effort), .. } => effort,
        PersistenceMsg::CurrentModelAndAck { reasoning_effort: Some(effort), .. } => effort,
        PersistenceMsg::ModelSwitchAndAck { reasoning_effort, .. } => reasoning_effort,
        _ => was,
    }
}

/// What a storage operation makes of a session where it succeeds, with what
/// `msg` carries. `history` tells the items of a payload that is a whole chat.
pub open spec fn performed<P, R, G>(
    s: SessionStore<P>,
    op: StorageOp,
    msg: PersistenceMsg<P, R, G>,
    history: spec_fn(P) -> Seq<P>,
) -> SessionStore<P> {
    match (op, carried(msg), msg) {
        (StorageOp::AppendChatMessage, Some(p), _) => SessionStore { chat: s.chat.push(p), ..s },
        (StorageOp::AppendCwdSwitch, Some(p), _) => SessionStore {
            chat: if s.chat.contains(p) {
                s.chat
            } else {
                s.chat.push(p)
            },
            ..s
        },
        (StorageOp::ReplaceChatHistory, Some(p), _) => SessionStore { chat: history(p), ..s },
        (StorageOp::UpdateCurrentModel, _, _) => match named_model(msg) {
            Some(model) => SessionStore { model, effort: told_effort(msg, s.effort), ..s },
            None => s,
        },
        (StorageOp::CommitModelSwitch, Some(p), _) => match named_model(msg) {
            Some(model) => SessionStore {
                chat: history(p),
                model,
                effort: told_effort(msg, s.effort),
                ..s
            },
            None => s,
        },
        (StorageOp::WritePlanState, Some(p), _) => SessionStore { plan: Some(p), ..s },
        (StorageOp::WritePlanModeState, Some(p), _) => SessionStore { plan_mode: Some(p), ..s },
        (StorageOp::WriteGoalModeState, Some(p), _) => SessionStore { goal: Some(p), ..s },
        (StorageOp::DeleteGoalModeState, _, _) => SessionStore { goal: None, ..s },
        (StorageOp::WriteWorkflowRunState, Some(p), _) => SessionStore {
            workflows: s.workflows.push(WorkflowChange::Written(p)),
            ..s
        },
        (StorageOp::DeleteWorkflowRunState, _, PersistenceMsg::DeleteWorkflowRunState(run)) =>
            SessionStore { workflows: s.workflows.push(WorkflowChange::Deleted(run)), ..s },
        (StorageOp::SetGeneratedTitleIfAbsent, _, PersistenceMsg::GeneratedTitle(title)) =>
            SessionStore {
            title: match s.title {
                Some(t) => Some(t),
                None => Some(title),
            },
            ..s
        },
        (StorageOp::SetLastTurnSummary, _, PersistenceMsg::LastTurnSummary(summary)) => SessionStore {
            last_turn: summary,
            ..s
        },
        (StorageOp::AppendRewindPoint, Some(p), _) => SessionStore {
            rewinds: s.rewinds.push(RewindChange::Added(p)),
            ..s
        },
        (
            StorageOp::TruncateRewindPoints,
            _,
            PersistenceMsg::TruncateRewindPoints { from_index },
        ) => SessionStore { rewinds: s.rewinds.push(RewindChange::DroppedFrom(from_index)), ..s },
        (
            StorageOp::MergeRewindPoints,
            _,
            PersistenceMsg::MergeRewindPointsFrom { target_index },
        ) => SessionStore { rewinds: s.rewinds.push(RewindChange::MergedFrom(target_index)), ..s },
        (StorageOp::UpdateCollectionId, _, PersistenceMsg::CollectionId(id)) => SessionStore {
            collection: Some(id),
            ..s
        },
        (
            StorageOp::UpdateNextTraceTurn,
            _,
            PersistenceMsg::NextTraceTurn { next_trace_turn, request_id },
        ) => SessionStore { trace: (next_trace_turn, request_id), ..s },
        (StorageOp::WriteSignals, Some(p), _) => SessionStore { signals: Some(p), ..s },
        (StorageOp::WriteAnnouncementState, Some(p), _) => SessionStore {
            announcement: Some(p),
            ..s
        },
        (StorageOp::AppendFeedback, _, PersistenceMsg::Feedback(entry)) => SessionStore {
            feedback: s.feedback.push(entry),
            ..s
        },
        (StorageOp::AppendBtw, _, PersistenceMsg::Btw(entry)) => SessionStore {
            btw: s.btw.push(entry),
            ..s
        },
        (StorageOp::UpdateGitHead, _, PersistenceMsg::GitHead { commit, branch }) => SessionStore {
            git_head: (commit, branch),
            ..s
        },
        (StorageOp::WriteCompactionCheckpoint, Some(p), _) => SessionStore {
            checkpoints: s.checkpoints.push(p),
            ..s
        },
        (StorageOp::WriteCompactionRequest, Some(p), _) => SessionStore {
            compaction_requests: s.compaction_requests.push(p),
            ..s
        },
        (StorageOp::WriteRecapRequest, Some(p), _) => SessionStore {
            recaps: s.recaps.push(p),
            ..s
        },
        (StorageOp::WriteCompactionSegment, Some(p), _) => SessionStore {
            segments: s.segments.push(p),
            ..s
        },
        _ => s,
    }
}

/// What storage holds once the operation behind a message was carried out.
pub open spec fn store_after<P, R, G>(
    s: SessionStore<P>,
    msg: PersistenceMsg<P, R, G>,
    history: spec_fn(P) -> Seq<P>,
) -> SessionStore<P> {
    match single_op(msg) {
        Some(op) => performed(s, op, msg, history),
        None => s,
    }
}

/// Whether a message carries a whole chat.
pub open spec fn carries_history<P, R, G>(msg: PersistenceMsg<P, R, G>) -> bool {
    msg is ReplaceChatHistory || msg is ReplaceChatHistoryAndAck || msg is ModelSwitchAndAck
}

/// A chat item goes behind the chat that is there, and changes nothing else.
pub proof fn chat_item_is_appended<P, R, G>(
    s: SessionStore<P>,
    item: P,
    history: spec_fn(P) -> Seq<P>,
)
    ensures
        store_after(s, PersistenceMsg::<P, R, G>::Chat(item), history) == (SessionStore {
            chat: s.chat.push(item),
            ..s
        }),
{
}

/// Only a message that carries a whole chat drops items that were there.
pub proof fn chat_only_grows_otherwise<P, R, G>(
    s: SessionStore<P>,
    msg: PersistenceMsg<P, R, G>,
    history: spec_fn(P) -> Seq<P>,
)
    requires
        !carries_history(msg),
    ensures
        s.chat.is_prefix_of(store_after(s, msg, history).chat),
        store_after(s, msg, history).chat.len() <= s.chat.len() + 1,
        !(msg is Chat || msg is AppendCwdSwitchAndAck) ==> store_after(s, msg, history).chat
            == s.chat,
{
}

/// A whole chat takes the place of the one that was there; a model switch brings
/// the model with it, and nothing else changes.
pub proof fn whole_chat_is_replaced<P, R, G>(
    s: SessionStore<P>,
    msg: PersistenceMsg<P, R, G>,
    history: spec_fn(P) -> Seq<P>,
)
    requires
        carries_history(msg),
    ensures
        match msg {
            PersistenceMsg::ReplaceChatHistory(messages) => store_after(s, msg, history) == (
            SessionStore { chat: history(messages), ..s }),
            PersistenceMsg::ReplaceChatHistoryAndAck { messages, .. } => store_after(
                s,
                msg,
                history,
            ) == (SessionStore { chat: history(messages), ..s }),
            PersistenceMsg::ModelSwitchAndAck {
                messages,
                model_id,
                catalog_identity,
                agent_name,
                reasoning_effort,
                ..
            } => store_after(s, msg, history) == (SessionStore {
                chat: history(messages),
                model: StoredModel { model_id, catalog_identity, agent_name },
                effort: reasoning_effort,
                ..s
            }),
            _ => false,
        },
{
}

/// A message about the model changes the model and the effort, if it tells one;
/// the chat and all else stay.
pub proof fn model_messages_set_the_model<P, R, G>(
    s: SessionStore<P>,
    msg: PersistenceMsg<P, R, G>,
    history: spec_fn(P) -> Seq<P>,
)
    requires
        msg is CurrentModel || msg is CurrentModelAndAck,
    ensures
        match msg {
            PersistenceMsg::CurrentModel {
                model_id,
                catalog_identity,
                agent_name,
                reasoning_effort,
            } => store_after(s, msg, history) == (SessionStore {
                model: StoredModel { model_id, catalog_identity, agent_name },
                effort: match reasoning_effort {
                    Some(effort) => effort,
                    None => s.effort,
                },
                ..s
            }),
            PersistenceMsg::CurrentModelAndAck {
                model_id,
                catalog_identity,
                agent_name,
                reasoning_effort,
                ..
            } => store_after(s, msg, history) == (SessionStore {
                model: StoredModel { model_id, catalog_identity, agent_name },
                effort: match reasoning_effort {
                    Some(effort) => effort,
                    None => s.effort,
                },
                ..s
            }),
            _ => false,
        },
{
}

/// A message that carries a state of the session sets that state, and a message
/// that deletes one deletes it; all else stays.
pub proof fn states_are_set_one_by_one<P, R, G>(
    s: SessionStore<P>,
    msg: PersistenceMsg<P, R, G>,
    history: spec_fn(P) -> Seq<P>,
)
    ensures
        ({
            let t = store_after(s, msg, history);
            match msg {
                PersistenceMsg::PlanState(p) => t == (SessionStore { plan: Some(p), ..s }),
                PersistenceMsg::PlanModeState(p) => t == (SessionStore { plan_mode: Some(p), ..s }),
                PersistenceMsg::GoalModeState(p) => t == (SessionStore { goal: Some(p), ..s }),
                PersistenceMsg::DeleteGoalModeState { .. } => t == (SessionStore { goal: None, ..s }),
                PersistenceMsg::Signals(p) => t == (SessionStore { signals: Some(p), ..s }),
                PersistenceMsg::AnnouncementState(p) => t == (SessionStore {
                    announcement: Some(p),
                    ..s
                }),
                PersistenceMsg::LastTurnSummary(summary) => t == (SessionStore {
                    last_turn: summary,
                    ..s
                }),
                PersistenceMsg::CollectionId(id) => t == (SessionStore { collection: Some(id), ..s }),
                PersistenceMsg::NextTraceTurn { next_trace_turn, request_id } => t == (
                SessionStore { trace: (next_trace_turn, request_id), ..s }),
                PersistenceMsg::GitHead { commit, branch } => t == (SessionStore {
                    git_head: (commit, branch),
                    ..s
                }),
                _ => true,
            }
        }),
{
}

/// What a message adds to a log of the session goes behind what is there; all
/// else stays.
pub proof fn entries_are_added_behind<P, R, G>(
    s: SessionStore<P>,
    msg: PersistenceMsg<P, R, G>,
    history: spec_fn(P) -> Seq<P>,
)
    ensures
        ({
            let t = store_after(s, msg, history);
            match msg {
                PersistenceMsg::RewindPoint(p) => t == (SessionStore {
                    rewinds: s.rewinds.push(RewindChange::Added(p)),
                    ..s
                }),
                PersistenceMsg::TruncateRewindPoints { from_index } => t == (SessionStore {
                    rewinds: s.rewinds.push(RewindChange::DroppedFrom(from_index)),
                    ..s
                }),
                PersistenceMsg::MergeRewindPointsFrom { target_index } => t == (SessionStore {
                    rewinds: s.rewinds.push(RewindChange::MergedFrom(target_index)),
                    ..s
                }),
                PersistenceMsg::WorkflowRunState(p) => t == (SessionStore {
                    workflows: s.workflows.push(WorkflowChange::Written(p)),
                    ..s
                }),
                PersistenceMsg::WorkflowRunStateAndAck { manifest, .. } => t == (SessionStore {
                    workflows: s.workflows.push(WorkflowChange::Written(manifest)),
                    ..s
                }),
                PersistenceMsg::DeleteWorkflowRunState(run) => t == (SessionStore {
                    workflows: s.workflows.push(WorkflowChange::Deleted(run)),
                    ..s
                }),
                PersistenceMsg::Feedback(entry) => t == (SessionStore {
                    feedback: s.feedback.push(entry),
                    ..s
                }),
                PersistenceMsg::Btw(entry) => t == (SessionStore { btw: s.btw.push(entry), ..s }),
                PersistenceMsg::CompactionCheckpoint(p) => t == (SessionStore {
                    checkpoints: s.checkpoints.push(p),
                    ..s
                }),
                PersistenceMsg::CompactionRequest(p) => t == (SessionStore {
                    compaction_requests: s.compaction_requests.push(p),
                    ..s
                }),
                PersistenceMsg::RecapRequest(p) => t == (SessionStore {
                    recaps: s.recaps.push(p),
                    ..s
                }),
                PersistenceMsg::CompactionSegment(p) => t == (SessionStore {
                    segments: s.segments.push(p),
                    ..s
                }),
                _ => true,
            }
        }),
{
}

/// The item that tells of a switch of the working directory is in the chat once
/// it was served, and serving it again changes nothing.
pub proof fn cwd_switch_is_told_once<P, R, G>(
    s: SessionStore<P>,
    item: P,
    respond_to: R,
    history: spec_fn(P) -> Seq<P>,
)
    ensures
        ({
            let msg = PersistenceMsg::<P, R, G>::AppendCwdSwitchAndAck { item, respond_to };
            let t = store_after(s, msg, history);
            &&& t.chat.contains(item)
            &&& !s.chat.contains(item) ==> t.chat == s.chat.push(item)
            &&& store_after(t, msg, history) == t
            &&& t == (SessionStore { chat: t.chat, ..s })
        }),
{
    assert(s.chat.push(item)[s.chat.len() as int] == item);
}

/// A generated title is taken only where there is no title yet.
pub proof fn generated_title_replaces_none<P, R, G>(
    s: SessionStore<P>,
    title: String,
    history: spec_fn(P) -> Seq<P>,
)
    ensures
        ({
            let t = store_after(s, PersistenceMsg::<P, R, G>::GeneratedTitle(title), history);
            &&& s.title is Some ==> t == s
            &&& s.title is None ==> t == (SessionStore { title: Some(title), ..s })
        }),
{
}

/// Messages that ask for no change of the stored session change nothing of it
/// by an operation of their own.
pub proof fn requests_change_nothing_stored<P, R, G>(
    s: SessionStore<P>,
    msg: PersistenceMsg<P, R, G>,
    history: spec_fn(P) -> Seq<P>,
)
    requires
        msg is ProbeWritable || msg is Flush || msg is FlushAndAck || msg is ContentChunk
            || msg is ReplaceSummarySamplingConfig || msg is CopyFile || msg is UpgradeToWriteback
            || msg is PublishFresh || msg is AbortFreshAndDelete,
    ensures
        store_after(s, msg, history) == s,
        single_op(msg) is None || single_op(msg) == Some(StorageOp::ProbeWritable),
        msg is ProbeWritable ==> single_op(msg) == Some(StorageOp::ProbeWritable),
{
}

/// Whether a message is served by one storage operation alone.
pub open spec fn plainly_served<P, R, G>(msg: PersistenceMsg<P, R, G>) -> bool {
    ||| msg is ProbeWritable
    ||| msg is Chat
    ||| msg is AppendCwdSwitchAndAck
    ||| carries_history(msg)
    ||| msg is CurrentModel
    ||| msg is CurrentModelAndAck
    ||| msg is PlanState
    ||| msg is PlanModeState
    ||| msg is RewindPoint
    ||| msg is TruncateRewindPoints
    ||| msg is MergeRewindPointsFrom
    ||| msg is CollectionId
    ||| msg is NextTraceTurn
    ||| msg is Signals
    ||| msg is AnnouncementState
    ||| msg is GoalModeState
    ||| msg is DeleteGoalModeState
    ||| msg is WorkflowRunState
    ||| msg is WorkflowRunStateAndAck
    ||| msg is DeleteWorkflowRunState
    ||| msg is Feedback
    ||| msg is Btw
    ||| msg is GitHead
    ||| msg is CompactionCheckpoint
    ||| msg is CompactionRequest
    ||| msg is RecapRequest
    ||| msg is CompactionSegment
    ||| msg is GeneratedTitle
    ||| msg is LastTurnSummary
}

/// Such a message is taken up by its operation, with nothing else done to the
/// actor.
pub proof fn taken_up<P, R, G>(
    a: SessionPersistence<P, R, G>,
    msg: PersistenceMsg<P, R, G>,
    committed: bool,
)
    requires
        plainly_served(msg),
    ensures
        served(a, msg, committed) == (
            SessionPersistence { phase: Phase::Serving(msg), ..a },
            Seq::<Effect<P, R>>::empty(),
        ),
{
}

proof fn has_operation<P, R, G>(msg: PersistenceMsg<P, R, G>)
    requires
        plainly_served(msg),
    ensures
        single_op(msg) is Some,
{
}

/// A ready actor takes up such a message at once: the next thing the driver is
/// asked for is its storage operation, with the message at hand, and nothing
/// that was buffered is lost or written before it.
pub proof fn ready_actor_serves_at_once<P, R, G>(
    a: SessionPersistence<P, R, G>,
    msg: PersistenceMsg<P, R, G>,
    now_ms: u64,
    committed: bool,
    b: SessionPersistence<P, R, G>,
    out: Seq<Effect<P, R>>,
)
    requires
        a.wf(),
        a.phase is Receiving,
        plainly_served(msg),
        transition(a, Event::Message { msg, now_ms, committed }, b, out),
    ensures
        b.phase == Phase::Serving(msg),
        action_in(b.phase) is Perform,
        single_op(msg) == Some(action_in(b.phase)->Perform_0),
        b.pending_notification == a.pending_notification,
        b.in_flight == a.in_flight,
        forall|i: int| 0 <= i < out.len() ==> (#[trigger] out[i]) is TouchWorktree,
{
    let touched = SessionPersistence { last_worktree_touch_ms: now_ms, ..a };
    taken_up(a, msg, committed);
    taken_up(touched, msg, committed);
    has_operation(msg);
}

/// What an append makes of the log: the update in flight goes behind it.
pub open spec fn log_appended<P, R, G>(
    s: SessionStore<P>,
    a: SessionPersistence<P, R, G>,
) -> SessionStore<P> {
    match a.in_flight {
        Some(update) => SessionStore { log: s.log.push(update), ..s },
        None => s,
    }
}

/// An update of an extension is written as it came, next and alone.
pub proof fn extension_update_is_logged<P, R, G>(
    s: SessionStore<P>,
    a: SessionPersistence<P, R, G>,
    update: SessionUpdate<P>,
    now_ms: u64,
    committed: bool,
    b: SessionPersistence<P, R, G>,
    out: Seq<Effect<P, R>>,
)
    requires
        a.wf(),
        a.phase is Receiving,
        update is Xai,
        transition(a, Event::Message { msg: PersistenceMsg::Update(update), now_ms, committed }, b, out),
    ensures
        action_in(b.phase) == Action::Perform(StorageOp::AppendUpdate),
        log_appended(s, b) == (SessionStore { log: s.log.push(update), ..s }),
        b.pending_notification == a.pending_notification,
{
}

/// A durable update goes behind what is buffered: with an empty buffer it is
/// written next, and durably; otherwise what is buffered is.
pub proof fn durable_update_is_logged<P, R, G>(
    s: SessionStore<P>,
    a: SessionPersistence<P, R, G>,
    update: SessionUpdate<P>,
    respond_to: R,
    now_ms: u64,
    committed: bool,
    b: SessionPersistence<P, R, G>,
    out: Seq<Effect<P, R>>,
)
    requires
        a.wf(),
        a.phase is Receiving,
        transition(
            a,
            Event::Message {
                msg: PersistenceMsg::AppendUpdateDurablyAndAck { update, respond_to },
                now_ms,
                committed,
            },
            b,
            out,
        ),
    ensures
        match a.pending_notification {
            None => {
                &&& action_in(b.phase) == Action::Perform(StorageOp::AppendUpdateDurable)
                &&& log_appended(s, b) == (SessionStore { log: s.log.push(update), ..s })
            },
            Some(n) => {
                &&& action_in(b.phase) == Action::Perform(StorageOp::AppendUpdate)
                &&& log_appended(s, b) == (SessionStore {
                    log: s.log.push(SessionUpdate::Acp(n)),
                    ..s
                })
                &&& b.phase == Phase::<P, R, G>::Draining(
                    PersistenceMsg::AppendUpdateDurablyAndAck { update, respond_to },
                )
            },
        },
{
}

} // verus!
