//! The messages that the persistence actor serves, and the storage operation
//! behind each.
//!
//! `P` stands for payloads that pass through unread, `R` for a reply handle and
//! `G` for a publication gate's handle.

use vstd::prelude::*;

use crate::feedback::{BtwEntry, LocalFeedbackEntry};
use crate::notification::{PersistenceContentChunk, SessionUpdate};

verus! {

#[derive(Debug)]
#[allow(inconsistent_fields)]
pub enum PersistenceMsg<P, R, G> {
    /// A session update: protocol or extension.
    Update(SessionUpdate<P>),
    /// Append an update behind the buffered ones and acknowledge once durable.
    AppendUpdateDurablyAndAck { update: SessionUpdate<P>, respond_to: R },
    /// The content of a user turn, for the title and the search index.
    ContentChunk(PersistenceContentChunk<P>),
    ReplaceSummarySamplingConfig(P),
    Chat(P),
    AppendCwdSwitchAndAck { item: P, respond_to: R },
    /// Replace the whole chat history.
    ReplaceChatHistory(P),
    ReplaceChatHistoryAndAck { messages: P, respond_to: R },
    CurrentModel {
        model_id: String,
        catalog_identity: Option<P>,
        agent_name: Option<String>,
        reasoning_effort: Option<Option<P>>,
    },
    CurrentModelAndAck {
        model_id: String,
        catalog_identity: Option<P>,
        agent_name: Option<String>,
        reasoning_effort: Option<Option<P>>,
        respond_to: R,
    },
    /// Commit chat history and model as one crash-consistent operation.
    ModelSwitchAndAck {
        messages: P,
        model_id: String,
        catalog_identity: Option<P>,
        agent_name: Option<String>,
        reasoning_effort: Option<P>,
        summary_sampling_config: Option<P>,
        respond_to: R,
    },
    PlanState(P),
    PlanModeState(P),
    RewindPoint(P),
    /// Drop the rewind points from this prompt index on.
    TruncateRewindPoints { from_index: usize },
    /// Merge the rewind points from this index on into the one before.
    MergeRewindPointsFrom { target_index: usize },
    CollectionId(String),
    NextTraceTurn { next_trace_turn: u64, request_id: Option<String> },
    Signals(P),
    AnnouncementState(P),
    GoalModeState(P),
    DeleteGoalModeState { respond_to: R },
    WorkflowRunState(P),
    WorkflowRunStateAndAck { manifest: P, respond_to: R },
    DeleteWorkflowRunState(String),
    Feedback(LocalFeedbackEntry<P>),
    Btw(BtwEntry),
    GitHead { commit: Option<String>, branch: Option<String> },
    CompactionCheckpoint(P),
    CompactionRequest(P),
    RecapRequest(P),
    CompactionSegment(P),
    /// A title from the background generator.
    GeneratedTitle(String),
    /// The summary of the last turn with its prompt id, or none to clear it.
    LastTurnSummary(Option<(String, String)>),
    /// Delete a provisional fresh session and stop without flushing.
    AbortFreshAndDelete { publication_gate: G, respond_to: R },
    /// Make a provisional fresh session durable and arm its gate.
    PublishFresh { publication_gate: G, respond_to: R },
    /// Enable remote writeback for a session that began as local only.
    UpgradeToWriteback { auth_manager: P },
    Flush,
    /// Flush and acknowledge once everything buffered is written.
    FlushAndAck { respond_to: R },
    ProbeWritable { respond_to: R },
    /// Flush, then copy the session directory into memory.
    CopyFile { one_shot: R },
}

/// What the storage backend can be asked to do.
#[derive(Debug, Clone, Copy, PartialEq, Eq, Structural)]
pub enum StorageOp {
    AppendUpdate,
    AppendUpdateDurable,
    SyncSessionFiles,
    DeleteSession,
    LoadSession,
    CopySessionDir,
    ProbeWritable,
    AppendChatMessage,
    AppendCwdSwitch,
    ReplaceChatHistory,
    UpdateCurrentModel,
    CommitModelSwitch,
    WritePlanState,
    WritePlanModeState,
    WriteGoalModeState,
    DeleteGoalModeState,
    WriteWorkflowRunState,
    DeleteWorkflowRunState,
    SetGeneratedTitleIfAbsent,
    SetLastTurnSummary,
    AppendRewindPoint,
    TruncateRewindPoints,
    MergeRewindPoints,
    UpdateCollectionId,
    UpdateNextTraceTurn,
    WriteSignals,
    WriteAnnouncementState,
    AppendFeedback,
    AppendBtw,
    UpdateGitHead,
    WriteCompactionCheckpoint,
    WriteCompactionRequest,
    WriteRecapRequest,
    WriteCompactionSegment,
}

/// The one storage operation that serves a message; none for the messages
/// that take more than one step or no storage at all.
pub open spec fn single_op<P, R, G>(msg: PersistenceMsg<P, R, G>) -> Option<StorageOp> {
    match msg {
        PersistenceMsg::ProbeWritable { .. } => Some(StorageOp::ProbeWritable),
        PersistenceMsg::Chat(_) => Some(StorageOp::AppendChatMessage),
        PersistenceMsg::AppendCwdSwitchAndAck { .. } => Some(StorageOp::AppendCwdSwitch),
        PersistenceMsg::ReplaceChatHistory(_) => Some(StorageOp::ReplaceChatHistory),
        PersistenceMsg::ReplaceChatHistoryAndAck { .. } => Some(StorageOp::ReplaceChatHistory),
        PersistenceMsg::CurrentModel { .. } => Some(StorageOp::UpdateCurrentModel),
        PersistenceMsg::CurrentModelAndAck { .. } => Some(StorageOp::UpdateCurrentModel),
        PersistenceMsg::ModelSwitchAndAck { .. } => Some(StorageOp::CommitModelSwitch),
        PersistenceMsg::PlanState(_) => Some(StorageOp::WritePlanState),
        PersistenceMsg::PlanModeState(_) => Some(StorageOp::WritePlanModeState),
        PersistenceMsg::GoalModeState(_) => Some(StorageOp::WriteGoalModeState),
        PersistenceMsg::DeleteGoalModeState { .. } => Some(StorageOp::DeleteGoalModeState),
        PersistenceMsg::WorkflowRunState(_) => Some(StorageOp::WriteWorkflowRunState),
        PersistenceMsg::WorkflowRunStateAndAck { .. } => Some(StorageOp::WriteWorkflowRunState),
        PersistenceMsg::DeleteWorkflowRunState(_) => Some(StorageOp::DeleteWorkflowRunState),
        PersistenceMsg::GeneratedTitle(_) => Some(StorageOp::SetGeneratedTitleIfAbsent),
        PersistenceMsg::LastTurnSummary(_) => Some(StorageOp::SetLastTurnSummary),
        PersistenceMsg::RewindPoint(_) => Some(StorageOp::AppendRewindPoint),
        PersistenceMsg::TruncateRewindPoints { .. } => Some(StorageOp::TruncateRewindPoints),
        PersistenceMsg::MergeRewindPointsFrom { .. } => Some(StorageOp::MergeRewindPoints),
        PersistenceMsg::CollectionId(_) => Some(StorageOp::UpdateCollectionId),
        PersistenceMsg::NextTraceTurn { .. } => Some(StorageOp::UpdateNextTraceTurn),
        PersistenceMsg::Signals(_) => Some(StorageOp::WriteSignals),
        PersistenceMsg::AnnouncementState(_) => Some(StorageOp::WriteAnnouncementState),
        PersistenceMsg::Feedback(_) => Some(StorageOp::AppendFeedback),
        PersistenceMsg::Btw(_) => Some(StorageOp::AppendBtw),
        PersistenceMsg::GitHead { .. } => Some(StorageOp::UpdateGitHead),
        PersistenceMsg::CompactionCheckpoint(_) => Some(StorageOp::WriteCompactionCheckpoint),
        PersistenceMsg::CompactionRequest(_) => Some(StorageOp::WriteCompactionRequest),
        PersistenceMsg::RecapRequest(_) => Some(StorageOp::WriteRecapRequest),
        PersistenceMsg::CompactionSegment(_) => Some(StorageOp::WriteCompactionSegment),
        _ => None,
    }
}

impl<P, R, G> PersistenceMsg<P, R, G> {
    /// The one storage operation that serves this message, if one does.
    pub fn storage_op(&self) -> (r: Option<StorageOp>)
        ensures
            r == single_op(*self),
    {
        match self {
            PersistenceMsg::ProbeWritable { .. } => Some(StorageOp::ProbeWritable),
            PersistenceMsg::Chat(_) => Some(StorageOp::AppendChatMessage),
            PersistenceMsg::AppendCwdSwitchAndAck { .. } => Some(StorageOp::AppendCwdSwitch),
            PersistenceMsg::ReplaceChatHistory(_) => Some(StorageOp::ReplaceChatHistory),
            PersistenceMsg::ReplaceChatHistoryAndAck { .. } => Some(StorageOp::ReplaceChatHistory),
            PersistenceMsg::CurrentModel { .. } => Some(StorageOp::UpdateCurrentModel),
            PersistenceMsg::CurrentModelAndAck { .. } => Some(StorageOp::UpdateCurrentModel),
            PersistenceMsg::ModelSwitchAndAck { .. } => Some(StorageOp::CommitModelSwitch),
            PersistenceMsg::PlanState(_) => Some(StorageOp::WritePlanState),
            PersistenceMsg::PlanModeState(_) => Some(StorageOp::WritePlanModeState),
            PersistenceMsg::GoalModeState(_) => Some(StorageOp::WriteGoalModeState),
            PersistenceMsg::DeleteGoalModeState { .. } => Some(StorageOp::DeleteGoalModeState),
            PersistenceMsg::WorkflowRunState(_) => Some(StorageOp::WriteWorkflowRunState),
            PersistenceMsg::WorkflowRunStateAndAck { .. } => Some(StorageOp::WriteWorkflowRunState),
            PersistenceMsg::DeleteWorkflowRunState(_) => Some(StorageOp::DeleteWorkflowRunState),
            PersistenceMsg::GeneratedTitle(_) => Some(StorageOp::SetGeneratedTitleIfAbsent),
            PersistenceMsg::LastTurnSummary(_) => Some(StorageOp::SetLastTurnSummary),
            PersistenceMsg::RewindPoint(_) => Some(StorageOp::AppendRewindPoint),
            PersistenceMsg::TruncateRewindPoints { .. } => Some(StorageOp::TruncateRewindPoints),
            PersistenceMsg::MergeRewindPointsFrom { .. } => Some(StorageOp::MergeRewindPoints),
            PersistenceMsg::CollectionId(_) => Some(StorageOp::UpdateCollectionId),
            PersistenceMsg::NextTraceTurn { .. } => Some(StorageOp::UpdateNextTraceTurn),
            PersistenceMsg::Signals(_) => Some(StorageOp::WriteSignals),
            PersistenceMsg::AnnouncementState(_) => Some(StorageOp::WriteAnnouncementState),
            PersistenceMsg::Feedback(_) => Some(StorageOp::AppendFeedback),
            PersistenceMsg::Btw(_) => Some(StorageOp::AppendBtw),
            PersistenceMsg::GitHead { .. } => Some(StorageOp::UpdateGitHead),
            PersistenceMsg::CompactionCheckpoint(_) => Some(StorageOp::WriteCompactionCheckpoint),
            PersistenceMsg::CompactionRequest(_) => Some(StorageOp::WriteCompactionRequest),
            PersistenceMsg::RecapRequest(_) => Some(StorageOp::WriteRecapRequest),
            PersistenceMsg::CompactionSegment(_) => Some(StorageOp::WriteCompactionSegment),
            _ => None,
        }
    }
}

} // verus!
