//! The persistence actor of one session, as a machine from state and event to
//! state, effects and the next action.
//!
//! The driver performs the [`Action`] that the state asks for, carries out the
//! effects in order and hands back what happened as an [`Event`].

use vstd::prelude::*;

use crate::io_error::{disk_full, is_disk_full_io_error, DiskFullCodes, ErrorKind, IoError};
use crate::message::{single_op, PersistenceMsg, StorageOp};
use crate::notification::{
    empty_chunk, maybe_merge_notification, merge_step, mergeable, PersistenceContentChunk,
    SessionNotification, SessionUpdate,
};

verus! {

/// Floor between activity-driven worktree touches, in milliseconds.
pub const WORKTREE_TOUCH_INTERVAL_MS: u64 = 3_600_000;

/// A failed append, by whether the line reached the log.
#[derive(Debug)]
pub enum AppendUpdateError {
    NotCommitted(IoError),
    Committed(IoError),
}

impl AppendUpdateError {
    pub open spec fn io_error(&self) -> IoError {
        match self {
            AppendUpdateError::NotCommitted(e) | AppendUpdateError::Committed(e) => *e,
        }
    }

    pub fn into_io_error(self) -> (r: IoError)
        ensures
            r == self.io_error(),
    {
        match self {
            AppendUpdateError::NotCommitted(e) => e,
            AppendUpdateError::Committed(e) => e,
        }
    }
}

/// A failed model switch, by whether the switch took effect.
#[derive(Debug)]
pub enum ModelSwitchCommitError {
    NotCommitted(IoError),
    Committed(IoError),
}

impl ModelSwitchCommitError {
    pub fn is_committed(&self) -> (r: bool)
        ensures
            r == (*self is Committed),
    {
        match self {
            ModelSwitchCommitError::Committed(_) => true,
            ModelSwitchCommitError::NotCommitted(_) => false,
        }
    }
}

/// Why the actor refuses a request.
#[derive(Debug, Clone, Copy, PartialEq, Eq, Structural)]
pub enum Refusal {
    /// An abort names a session that is published or was resumed.
    NotProvisional,
    /// The session is published, aborted or without a publication claim.
    NotPublishable,
    /// A gate is armed already.
    AlreadyArmed,
}

impl Refusal {
    pub open spec fn kind(&self) -> ErrorKind {
        match self {
            Refusal::NotProvisional => ErrorKind::InvalidInput,
            Refusal::NotPublishable => ErrorKind::InvalidInput,
            Refusal::AlreadyArmed => ErrorKind::AlreadyExists,
        }
    }

    pub open spec fn text(&self) -> Seq<char> {
        match self {
            Refusal::NotProvisional =>
                "refusing to delete a published or resumed session through provisional abort"@,
            Refusal::NotPublishable =>
                "fresh session is published, aborted, or has no publication claim"@,
            Refusal::AlreadyArmed => "fresh session publication is already armed"@,
        }
    }

    /// The failure that the requester sees.
    pub fn error(&self) -> (r: IoError)
        ensures
            r.says(self.kind(), self.text()),
    {
        match self {
            Refusal::NotProvisional => IoError::new(
                ErrorKind::InvalidInput,
                "refusing to delete a published or resumed session through provisional abort",
            ),
            Refusal::NotPublishable => IoError::new(
                ErrorKind::InvalidInput,
                "fresh session is published, aborted, or has no publication claim",
            ),
            Refusal::AlreadyArmed => IoError::new(
                ErrorKind::AlreadyExists,
                "fresh session publication is already armed",
            ),
        }
    }
}

/// Whether the disk is reported full, and whether the user was told so.
#[derive(Debug, Clone, Copy, PartialEq, Eq, Structural)]
pub struct DiskFullLatch {
    pub full: bool,
    pub notified: bool,
}

/// What happens outside the actor, in the order listed, besides its action.
#[derive(Debug)]
#[allow(inconsistent_fields)]
pub enum Effect<P, R> {
    /// Stamp the worktree of the session as used.
    TouchWorktree,
    /// Give up the fresh claim, which reclaims its private stage.
    DropClaim,
    /// Queue a written notification to the remote and relay backends named.
    QueueSync { notification: SessionNotification<P>, remote: bool, relay: bool },
    /// Flush the remote and relay backends named.
    FlushSync { remote: bool, relay: bool },
    /// Queue these to the new remote backend, in order, and flush it.
    Backfill { notifications: Vec<SessionNotification<P>> },
    /// Publish whether the disk is full.
    DiskFull(bool),
    /// Tell the client that the disk is full.
    DiskFullNotice,
    /// Tell the search index that the session changed.
    NotifySearch,
    /// Hand the remote backend the model selection.
    SetModel { model_id: String, catalog_identity: Option<P>, agent_name: Option<String> },
    ReplaceSummarySampling(P),
    /// Feed the joined text of these blocks to the title generator.
    UpdateSummary(PersistenceContentChunk<P>),
    /// Announce an adopted title to the client, and to the backends named.
    AdoptTitle { title: String, remote: bool, registry: bool },
    Reply { to: R, result: Result<(), IoError> },
    Refuse { to: R, why: Refusal },
    ReplyAppend { to: R, result: Result<(), AppendUpdateError> },
    ReplyModelSwitch { to: R, result: Result<(), ModelSwitchCommitError> },
    /// Hand on what storage produced.
    ReplyPayload { to: R, payload: P },
}

/// What the actor waits for or is working on.
#[derive(Debug)]
pub enum Phase<P, R, G> {
    /// Ready for the next message.
    Receiving,
    /// Quiescent until the armed gate is published or aborted.
    AwaitingGate(G),
    /// Turning the claim of a just published session into a shared lease.
    Downgrading,
    /// The publication was aborted: only the cleanup request is served.
    Sealed,
    /// Aborting a gate and waiting for its session threads to exit.
    Joining { gate: G, respond_to: R, sealed: bool },
    /// Retaining the lease of a committed session whose abort is refused.
    Retaining { respond_to: R, sealed: bool },
    /// Deleting the provisional session.
    Deleting { respond_to: R },
    /// Writing the update in flight for a plain update message.
    Writing,
    /// Writing the update in flight durably.
    WritingDurably { respond_to: R },
    /// Writing the drained notification in flight on behalf of a message.
    Draining(PersistenceMsg<P, R, G>),
    /// Syncing session files on behalf of a message.
    Syncing(PersistenceMsg<P, R, G>),
    /// Copying the session directory.
    Copying { one_shot: R },
    /// Loading the session to enable writeback.
    Loading { auth_manager: P },
    /// Connecting the remote backend to enable writeback.
    Connecting { auth_manager: P, updates: Vec<SessionUpdate<P>> },
    /// Performing the one storage operation of a message.
    Serving(PersistenceMsg<P, R, G>),
    /// Writing what was buffered when the channel closed.
    Closing,
    Stopped,
}

/// What the driver does next.
#[derive(Debug, Clone, Copy, PartialEq, Eq, Structural)]
pub enum Action {
    Receive,
    AwaitPublished,
    AbortGateAndJoinThreads,
    ConvertClaim,
    ConnectRemote,
    Perform(StorageOp),
    Stop,
}

/// What happened. `committed` says whether the namespace commit of the fresh
/// publication has taken place at that moment.
#[derive(Debug)]
#[allow(inconsistent_fields)]
pub enum Event<P, R, G> {
    Message { msg: PersistenceMsg<P, R, G>, now_ms: u64, committed: bool },
    Closed,
    Gate { published: bool, committed: bool },
    Lease { result: Result<(), IoError> },
    ThreadsExited { committed: bool },
    Appended { result: Result<(), AppendUpdateError> },
    Done { result: Result<(), IoError> },
    Title { result: Result<bool, IoError> },
    ModelSwitch { result: Result<(), ModelSwitchCommitError> },
    Payload { payload: P },
    Loaded { result: Result<Vec<SessionUpdate<P>>, IoError> },
    /// Whether a remote backend is to be used, or why it could not be set up.
    Connected { result: Result<bool, IoError> },
}

/// The actor of one session.
#[derive(Debug)]
pub struct SessionPersistence<P, R, G> {
    /// The merge buffer of consecutive text chunks.
    pub pending_notification: Option<SessionNotification<P>>,
    /// The update whose append has been asked for.
    pub in_flight: Option<SessionUpdate<P>>,
    pub remote_sync: bool,
    pub relay_sync: bool,
    /// Whether a client can be notified.
    pub gateway: bool,
    /// Whether generated titles go to the session registry.
    pub registry_titles: bool,
    /// Whether this run created the session.
    pub created_fresh: bool,
    /// Whether the exclusive claim of a fresh session is held.
    pub fresh_claim: bool,
    /// Whether the shared lease of a published session is held.
    pub published_lease: bool,
    pub pending_publication_gate: Option<G>,
    /// Terminal: no later message can arm publication again.
    pub fresh_publication_aborted: bool,
    pub disk: DiskFullLatch,
    pub codes: DiskFullCodes,
    pub last_worktree_touch_ms: u64,
    pub phase: Phase<P, R, G>,
}

/// The state after an event and the effects of it.
#[derive(Debug)]
pub struct Turn<P, R, G> {
    pub actor: SessionPersistence<P, R, G>,
    pub effects: Vec<Effect<P, R>>,
}

// The disk-full latch.

/// The latch once a full disk was seen.
pub open spec fn marked(latch: DiskFullLatch) -> DiskFullLatch {
    DiskFullLatch { full: true, notified: true }
}

pub open spec fn mark_effects<P, R>(latch: DiskFullLatch, gateway: bool) -> Seq<Effect<P, R>> {
    let published = if latch.full {
        Seq::empty()
    } else {
        seq![Effect::<P, R>::DiskFull(true)]
    };
    if !latch.notified && gateway {
        published.push(Effect::DiskFullNotice)
    } else {
        published
    }
}

/// The latch once a write succeeded.
pub open spec fn cleared(latch: DiskFullLatch) -> DiskFullLatch {
    DiskFullLatch { full: false, notified: false }
}

pub open spec fn clear_effects<P, R>(latch: DiskFullLatch) -> Seq<Effect<P, R>> {
    if latch.full {
        seq![Effect::<P, R>::DiskFull(false)]
    } else {
        Seq::empty()
    }
}

/// The latch once a write ended in `failure`, none for success.
pub open spec fn latch_after(
    latch: DiskFullLatch,
    failure: Option<IoError>,
    codes: DiskFullCodes,
) -> DiskFullLatch {
    match failure {
        None => cleared(latch),
        Some(e) => if disk_full(e, codes) {
            marked(latch)
        } else {
            latch
        },
    }
}

pub open spec fn latch_effects<P, R>(
    latch: DiskFullLatch,
    failure: Option<IoError>,
    codes: DiskFullCodes,
    gateway: bool,
) -> Seq<Effect<P, R>> {
    match failure {
        None => clear_effects(latch),
        Some(e) => if disk_full(e, codes) {
            mark_effects(latch, gateway)
        } else {
            Seq::empty()
        },
    }
}

pub open spec fn io_failure(result: Result<(), IoError>) -> Option<IoError> {
    match result {
        Ok(_) => None,
        Err(e) => Some(e),
    }
}

pub open spec fn append_failure(result: Result<(), AppendUpdateError>) -> Option<IoError> {
    match result {
        Ok(_) => None,
        Err(e) => Some(e.io_error()),
    }
}

/// Whether an append left its line in the log.
pub open spec fn append_committed(result: Result<(), AppendUpdateError>) -> bool {
    match result {
        Ok(_) => true,
        Err(e) => e is Committed,
    }
}

// Transitions.

/// The top of the loop: quiescent if a gate is armed, else ready.
pub open spec fn resumed<P, R, G>(s: SessionPersistence<P, R, G>) -> SessionPersistence<P, R, G> {
    match s.pending_publication_gate {
        Some(gate) => SessionPersistence {
            pending_publication_gate: None,
            phase: Phase::AwaitingGate(gate),
            ..s
        },
        None => SessionPersistence { phase: Phase::Receiving, ..s },
    }
}

pub open spec fn in_phase<P, R, G>(
    s: SessionPersistence<P, R, G>,
    phase: Phase<P, R, G>,
) -> SessionPersistence<P, R, G> {
    SessionPersistence { phase, ..s }
}

/// What queueing a written update to the backends amounts to.
pub open spec fn queue_effects<P, R, G>(
    s: SessionPersistence<P, R, G>,
    update: SessionUpdate<P>,
) -> Seq<Effect<P, R>> {
    match update {
        SessionUpdate::Acp(notification) if s.remote_sync || s.relay_sync => seq![
            Effect::QueueSync { notification, remote: s.remote_sync, relay: s.relay_sync },
        ],
        _ => Seq::empty(),
    }
}

pub open spec fn flush_effects<P, R, G>(s: SessionPersistence<P, R, G>) -> Seq<Effect<P, R>> {
    if s.remote_sync || s.relay_sync {
        seq![Effect::FlushSync { remote: s.remote_sync, relay: s.relay_sync }]
    } else {
        Seq::empty()
    }
}

/// What follows the drain of the buffer on behalf of `msg`.
pub open spec fn drained<P, R, G>(
    s: SessionPersistence<P, R, G>,
    msg: PersistenceMsg<P, R, G>,
    result: Result<(), AppendUpdateError>,
) -> (SessionPersistence<P, R, G>, Seq<Effect<P, R>>) {
    match msg {
        PersistenceMsg::AppendUpdateDurablyAndAck { update, respond_to } => match result {
            Ok(_) => (
                SessionPersistence {
                    in_flight: Some(update),
                    phase: Phase::WritingDurably { respond_to },
                    ..s
                },
                Seq::empty(),
            ),
            Err(_) => (resumed(s), seq![Effect::ReplyAppend { to: respond_to, result }]),
        },
        PersistenceMsg::PublishFresh { publication_gate, respond_to } => match result {
            Ok(_) => (in_phase(s, Phase::Syncing(msg)), flush_effects(s)),
            Err(e) => (
                resumed(s),
                flush_effects(s).push(Effect::Reply { to: respond_to, result: Err(e.io_error()) }),
            ),
        },
        PersistenceMsg::FlushAndAck { respond_to } => (
            resumed(s),
            flush_effects(s).push(
                Effect::Reply {
                    to: respond_to,
                    result: match result {
                        Ok(_) => Ok(()),
                        Err(e) => Err(e.io_error()),
                    },
                },
            ),
        ),
        PersistenceMsg::UpgradeToWriteback { auth_manager } => (
            in_phase(s, Phase::Loading { auth_manager }),
            flush_effects(s),
        ),
        PersistenceMsg::CopyFile { .. } => (in_phase(s, Phase::Syncing(msg)), flush_effects(s)),
        _ => (resumed(s), flush_effects(s)),
    }
}

/// Begins to drain the buffer on behalf of `msg`.
pub open spec fn draining<P, R, G>(
    s: SessionPersistence<P, R, G>,
    msg: PersistenceMsg<P, R, G>,
) -> (SessionPersistence<P, R, G>, Seq<Effect<P, R>>) {
    match s.pending_notification {
        Some(n) => (
            SessionPersistence {
                pending_notification: None,
                in_flight: Some(SessionUpdate::Acp(n)),
                phase: Phase::Draining(msg),
                ..s
            },
            Seq::empty(),
        ),
        None => drained(s, msg, Ok(())),
    }
}

/// The state once the append of the update in flight ended, and the effects:
/// the latch follows the result and a line that reached the log is queued.
/// A drained notification that did not reach the log goes back to the buffer.
pub open spec fn appended<P, R, G>(
    s: SessionPersistence<P, R, G>,
    update: SessionUpdate<P>,
    result: Result<(), AppendUpdateError>,
    restore: bool,
) -> (SessionPersistence<P, R, G>, Seq<Effect<P, R>>) {
    let failure = append_failure(result);
    let after = SessionPersistence {
        in_flight: None,
        phase: Phase::Receiving,
        disk: latch_after(s.disk, failure, s.codes),
        pending_notification: match update {
            SessionUpdate::Acp(n) if restore && !append_committed(result) => Some(n),
            _ => s.pending_notification,
        },
        ..s
    };
    let latch = latch_effects::<P, R>(s.disk, failure, s.codes, s.gateway);
    (
        after,
        if append_committed(result) {
            latch + queue_effects(s, update)
        } else {
            latch
        },
    )
}

/// The notification that an arrival pushes out of the buffer.
pub open spec fn pushed_out<P>(
    pending: Option<SessionNotification<P>>,
    incoming: SessionNotification<P>,
) -> Option<SessionNotification<P>> {
    match pending {
        Some(first) if !empty_chunk(incoming.update) && !mergeable(
            first.update,
            incoming.update,
        ) => Some(first),
        _ => None,
    }
}

/// Whether a request to arm publication is refused, and why.
pub open spec fn publish_refusal<P, R, G>(s: SessionPersistence<P, R, G>) -> Option<Refusal> {
    if !s.created_fresh || !s.fresh_claim || s.fresh_publication_aborted {
        Some(Refusal::NotPublishable)
    } else if s.pending_publication_gate is Some {
        Some(Refusal::AlreadyArmed)
    } else {
        None
    }
}

/// Whether the session exists only as private provisional state.
pub open spec fn provisional<P, R, G>(s: SessionPersistence<P, R, G>, committed: bool) -> bool {
    s.created_fresh && s.fresh_claim && !committed
}

/// Whether the session is committed but its exclusive claim is still held.
pub open spec fn claim_committed<P, R, G>(s: SessionPersistence<P, R, G>, committed: bool) -> bool {
    s.created_fresh && s.fresh_claim && committed
}

/// Whether the worktree is due for a touch when a message arrives.
pub open spec fn touch_due<P, R, G>(s: SessionPersistence<P, R, G>, now_ms: u64) -> bool {
    !s.fresh_claim && now_ms >= s.last_worktree_touch_ms && now_ms - s.last_worktree_touch_ms
        >= WORKTREE_TOUCH_INTERVAL_MS
}

/// Nothing of a session that is being given up reaches the buffer or a backend.
pub open spec fn silenced<P, R, G>(s: SessionPersistence<P, R, G>) -> SessionPersistence<P, R, G> {
    SessionPersistence { pending_notification: None, remote_sync: false, relay_sync: false, ..s }
}

/// How a received message begins to be served, apart from a protocol update.
pub open spec fn served<P, R, G>(
    s: SessionPersistence<P, R, G>,
    msg: PersistenceMsg<P, R, G>,
    committed: bool,
) -> (SessionPersistence<P, R, G>, Seq<Effect<P, R>>) {
    match msg {
        PersistenceMsg::AbortFreshAndDelete { publication_gate, respond_to } => if provisional(
            s,
            committed,
        ) {
            (
                SessionPersistence {
                    fresh_publication_aborted: true,
                    phase: Phase::Joining { gate: publication_gate, respond_to, sealed: false },
                    ..s
                },
                Seq::empty(),
            )
        } else if claim_committed(s, committed) {
            (in_phase(s, Phase::Retaining { respond_to, sealed: false }), Seq::empty())
        } else {
            (resumed(s), seq![Effect::Refuse { to: respond_to, why: Refusal::NotProvisional }])
        },
        PersistenceMsg::PublishFresh { publication_gate, respond_to } => match publish_refusal(s) {
            Some(why) => (resumed(s), seq![Effect::Refuse { to: respond_to, why }]),
            None => draining(s, msg),
        },
        PersistenceMsg::UpgradeToWriteback { .. } => if s.remote_sync {
            (resumed(s), Seq::empty())
        } else {
            draining(s, msg)
        },
        PersistenceMsg::Flush => draining(s, msg),
        PersistenceMsg::FlushAndAck { .. } => draining(s, msg),
        PersistenceMsg::CopyFile { .. } => draining(s, msg),
        PersistenceMsg::AppendUpdateDurablyAndAck { .. } => draining(s, msg),
        PersistenceMsg::Update(update) => (
            SessionPersistence { in_flight: Some(update), phase: Phase::Writing, ..s },
            Seq::empty(),
        ),
        PersistenceMsg::ContentChunk(chunk) => (
            resumed(s),
            seq![Effect::UpdateSummary(chunk), Effect::NotifySearch],
        ),
        PersistenceMsg::ReplaceSummarySamplingConfig(config) => (
            resumed(s),
            seq![Effect::ReplaceSummarySampling(config)],
        ),
        _ => (in_phase(s, Phase::Serving(msg)), Seq::empty()),
    }
}

/// Whether the result of the message's storage operation moves the latch.
pub open spec fn observed<P, R, G>(msg: PersistenceMsg<P, R, G>) -> bool {
    ||| msg is ProbeWritable
    ||| msg is Chat
    ||| msg is ReplaceChatHistory
    ||| msg is RewindPoint
}

/// What follows the storage operation of a message whose result is plain.
pub open spec fn done_effects<P, R, G>(
    s: SessionPersistence<P, R, G>,
    msg: PersistenceMsg<P, R, G>,
    result: Result<(), IoError>,
) -> Seq<Effect<P, R>> {
    match msg {
        PersistenceMsg::CurrentModel { model_id, catalog_identity, agent_name, .. } => if s.remote_sync {
            seq![Effect::SetModel { model_id, catalog_identity, agent_name }]
        } else {
            Seq::empty()
        },
        PersistenceMsg::CurrentModelAndAck {
            model_id,
            catalog_identity,
            agent_name,
            respond_to,
            ..
        } => {
            let told = if result is Ok && s.remote_sync {
                seq![Effect::<P, R>::SetModel { model_id, catalog_identity, agent_name }]
            } else {
                Seq::empty()
            };
            told.push(Effect::Reply { to: respond_to, result })
        },
        PersistenceMsg::ProbeWritable { respond_to } => seq![
            Effect::Reply { to: respond_to, result },
        ],
        PersistenceMsg::ReplaceChatHistoryAndAck { respond_to, .. } => seq![
            Effect::Reply { to: respond_to, result },
        ],
        PersistenceMsg::DeleteGoalModeState { respond_to } => seq![
            Effect::Reply { to: respond_to, result },
        ],
        PersistenceMsg::WorkflowRunStateAndAck { respond_to, .. } => seq![
            Effect::Reply { to: respond_to, result },
        ],
        _ => Seq::empty(),
    }
}

/// What follows the attempt to adopt a generated title.
pub open spec fn title_effects<P, R, G>(
    s: SessionPersistence<P, R, G>,
    title: String,
    result: Result<bool, IoError>,
) -> Seq<Effect<P, R>> {
    if result == Ok::<bool, IoError>(true) {
        seq![
            Effect::AdoptTitle { title, remote: s.remote_sync, registry: s.registry_titles },
        ]
    } else {
        Seq::empty()
    }
}

/// Whether a model switch took effect.
pub open spec fn switch_committed(result: Result<(), ModelSwitchCommitError>) -> bool {
    match result {
        Ok(_) => true,
        Err(e) => e is Committed,
    }
}

/// What follows a model switch.
pub open spec fn switch_effects<P, R, G>(
    s: SessionPersistence<P, R, G>,
    msg: PersistenceMsg<P, R, G>,
    result: Result<(), ModelSwitchCommitError>,
) -> Seq<Effect<P, R>> {
    match msg {
        PersistenceMsg::ModelSwitchAndAck {
            model_id,
            catalog_identity,
            agent_name,
            summary_sampling_config,
            respond_to,
            ..
        } => {
            let told = if switch_committed(result) && s.remote_sync {
                seq![Effect::<P, R>::SetModel { model_id, catalog_identity, agent_name }]
            } else {
                Seq::empty()
            };
            let sampled = match summary_sampling_config {
                Some(config) if switch_committed(result) => told.push(
                    Effect::ReplaceSummarySampling(config),
                ),
                _ => told,
            };
            sampled.push(Effect::ReplyModelSwitch { to: respond_to, result })
        },
        _ => Seq::empty(),
    }
}

/// The protocol notifications among updates, in order.
pub open spec fn acp_notifications<P>(updates: Seq<SessionUpdate<P>>) -> Seq<
    SessionNotification<P>,
>
    decreases updates.len(),
{
    if updates.len() == 0 {
        Seq::empty()
    } else {
        let before = acp_notifications(updates.drop_last());
        match updates.last() {
            SessionUpdate::Acp(n) => before.push(n),
            SessionUpdate::Xai(_) => before,
        }
    }
}

/// What the driver is asked to do in a phase.
pub open spec fn action_in<P, R, G>(phase: Phase<P, R, G>) -> Action {
    match phase {
        Phase::Receiving => Action::Receive,
        Phase::Sealed => Action::Receive,
        Phase::AwaitingGate(_) => Action::AwaitPublished,
        Phase::Downgrading => Action::ConvertClaim,
        Phase::Retaining { .. } => Action::ConvertClaim,
        Phase::Joining { .. } => Action::AbortGateAndJoinThreads,
        Phase::Deleting { .. } => Action::Perform(StorageOp::DeleteSession),
        Phase::Writing => Action::Perform(StorageOp::AppendUpdate),
        Phase::Draining(_) => Action::Perform(StorageOp::AppendUpdate),
        Phase::Closing => Action::Perform(StorageOp::AppendUpdate),
        Phase::WritingDurably { .. } => Action::Perform(StorageOp::AppendUpdateDurable),
        Phase::Syncing(_) => Action::Perform(StorageOp::SyncSessionFiles),
        Phase::Copying { .. } => Action::Perform(StorageOp::CopySessionDir),
        Phase::Loading { .. } => Action::Perform(StorageOp::LoadSession),
        Phase::Connecting { .. } => Action::ConnectRemote,
        Phase::Serving(msg) => match single_op(msg) {
            Some(op) => Action::Perform(op),
            None => Action::Stop,
        },
        Phase::Stopped => Action::Stop,
    }
}

/// Whether `event` is what the action of the phase can lead to.
pub open spec fn expects<P, R, G>(phase: Phase<P, R, G>, event: Event<P, R, G>) -> bool {
    match phase {
        Phase::Receiving => event is Message || event is Closed,
        Phase::Sealed => event is Message || event is Closed,
        Phase::AwaitingGate(_) => event is Gate,
        Phase::Downgrading => event is Lease,
        Phase::Retaining { .. } => event is Lease,
        Phase::Joining { .. } => event is ThreadsExited,
        Phase::Deleting { .. } => event is Done,
        Phase::Writing => event is Appended,
        Phase::Draining(_) => event is Appended,
        Phase::Closing => event is Appended,
        Phase::WritingDurably { .. } => event is Appended,
        Phase::Syncing(_) => event is Done,
        Phase::Copying { .. } => event is Payload,
        Phase::Loading { .. } => event is Loaded,
        Phase::Connecting { .. } => event is Connected,
        Phase::Serving(PersistenceMsg::GeneratedTitle(_)) => event is Title,
        Phase::Serving(PersistenceMsg::ModelSwitchAndAck { .. }) => event is ModelSwitch,
        Phase::Serving(PersistenceMsg::AppendCwdSwitchAndAck { .. }) => event is Payload,
        Phase::Serving(_) => event is Done,
        Phase::Stopped => false,
    }
}

/// Whether the buffer is drained on behalf of this message.
pub open spec fn drains<P, R, G>(msg: PersistenceMsg<P, R, G>) -> bool {
    ||| msg is AppendUpdateDurablyAndAck
    ||| msg is PublishFresh
    ||| msg is Flush
    ||| msg is FlushAndAck
    ||| msg is UpgradeToWriteback
    ||| msg is CopyFile
}

impl<P, R, G> SessionPersistence<P, R, G> {
    /// The invariant of the actor at rest: an update is in flight exactly while
    /// its append is awaited; nothing is buffered while a durable append or the
    /// gate is awaited; no gate is left armed; an aborted publication leads
    /// nowhere but to cleanup, and only a claimed fresh session is deleted.
    pub open spec fn wf(&self) -> bool {
        &&& self.pending_publication_gate is None
        &&& match self.phase {
            Phase::Writing => self.in_flight is Some,
            Phase::WritingDurably { .. } => self.in_flight is Some && self.pending_notification is None,
            Phase::Draining(msg) => {
                &&& drains(msg)
                &&& self.in_flight matches Some(SessionUpdate::Acp(_))
                &&& self.pending_notification is None
            },
            Phase::Closing => {
                &&& self.in_flight matches Some(SessionUpdate::Acp(_))
                &&& self.pending_notification is None
            },
            Phase::Syncing(msg) => {
                &&& self.in_flight is None
                &&& msg is PublishFresh || msg is CopyFile
                &&& msg is PublishFresh ==> self.pending_notification is None
            },
            Phase::AwaitingGate(_) => self.in_flight is None && self.pending_notification is None,
            Phase::Joining { sealed, .. } => {
                &&& self.in_flight is None
                &&& self.fresh_publication_aborted
                &&& !sealed ==> self.created_fresh && self.fresh_claim
            },
            Phase::Sealed => self.in_flight is None && self.fresh_publication_aborted,
            Phase::Deleting { .. } => {
                &&& self.in_flight is None
                &&& self.fresh_publication_aborted
                &&& self.created_fresh && self.fresh_claim
            },
            Phase::Serving(msg) => self.in_flight is None && single_op(msg) is Some,
            _ => self.in_flight is None,
        }
        &&& self.fresh_publication_aborted ==> winding_down(self.phase)
    }
}

/// The phases that give up a provisional session, and the end.
pub open spec fn winding_down<P, R, G>(phase: Phase<P, R, G>) -> bool {
    ||| phase is Sealed
    ||| phase is Joining
    ||| phase matches Phase::Retaining { sealed: true, .. }
    ||| phase is Deleting
    ||| phase is Stopped
}

/// The claim after an attempt to turn it into a shared lease.
pub open spec fn leased<P, R, G>(
    s: SessionPersistence<P, R, G>,
    result: Result<(), IoError>,
) -> SessionPersistence<P, R, G> {
    match result {
        Ok(_) => SessionPersistence { fresh_claim: false, published_lease: true, ..s },
        Err(_) => s,
    }
}

/// What a message makes of a ready actor.
pub open spec fn message_turn<P, R, G>(
    s: SessionPersistence<P, R, G>,
    msg: PersistenceMsg<P, R, G>,
    now_ms: u64,
    committed: bool,
    t: SessionPersistence<P, R, G>,
    out: Seq<Effect<P, R>>,
) -> bool {
    let touched = touch_due(s, now_ms);
    let s1 = if touched {
        SessionPersistence { last_worktree_touch_ms: now_ms, ..s }
    } else {
        s
    };
    let first = if touched {
        seq![Effect::<P, R>::TouchWorktree]
    } else {
        Seq::empty()
    };
    match msg {
        PersistenceMsg::Update(SessionUpdate::Acp(n)) => {
            let due = pushed_out(s.pending_notification, n);
            let buffered = SessionPersistence { pending_notification: t.pending_notification, ..s1 };
            &&& merge_step(s.pending_notification, n, t.pending_notification, due)
            &&& out == first
            &&& t == match due {
                Some(d) => SessionPersistence {
                    in_flight: Some(SessionUpdate::Acp(d)),
                    phase: Phase::Writing,
                    ..buffered
                },
                None => resumed(buffered),
            }
        },
        _ => {
            let (s2, then) = served(s1, msg, committed);
            t == s2 && out == first + then
        },
    }
}

/// What a message makes of an actor whose publication was aborted: only the
/// cleanup request is served.
pub open spec fn sealed_turn<P, R, G>(
    s: SessionPersistence<P, R, G>,
    msg: PersistenceMsg<P, R, G>,
) -> SessionPersistence<P, R, G> {
    match msg {
        PersistenceMsg::AbortFreshAndDelete { publication_gate, respond_to } => in_phase(
            s,
            Phase::Joining { gate: publication_gate, respond_to, sealed: true },
        ),
        _ => s,
    }
}

/// What the closing of the channel makes of an actor.
pub open spec fn close_turn<P, R, G>(s: SessionPersistence<P, R, G>) -> (
    SessionPersistence<P, R, G>,
    Seq<Effect<P, R>>,
) {
    if s.phase is Sealed {
        (in_phase(s, Phase::Stopped), Seq::empty())
    } else {
        match s.pending_notification {
            Some(n) => (
                SessionPersistence {
                    pending_notification: None,
                    in_flight: Some(SessionUpdate::Acp(n)),
                    phase: Phase::Closing,
                    ..s
                },
                Seq::empty(),
            ),
            None => (in_phase(s, Phase::Stopped), flush_effects(s)),
        }
    }
}

/// What the end of the armed gate makes of an actor.
pub open spec fn gate_turn<P, R, G>(
    s: SessionPersistence<P, R, G>,
    published: bool,
    committed: bool,
) -> (SessionPersistence<P, R, G>, Seq<Effect<P, R>>) {
    if !published {
        (
            SessionPersistence {
                fresh_publication_aborted: true,
                phase: Phase::Sealed,
                ..silenced(s)
            },
            Seq::empty(),
        )
    } else if !s.fresh_claim {
        (resumed(s), Seq::empty())
    } else if !committed {
        (
            SessionPersistence {
                fresh_claim: false,
                fresh_publication_aborted: true,
                phase: Phase::Stopped,
                ..s
            },
            seq![Effect::DropClaim],
        )
    } else {
        (in_phase(s, Phase::Downgrading), Seq::empty())
    }
}

/// What the attempt to turn the claim into a lease makes of an actor.
pub open spec fn lease_turn<P, R, G>(
    s: SessionPersistence<P, R, G>,
    result: Result<(), IoError>,
) -> (SessionPersistence<P, R, G>, Seq<Effect<P, R>>) {
    let s1 = leased(s, result);
    match s.phase {
        Phase::Retaining { respond_to, sealed } => (
            if sealed {
                in_phase(s1, Phase::Stopped)
            } else {
                resumed(s1)
            },
            seq![Effect::Refuse { to: respond_to, why: Refusal::NotProvisional }],
        ),
        _ => (resumed(s1), seq![Effect::TouchWorktree]),
    }
}

/// What the exit of the session threads of an aborted gate makes of an actor.
pub open spec fn join_turn<P, R, G>(
    s: SessionPersistence<P, R, G>,
    respond_to: R,
    sealed: bool,
    committed: bool,
) -> (SessionPersistence<P, R, G>, Seq<Effect<P, R>>) {
    if !sealed {
        (
            SessionPersistence {
                pending_publication_gate: None,
                phase: Phase::Deleting { respond_to },
                ..silenced(s)
            },
            Seq::empty(),
        )
    } else if claim_committed(s, committed) {
        (in_phase(s, Phase::Retaining { respond_to, sealed: true }), Seq::empty())
    } else if provisional(s, committed) {
        (in_phase(s, Phase::Deleting { respond_to }), Seq::empty())
    } else {
        (
            in_phase(s, Phase::Stopped),
            seq![Effect::Refuse { to: respond_to, why: Refusal::NotProvisional }],
        )
    }
}

/// What the end of an append makes of an actor.
pub open spec fn append_turn<P, R, G>(
    s: SessionPersistence<P, R, G>,
    update: SessionUpdate<P>,
    result: Result<(), AppendUpdateError>,
) -> (SessionPersistence<P, R, G>, Seq<Effect<P, R>>) {
    match s.phase {
        Phase::WritingDurably { respond_to } => {
            let (s1, then) = appended(s, update, result, false);
            (resumed(s1), then.push(Effect::ReplyAppend { to: respond_to, result }))
        },
        Phase::Draining(msg) => {
            let (s1, then) = appended(s, update, result, true);
            let (s2, last) = drained(s1, msg, result);
            (s2, then + last)
        },
        Phase::Closing => {
            let (s1, then) = appended(s, update, result, true);
            (in_phase(s1, Phase::Stopped), then + flush_effects(s1))
        },
        _ => {
            let (s1, then) = appended(s, update, result, false);
            (resumed(s1), then)
        },
    }
}

/// What the end of a plain storage operation makes of an actor.
pub open spec fn done_turn<P, R, G>(
    s: SessionPersistence<P, R, G>,
    result: Result<(), IoError>,
) -> (SessionPersistence<P, R, G>, Seq<Effect<P, R>>) {
    match s.phase {
        Phase::Deleting { respond_to } => {
            let told = if result is Ok {
                seq![Effect::<P, R>::NotifySearch]
            } else {
                Seq::empty()
            };
            (in_phase(s, Phase::Stopped), told.push(Effect::Reply { to: respond_to, result }))
        },
        Phase::Syncing(PersistenceMsg::PublishFresh { publication_gate, respond_to }) => (
            if result is Ok {
                resumed(SessionPersistence { pending_publication_gate: Some(publication_gate), ..s })
            } else {
                resumed(s)
            },
            seq![Effect::Reply { to: respond_to, result }],
        ),
        Phase::Syncing(PersistenceMsg::CopyFile { one_shot }) => (
            in_phase(s, Phase::Copying { one_shot }),
            Seq::empty(),
        ),
        Phase::Serving(msg) => {
            let failure = io_failure(result);
            if observed(msg) {
                (
                    resumed(
                        SessionPersistence { disk: latch_after(s.disk, failure, s.codes), ..s },
                    ),
                    latch_effects::<P, R>(s.disk, failure, s.codes, s.gateway) + done_effects(
                        s,
                        msg,
                        result,
                    ),
                )
            } else {
                (resumed(s), done_effects(s, msg, result))
            }
        },
        _ => (s, Seq::empty()),
    }
}

/// What a value from storage makes of an actor: it goes to whoever asked.
pub open spec fn payload_turn<P, R, G>(s: SessionPersistence<P, R, G>, payload: P) -> (
    SessionPersistence<P, R, G>,
    Seq<Effect<P, R>>,
) {
    match s.phase {
        Phase::Copying { one_shot } => (
            resumed(s),
            seq![Effect::ReplyPayload { to: one_shot, payload }],
        ),
        Phase::Serving(PersistenceMsg::AppendCwdSwitchAndAck { respond_to, .. }) => (
            resumed(s),
            seq![Effect::ReplyPayload { to: respond_to, payload }],
        ),
        _ => (s, Seq::empty()),
    }
}

/// What the loading of the session makes of an actor that enables writeback.
pub open spec fn load_turn<P, R, G>(
    s: SessionPersistence<P, R, G>,
    result: Result<Vec<SessionUpdate<P>>, IoError>,
) -> SessionPersistence<P, R, G> {
    match (s.phase, result) {
        (Phase::Loading { auth_manager }, Ok(updates)) => in_phase(
            s,
            Phase::Connecting { auth_manager, updates },
        ),
        _ => resumed(s),
    }
}

/// Whether `t` and `out` are what the set-up of the remote backend makes of an
/// actor that enables writeback.
pub open spec fn connect_turn<P, R, G>(
    s: SessionPersistence<P, R, G>,
    updates: Seq<SessionUpdate<P>>,
    result: Result<bool, IoError>,
    t: SessionPersistence<P, R, G>,
    out: Seq<Effect<P, R>>,
) -> bool {
    if result == Ok::<bool, IoError>(true) {
        &&& t == resumed(SessionPersistence { remote_sync: true, ..s })
        &&& if s.created_fresh {
            &&& out.len() == 1
            &&& out[0] matches Effect::Backfill { notifications }
            &&& notifications@ == acp_notifications(updates)
        } else {
            out == Seq::<Effect<P, R>>::empty()
        }
    } else {
        t == resumed(s) && out == Seq::<Effect<P, R>>::empty()
    }
}

/// What one event makes of a state: the transition of the actor.
pub open spec fn transition<P, R, G>(
    s: SessionPersistence<P, R, G>,
    event: Event<P, R, G>,
    t: SessionPersistence<P, R, G>,
    out: Seq<Effect<P, R>>,
) -> bool {
    match event {
        Event::Message { msg, now_ms, committed } => if s.phase is Sealed {
            t == sealed_turn(s, msg) && out == Seq::<Effect<P, R>>::empty()
        } else {
            message_turn(s, msg, now_ms, committed, t, out)
        },
        Event::Closed => (t, out) == close_turn(s),
        Event::Gate { published, committed } => (t, out) == gate_turn(s, published, committed),
        Event::Lease { result } => (t, out) == lease_turn(s, result),
        Event::ThreadsExited { committed } => {
            &&& s.phase matches Phase::Joining { respond_to, sealed, .. }
            &&& (t, out) == join_turn(s, respond_to, sealed, committed)
        },
        Event::Appended { result } => {
            &&& s.in_flight matches Some(update)
            &&& (t, out) == append_turn(s, update, result)
        },
        Event::Done { result } => (t, out) == done_turn(s, result),
        Event::Title { result } => {
            &&& s.phase matches Phase::Serving(PersistenceMsg::GeneratedTitle(title))
            &&& t == resumed(s)
            &&& out == title_effects(s, title, result)
        },
        Event::ModelSwitch { result } => {
            &&& s.phase matches Phase::Serving(msg)
            &&& t == resumed(s)
            &&& out == switch_effects(s, msg, result)
        },
        Event::Payload { payload } => (t, out) == payload_turn(s, payload),
        Event::Loaded { result } => {
            t == load_turn(s, result) && out == Seq::<Effect<P, R>>::empty()
        },
        Event::Connected { result } => {
            &&& s.phase matches Phase::Connecting { updates, .. }
            &&& connect_turn(s, updates@, result, t, out)
        },
    }
}

// The executable actor.

impl DiskFullLatch {
    /// Records a full disk: published once, told to the client once.
    fn mark_disk_full<P, R>(self, gateway: bool, out: &mut Vec<Effect<P, R>>) -> (r: DiskFullLatch)
        ensures
            r == marked(self),
            final(out)@ == old(out)@ + mark_effects::<P, R>(self, gateway),
    {
        if !self.full {
            out.push(Effect::DiskFull(true));
        }
        if !self.notified && gateway {
            out.push(Effect::DiskFullNotice);
        }
        assert(out@ =~= old(out)@ + mark_effects::<P, R>(self, gateway));
        DiskFullLatch { full: true, notified: true }
    }

    /// Records a write that succeeded.
    fn clear_disk_full<P, R>(self, out: &mut Vec<Effect<P, R>>) -> (r: DiskFullLatch)
        ensures
            r == cleared(self),
            final(out)@ == old(out)@ + clear_effects::<P, R>(self),
    {
        if self.full {
            out.push(Effect::DiskFull(false));
        }
        assert(out@ =~= old(out)@ + clear_effects::<P, R>(self));
        DiskFullLatch { full: false, notified: false }
    }

    /// Follows the end of a write.
    fn observe<P, R>(
        self,
        failure: Option<&IoError>,
        codes: DiskFullCodes,
        gateway: bool,
        out: &mut Vec<Effect<P, R>>,
    ) -> (r: DiskFullLatch)
        ensures
            ({
                let f = match failure {
                    Some(e) => Some(*e),
                    None => None,
                };
                &&& r == latch_after(self, f, codes)
                &&& final(out)@ == old(out)@ + latch_effects::<P, R>(self, f, codes, gateway)
            }),
    {
        match failure {
            None => self.clear_disk_full(out),
            Some(e) => if is_disk_full_io_error(e, codes) {
                self.mark_disk_full(gateway, out)
            } else {
                assert(out@ =~= old(out)@ + Seq::<Effect<P, R>>::empty());
                self
            },
        }
    }
}

fn failure_of_io(result: &Result<(), IoError>) -> (r: Option<&IoError>)
    ensures
        match r {
            Some(e) => io_failure(*result) == Some(*e),
            None => io_failure(*result) is None,
        },
{
    match result {
        Ok(_) => None,
        Err(e) => Some(e),
    }
}

fn failure_of_append(result: &Result<(), AppendUpdateError>) -> (r: Option<&IoError>)
    ensures
        match r {
            Some(e) => append_failure(*result) == Some(*e),
            None => append_failure(*result) is None,
        },
{
    match result {
        Ok(_) => None,
        Err(AppendUpdateError::NotCommitted(e)) => Some(e),
        Err(AppendUpdateError::Committed(e)) => Some(e),
    }
}

fn is_append_committed(result: &Result<(), AppendUpdateError>) -> (r: bool)
    ensures
        r == append_committed(*result),
{
    match result {
        Ok(_) => true,
        Err(AppendUpdateError::Committed(_)) => true,
        Err(AppendUpdateError::NotCommitted(_)) => false,
    }
}

/// The notifications that a newly enabled remote backend is sent: the protocol
/// history of a session created in this run, in order, and nothing of a
/// resumed one.
pub fn backfill_updates_to_sync<P>(
    created_fresh: bool,
    updates: Vec<SessionUpdate<P>>,
) -> (r: Vec<SessionNotification<P>>)
    ensures
        r@ == if created_fresh {
            acp_notifications(updates@)
        } else {
            Seq::empty()
        },
{
    let mut out: Vec<SessionNotification<P>> = Vec::new();
    if !created_fresh {
        return out;
    }
    let ghost all = updates@;
    for update in it: updates
        invariant
            it.seq() == all,
            out@ == acp_notifications(all.take(it.index() as int)),
    {
        assert(all.take(it.index() as int + 1).drop_last() =~= all.take(it.index() as int));
        match update {
            SessionUpdate::Acp(n) => out.push(n),
            SessionUpdate::Xai(_) => {},
        }
    }
    assert(all.take(all.len() as int) =~= all);
    out
}

impl<P, R, G> SessionPersistence<P, R, G> {
    /// The actor of a session, ready for messages.
    pub fn new(
        created_fresh: bool,
        published_lease: bool,
        remote_sync: bool,
        relay_sync: bool,
        gateway: bool,
        registry_titles: bool,
        codes: DiskFullCodes,
        now_ms: u64,
    ) -> (r: Self)
        ensures
            r.wf(),
            r == (SessionPersistence::<P, R, G> {
                pending_notification: None,
                in_flight: None,
                remote_sync,
                relay_sync,
                gateway,
                registry_titles,
                created_fresh,
                fresh_claim: created_fresh,
                published_lease,
                pending_publication_gate: None,
                fresh_publication_aborted: false,
                disk: DiskFullLatch { full: false, notified: false },
                codes,
                last_worktree_touch_ms: now_ms,
                phase: Phase::Receiving,
            }),
    {
        SessionPersistence {
            pending_notification: None,
            in_flight: None,
            remote_sync,
            relay_sync,
            gateway,
            registry_titles,
            created_fresh,
            fresh_claim: created_fresh,
            published_lease,
            pending_publication_gate: None,
            fresh_publication_aborted: false,
            disk: DiskFullLatch { full: false, notified: false },
            codes,
            last_worktree_touch_ms: now_ms,
            phase: Phase::Receiving,
        }
    }

    /// What the driver does next.
    pub fn action(&self) -> (r: Action)
        requires
            self.wf(),
        ensures
            r == action_in(self.phase),
    {
        match &self.phase {
            Phase::Receiving => Action::Receive,
            Phase::Sealed => Action::Receive,
            Phase::AwaitingGate(_) => Action::AwaitPublished,
            Phase::Downgrading => Action::ConvertClaim,
            Phase::Retaining { .. } => Action::ConvertClaim,
            Phase::Joining { .. } => Action::AbortGateAndJoinThreads,
            Phase::Deleting { .. } => Action::Perform(StorageOp::DeleteSession),
            Phase::Writing => Action::Perform(StorageOp::AppendUpdate),
            Phase::Draining(_) => Action::Perform(StorageOp::AppendUpdate),
            Phase::Closing => Action::Perform(StorageOp::AppendUpdate),
            Phase::WritingDurably { .. } => Action::Perform(StorageOp::AppendUpdateDurable),
            Phase::Syncing(_) => Action::Perform(StorageOp::SyncSessionFiles),
            Phase::Copying { .. } => Action::Perform(StorageOp::CopySessionDir),
            Phase::Loading { .. } => Action::Perform(StorageOp::LoadSession),
            Phase::Connecting { .. } => Action::ConnectRemote,
            Phase::Serving(msg) => match msg.storage_op() {
                Some(op) => Action::Perform(op),
                None => Action::Stop,
            },
            Phase::Stopped => Action::Stop,
        }
    }

    /// Whether `event` is what the action of the phase can lead to.
    pub fn accepts(&self, event: &Event<P, R, G>) -> (r: bool)
        ensures
            r == expects(self.phase, *event),
    {
        match (&self.phase, event) {
            (Phase::Receiving, Event::Message { .. }) => true,
            (Phase::Receiving, Event::Closed) => true,
            (Phase::Sealed, Event::Message { .. }) => true,
            (Phase::Sealed, Event::Closed) => true,
            (Phase::AwaitingGate(_), Event::Gate { .. }) => true,
            (Phase::Downgrading, Event::Lease { .. }) => true,
            (Phase::Retaining { .. }, Event::Lease { .. }) => true,
            (Phase::Joining { .. }, Event::ThreadsExited { .. }) => true,
            (Phase::Deleting { .. }, Event::Done { .. }) => true,
            (Phase::Writing, Event::Appended { .. }) => true,
            (Phase::Draining(_), Event::Appended { .. }) => true,
            (Phase::Closing, Event::Appended { .. }) => true,
            (Phase::WritingDurably { .. }, Event::Appended { .. }) => true,
            (Phase::Syncing(_), Event::Done { .. }) => true,
            (Phase::Copying { .. }, Event::Payload { .. }) => true,
            (Phase::Loading { .. }, Event::Loaded { .. }) => true,
            (Phase::Connecting { .. }, Event::Connected { .. }) => true,
            (Phase::Serving(msg), event) => match (msg, event) {
                (PersistenceMsg::GeneratedTitle(_), Event::Title { .. }) => true,
                (PersistenceMsg::GeneratedTitle(_), _) => false,
                (PersistenceMsg::ModelSwitchAndAck { .. }, Event::ModelSwitch { .. }) => true,
                (PersistenceMsg::ModelSwitchAndAck { .. }, _) => false,
                (PersistenceMsg::AppendCwdSwitchAndAck { .. }, Event::Payload { .. }) => true,
                (PersistenceMsg::AppendCwdSwitchAndAck { .. }, _) => false,
                (_, Event::Done { .. }) => true,
                _ => false,
            },
            _ => false,
        }
    }

    fn resume(self) -> (r: Self)
        ensures
            r == resumed(self),
    {
        let mut s = self;
        match s.pending_publication_gate.take() {
            Some(gate) => {
                s.phase = Phase::AwaitingGate(gate);
            },
            None => {
                s.phase = Phase::Receiving;
            },
        }
        s
    }

    fn enter(self, phase: Phase<P, R, G>) -> (r: Self)
        ensures
            r == in_phase(self, phase),
    {
        let mut s = self;
        s.phase = phase;
        s
    }

    fn silence(self) -> (r: Self)
        ensures
            r == silenced(self),
    {
        let mut s = self;
        s.pending_notification = None;
        s.remote_sync = false;
        s.relay_sync = false;
        s
    }

    fn take_lease(self, result: Result<(), IoError>) -> (r: Self)
        ensures
            r == leased(self, result),
    {
        let mut s = self;
        if result.is_ok() {
            s.fresh_claim = false;
            s.published_lease = true;
        }
        s
    }

    fn queue_acp_sync(&self, update: SessionUpdate<P>, out: &mut Vec<Effect<P, R>>)
        ensures
            final(out)@ == old(out)@ + queue_effects(*self, update),
    {
        match update {
            SessionUpdate::Acp(notification) => {
                if self.remote_sync || self.relay_sync {
                    out.push(
                        Effect::QueueSync {
                            notification,
                            remote: self.remote_sync,
                            relay: self.relay_sync,
                        },
                    );
                }
            },
            SessionUpdate::Xai(_) => {},
        }
        assert(out@ =~= old(out)@ + queue_effects(*self, update));
    }

    fn flush_sync(&self, out: &mut Vec<Effect<P, R>>)
        ensures
            final(out)@ == old(out)@ + flush_effects(*self),
    {
        if self.remote_sync || self.relay_sync {
            out.push(Effect::FlushSync { remote: self.remote_sync, relay: self.relay_sync });
        }
        assert(out@ =~= old(out)@ + flush_effects(*self));
    }

    /// Goes on with `msg` once the buffer is drained.
    fn after_drain(
        self,
        msg: PersistenceMsg<P, R, G>,
        result: Result<(), AppendUpdateError>,
        out: &mut Vec<Effect<P, R>>,
    ) -> (r: Self)
        ensures
            r == drained(self, msg, result).0,
            final(out)@ == old(out)@ + drained(self, msg, result).1,
    {
        match msg {
            PersistenceMsg::AppendUpdateDurablyAndAck { update, respond_to } => match result {
                Ok(_) => {
                    let mut s = self;
                    s.in_flight = Some(update);
                    s.phase = Phase::WritingDurably { respond_to };
                    assert(out@ =~= old(out)@ + Seq::<Effect<P, R>>::empty());
                    s
                },
                Err(e) => {
                    out.push(Effect::ReplyAppend { to: respond_to, result: Err(e) });
                    self.resume()
                },
            },
            PersistenceMsg::PublishFresh { publication_gate, respond_to } => {
                self.flush_sync(out);
                match result {
                    Ok(_) => self.enter(
                        Phase::Syncing(PersistenceMsg::PublishFresh { publication_gate, respond_to }),
                    ),
                    Err(e) => {
                        out.push(Effect::Reply { to: respond_to, result: Err(e.into_io_error()) });
                        assert(out@ =~= old(out)@ + drained(self, msg, result).1);
                        self.resume()
                    },
                }
            },
            PersistenceMsg::FlushAndAck { respond_to } => {
                self.flush_sync(out);
                let reply = match result {
                    Ok(_) => Ok(()),
                    Err(e) => Err(e.into_io_error()),
                };
                out.push(Effect::Reply { to: respond_to, result: reply });
                assert(out@ =~= old(out)@ + drained(self, msg, result).1);
                self.resume()
            },
            PersistenceMsg::UpgradeToWriteback { auth_manager } => {
                self.flush_sync(out);
                self.enter(Phase::Loading { auth_manager })
            },
            PersistenceMsg::CopyFile { one_shot } => {
                self.flush_sync(out);
                self.enter(Phase::Syncing(PersistenceMsg::CopyFile { one_shot }))
            },
            _ => {
                self.flush_sync(out);
                self.resume()
            },
        }
    }

    /// Drains the buffer on behalf of `msg`: writes what it holds, if anything.
    fn drain_pending(self, msg: PersistenceMsg<P, R, G>, out: &mut Vec<Effect<P, R>>) -> (r: Self)
        ensures
            r == draining(self, msg).0,
            final(out)@ == old(out)@ + draining(self, msg).1,
    {
        let mut s = self;
        match s.pending_notification.take() {
            Some(n) => {
                s.in_flight = Some(SessionUpdate::Acp(n));
                s.phase = Phase::Draining(msg);
                assert(out@ =~= old(out)@ + Seq::<Effect<P, R>>::empty());
                s
            },
            None => s.after_drain(msg, Ok(()), out),
        }
    }

    /// Follows the end of the append of the update in flight.
    fn finish_append(
        self,
        update: SessionUpdate<P>,
        result: &Result<(), AppendUpdateError>,
        restore: bool,
        out: &mut Vec<Effect<P, R>>,
    ) -> (r: Self)
        ensures
            r == appended(self, update, *result, restore).0,
            final(out)@ == old(out)@ + appended(self, update, *result, restore).1,
    {
        let mut s = self;
        s.in_flight = None;
        s.phase = Phase::Receiving;
        s.disk = s.disk.observe(failure_of_append(result), s.codes, s.gateway, out);
        if is_append_committed(result) {
            s.queue_acp_sync(update, out);
        } else if restore {
            match update {
                SessionUpdate::Acp(n) => {
                    s.pending_notification = Some(n);
                },
                SessionUpdate::Xai(_) => {},
            }
        }
        assert(out@ =~= old(out)@ + appended(self, update, *result, restore).1);
        s
    }

    /// Begins to serve a message, apart from a protocol update.
    fn serve(
        self,
        msg: PersistenceMsg<P, R, G>,
        committed: bool,
        out: &mut Vec<Effect<P, R>>,
    ) -> (r: Self)
        ensures
            r == served(self, msg, committed).0,
            final(out)@ == old(out)@ + served(self, msg, committed).1,
    {
        assert(old(out)@ =~= old(out)@ + Seq::<Effect<P, R>>::empty());
        match msg {
            PersistenceMsg::AbortFreshAndDelete { publication_gate, respond_to } => {
                if self.created_fresh && self.fresh_claim && !committed {
                    let mut s = self;
                    s.fresh_publication_aborted = true;
                    s.phase = Phase::Joining { gate: publication_gate, respond_to, sealed: false };
                    s
                } else if self.created_fresh && self.fresh_claim {
                    self.enter(Phase::Retaining { respond_to, sealed: false })
                } else {
                    out.push(Effect::Refuse { to: respond_to, why: Refusal::NotProvisional });
                    self.resume()
                }
            },
            PersistenceMsg::PublishFresh { publication_gate, respond_to } => {
                if !self.created_fresh || !self.fresh_claim || self.fresh_publication_aborted {
                    out.push(Effect::Refuse { to: respond_to, why: Refusal::NotPublishable });
                    self.resume()
                } else if self.pending_publication_gate.is_some() {
                    out.push(Effect::Refuse { to: respond_to, why: Refusal::AlreadyArmed });
                    self.resume()
                } else {
                    self.drain_pending(
                        PersistenceMsg::PublishFresh { publication_gate, respond_to },
                        out,
                    )
                }
            },
            PersistenceMsg::UpgradeToWriteback { auth_manager } => {
                if self.remote_sync {
                    self.resume()
                } else {
                    self.drain_pending(PersistenceMsg::UpgradeToWriteback { auth_manager }, out)
                }
            },
            PersistenceMsg::Flush => self.drain_pending(PersistenceMsg::Flush, out),
            PersistenceMsg::FlushAndAck { respond_to } => self.drain_pending(
                PersistenceMsg::FlushAndAck { respond_to },
                out,
            ),
            PersistenceMsg::CopyFile { one_shot } => self.drain_pending(
                PersistenceMsg::CopyFile { one_shot },
                out,
            ),
            PersistenceMsg::AppendUpdateDurablyAndAck { update, respond_to } => self.drain_pending(
                PersistenceMsg::AppendUpdateDurablyAndAck { update, respond_to },
                out,
            ),
            PersistenceMsg::Update(update) => {
                let mut s = self;
                s.in_flight = Some(update);
                s.phase = Phase::Writing;
                s
            },
            PersistenceMsg::ContentChunk(chunk) => {
                out.push(Effect::UpdateSummary(chunk));
                out.push(Effect::NotifySearch);
                assert(out@ =~= old(out)@ + served(self, msg, committed).1);
                self.resume()
            },
            PersistenceMsg::ReplaceSummarySamplingConfig(config) => {
                out.push(Effect::ReplaceSummarySampling(config));
                self.resume()
            },
            msg => self.enter(Phase::Serving(msg)),
        }
    }

    /// Serves a message that arrived at a ready actor.
    fn receive(
        self,
        msg: PersistenceMsg<P, R, G>,
        now_ms: u64,
        committed: bool,
        out: &mut Vec<Effect<P, R>>,
    ) -> (r: Self)
        requires
            self.wf(),
            self.phase is Receiving,
            old(out)@.len() == 0,
        ensures
            message_turn(self, msg, now_ms, committed, r, final(out)@),
    {
        let mut s = self;
        if !s.fresh_claim && now_ms >= s.last_worktree_touch_ms && now_ms - s.last_worktree_touch_ms
            >= WORKTREE_TOUCH_INTERVAL_MS {
            s.last_worktree_touch_ms = now_ms;
            out.push(Effect::TouchWorktree);
        }
        let ghost first = out@;
        assert(first =~= if touch_due(self, now_ms) {
            seq![Effect::<P, R>::TouchWorktree]
        } else {
            Seq::empty()
        });
        match msg {
            PersistenceMsg::Update(SessionUpdate::Acp(n)) => {
                let pending = s.pending_notification.take();
                let (after, due) = maybe_merge_notification(pending, n);
                s.pending_notification = after;
                assert(due == pushed_out(self.pending_notification, n));
                match due {
                    Some(d) => {
                        s.in_flight = Some(SessionUpdate::Acp(d));
                        s.phase = Phase::Writing;
                        s
                    },
                    None => s.resume(),
                }
            },
            msg => s.serve(msg, committed, out),
        }
    }

    /// Follows the end of a plain storage operation.
    fn finish_op(
        self,
        msg: PersistenceMsg<P, R, G>,
        result: Result<(), IoError>,
        out: &mut Vec<Effect<P, R>>,
    ) -> (r: Self)
        requires
            old(out)@.len() == 0,
        ensures
            r == resumed(
                SessionPersistence {
                    disk: if observed(msg) {
                        latch_after(self.disk, io_failure(result), self.codes)
                    } else {
                        self.disk
                    },
                    ..self
                },
            ),
            final(out)@ == if observed(msg) {
                latch_effects::<P, R>(self.disk, io_failure(result), self.codes, self.gateway)
            } else {
                Seq::empty()
            } + done_effects(self, msg, result),
    {
        let mut s = self;
        let observes = match &msg {
            PersistenceMsg::ProbeWritable { .. } => true,
            PersistenceMsg::Chat(_) => true,
            PersistenceMsg::ReplaceChatHistory(_) => true,
            PersistenceMsg::RewindPoint(_) => true,
            _ => false,
        };
        if observes {
            s.disk = s.disk.observe(failure_of_io(&result), s.codes, s.gateway, out);
        }
        let ghost seen = out@;
        assert(seen =~= if observed(msg) {
            latch_effects::<P, R>(self.disk, io_failure(result), self.codes, self.gateway)
        } else {
            Seq::empty()
        });
        match msg {
            PersistenceMsg::CurrentModel { model_id, catalog_identity, agent_name, .. } => {
                if s.remote_sync {
                    out.push(Effect::SetModel { model_id, catalog_identity, agent_name });
                }
            },
            PersistenceMsg::CurrentModelAndAck {
                model_id,
                catalog_identity,
                agent_name,
                respond_to,
                ..
            } => {
                if result.is_ok() && s.remote_sync {
                    out.push(Effect::SetModel { model_id, catalog_identity, agent_name });
                }
                out.push(Effect::Reply { to: respond_to, result });
            },
            PersistenceMsg::ProbeWritable { respond_to } => {
                out.push(Effect::Reply { to: respond_to, result });
            },
            PersistenceMsg::ReplaceChatHistoryAndAck { respond_to, .. } => {
                out.push(Effect::Reply { to: respond_to, result });
            },
            PersistenceMsg::DeleteGoalModeState { respond_to } => {
                out.push(Effect::Reply { to: respond_to, result });
            },
            PersistenceMsg::WorkflowRunStateAndAck { respond_to, .. } => {
                out.push(Effect::Reply { to: respond_to, result });
            },
            _ => {},
        }
        assert(out@ =~= seen + done_effects(self, msg, result));
        s.resume()
    }

    /// Follows the end of a model switch.
    fn finish_switch(
        self,
        msg: PersistenceMsg<P, R, G>,
        result: Result<(), ModelSwitchCommitError>,
        out: &mut Vec<Effect<P, R>>,
    ) -> (r: Self)
        requires
            old(out)@.len() == 0,
        ensures
            r == resumed(self),
            final(out)@ == switch_effects(self, msg, result),
    {
        match msg {
            PersistenceMsg::ModelSwitchAndAck {
                model_id,
                catalog_identity,
                agent_name,
                summary_sampling_config,
                respond_to,
                ..
            } => {
                let took_effect = match &result {
                    Ok(_) => true,
                    Err(e) => e.is_committed(),
                };
                if took_effect {
                    if self.remote_sync {
                        out.push(Effect::SetModel { model_id, catalog_identity, agent_name });
                    }
                    match summary_sampling_config {
                        Some(config) => {
                            out.push(Effect::ReplaceSummarySampling(config));
                        },
                        None => {},
                    }
                }
                out.push(Effect::ReplyModelSwitch { to: respond_to, result });
            },
            _ => {},
        }
        assert(out@ =~= switch_effects(self, msg, result));
        self.resume()
    }

    /// Serves what arrives after a terminal abort: the cleanup request, and
    /// nothing else.
    fn receive_sealed(self, msg: PersistenceMsg<P, R, G>) -> (r: Self)
        ensures
            r == sealed_turn(self, msg),
    {
        match msg {
            PersistenceMsg::AbortFreshAndDelete { publication_gate, respond_to } => self.enter(
                Phase::Joining { gate: publication_gate, respond_to, sealed: true },
            ),
            _ => self,
        }
    }

    /// Follows the closing of the channel: what is buffered is written last.
    fn close(self, out: &mut Vec<Effect<P, R>>) -> (r: Self)
        requires
            old(out)@ == Seq::<Effect<P, R>>::empty(),
        ensures
            (r, final(out)@) == close_turn(self),
    {
        match &self.phase {
            Phase::Sealed => self.enter(Phase::Stopped),
            _ => {
                let mut s = self;
                match s.pending_notification.take() {
                    Some(n) => {
                        s.in_flight = Some(SessionUpdate::Acp(n));
                        s.phase = Phase::Closing;
                        s
                    },
                    None => {
                        s.flush_sync(out);
                        assert(out@ =~= flush_effects(self));
                        s.enter(Phase::Stopped)
                    },
                }
            },
        }
    }

    /// Follows the end of the armed gate.
    fn after_gate(self, published: bool, committed: bool, out: &mut Vec<Effect<P, R>>) -> (r: Self)
        requires
            old(out)@ == Seq::<Effect<P, R>>::empty(),
        ensures
            (r, final(out)@) == gate_turn(self, published, committed),
    {
        if !published {
            let mut s = self.silence();
            s.fresh_publication_aborted = true;
            s.phase = Phase::Sealed;
            s
        } else if !self.fresh_claim {
            self.resume()
        } else if !committed {
            out.push(Effect::DropClaim);
            let mut s = self;
            s.fresh_claim = false;
            s.fresh_publication_aborted = true;
            s.phase = Phase::Stopped;
            s
        } else {
            self.enter(Phase::Downgrading)
        }
    }

    /// Follows the attempt to turn the claim into a lease.
    fn after_lease(self, result: Result<(), IoError>, out: &mut Vec<Effect<P, R>>) -> (r: Self)
        requires
            old(out)@ == Seq::<Effect<P, R>>::empty(),
        ensures
            (r, final(out)@) == lease_turn(self, result),
    {
        let mut s = self.take_lease(result);
        match s.phase {
            Phase::Retaining { respond_to, sealed } => {
                out.push(Effect::Refuse { to: respond_to, why: Refusal::NotProvisional });
                s.phase = Phase::Stopped;
                if sealed {
                    s
                } else {
                    s.resume()
                }
            },
            _ => {
                out.push(Effect::TouchWorktree);
                s.phase = Phase::Stopped;
                s.resume()
            },
        }
    }

    /// Follows the exit of the session threads of an aborted gate.
    fn after_join(self, committed: bool, out: &mut Vec<Effect<P, R>>) -> (r: Self)
        requires
            self.phase is Joining,
            old(out)@ == Seq::<Effect<P, R>>::empty(),
        ensures
            (r, final(out)@) == join_turn(
                self,
                self.phase->Joining_respond_to,
                self.phase->Joining_sealed,
                committed,
            ),
    {
        let mut s = self;
        match s.phase {
            Phase::Joining { respond_to, sealed, .. } => {
                s.phase = Phase::Stopped;
                if !sealed {
                    let mut s = s.silence();
                    s.pending_publication_gate = None;
                    s.phase = Phase::Deleting { respond_to };
                    s
                } else if s.created_fresh && s.fresh_claim && committed {
                    s.enter(Phase::Retaining { respond_to, sealed: true })
                } else if s.created_fresh && s.fresh_claim {
                    s.enter(Phase::Deleting { respond_to })
                } else {
                    out.push(Effect::Refuse { to: respond_to, why: Refusal::NotProvisional });
                    s.enter(Phase::Stopped)
                }
            },
            _ => s,
        }
    }

    /// Follows the append of the update in flight.
    fn after_append(
        self,
        result: Result<(), AppendUpdateError>,
        out: &mut Vec<Effect<P, R>>,
    ) -> (r: Self)
        requires
            self.in_flight is Some,
            old(out)@ == Seq::<Effect<P, R>>::empty(),
        ensures
            (r, final(out)@) == append_turn(self, self.in_flight->0, result),
    {
        let mut s = self;
        let update = match s.in_flight.take() {
            Some(update) => update,
            None => {
                return s;
            },
        };
        match s.phase {
            Phase::WritingDurably { respond_to } => {
                s.phase = Phase::Receiving;
                let s = s.finish_append(update, &result, false, out);
                assert(out@ =~= appended(self, update, result, false).1);
                out.push(Effect::ReplyAppend { to: respond_to, result });
                s.resume()
            },
            Phase::Draining(msg) => {
                s.phase = Phase::Receiving;
                let s = s.finish_append(update, &result, true, out);
                assert(out@ =~= appended(self, update, result, true).1);
                s.after_drain(msg, result, out)
            },
            Phase::Closing => {
                s.phase = Phase::Receiving;
                let s = s.finish_append(update, &result, true, out);
                assert(out@ =~= appended(self, update, result, true).1);
                s.flush_sync(out);
                s.enter(Phase::Stopped)
            },
            _ => {
                s.phase = Phase::Receiving;
                let s = s.finish_append(update, &result, false, out);
                assert(out@ =~= appended(self, update, result, false).1);
                s.resume()
            },
        }
    }

    /// Follows the end of a plain storage operation, in any phase.
    fn after_done(self, result: Result<(), IoError>, out: &mut Vec<Effect<P, R>>) -> (r: Self)
        requires
            self.phase is Deleting || self.phase is Serving || (self.phase matches Phase::Syncing(
                m,
            ) && (m is PublishFresh || m is CopyFile)),
            old(out)@ == Seq::<Effect<P, R>>::empty(),
        ensures
            (r, final(out)@) == done_turn(self, result),
    {
        let mut s = self;
        match s.phase {
            Phase::Deleting { respond_to } => {
                if result.is_ok() {
                    out.push(Effect::NotifySearch);
                }
                out.push(Effect::Reply { to: respond_to, result });
                s.phase = Phase::Stopped;
                s
            },
            Phase::Syncing(PersistenceMsg::PublishFresh { publication_gate, respond_to }) => {
                s.phase = Phase::Receiving;
                if result.is_ok() {
                    s.pending_publication_gate = Some(publication_gate);
                }
                out.push(Effect::Reply { to: respond_to, result });
                s.resume()
            },
            Phase::Syncing(PersistenceMsg::CopyFile { one_shot }) => {
                s.phase = Phase::Copying { one_shot };
                s
            },
            Phase::Serving(msg) => {
                s.phase = Phase::Receiving;
                s.finish_op(msg, result, out)
            },
            phase => {
                s.phase = phase;
                s
            },
        }
    }

    /// Follows the attempt to adopt a generated title.
    fn after_title(self, result: Result<bool, IoError>, out: &mut Vec<Effect<P, R>>) -> (r: Self)
        requires
            self.phase matches Phase::Serving(PersistenceMsg::GeneratedTitle(_)),
            old(out)@ == Seq::<Effect<P, R>>::empty(),
        ensures
            r == resumed(self),
            final(out)@ == title_effects(self, self.phase->Serving_0->GeneratedTitle_0, result),
    {
        let mut s = self;
        match s.phase {
            Phase::Serving(PersistenceMsg::GeneratedTitle(title)) => {
                s.phase = Phase::Receiving;
                match result {
                    Ok(true) => {
                        out.push(
                            Effect::AdoptTitle {
                                title,
                                remote: s.remote_sync,
                                registry: s.registry_titles,
                            },
                        );
                    },
                    _ => {},
                }
                s.resume()
            },
            phase => {
                s.phase = phase;
                s
            },
        }
    }

    /// Hands a value from storage to whoever asked for it.
    fn after_payload(self, payload: P, out: &mut Vec<Effect<P, R>>) -> (r: Self)
        requires
            self.phase is Copying || (self.phase matches Phase::Serving(m)
                && m is AppendCwdSwitchAndAck),
            old(out)@ == Seq::<Effect<P, R>>::empty(),
        ensures
            (r, final(out)@) == payload_turn(self, payload),
    {
        let mut s = self;
        match s.phase {
            Phase::Copying { one_shot } => {
                s.phase = Phase::Receiving;
                out.push(Effect::ReplyPayload { to: one_shot, payload });
                s.resume()
            },
            Phase::Serving(PersistenceMsg::AppendCwdSwitchAndAck { respond_to, .. }) => {
                s.phase = Phase::Receiving;
                out.push(Effect::ReplyPayload { to: respond_to, payload });
                s.resume()
            },
            phase => {
                s.phase = phase;
                s
            },
        }
    }

    /// Follows the loading of the session to enable writeback.
    fn after_load(self, result: Result<Vec<SessionUpdate<P>>, IoError>) -> (r: Self)
        ensures
            r == load_turn(self, result),
    {
        let mut s = self;
        match (s.phase, result) {
            (Phase::Loading { auth_manager }, Ok(updates)) => {
                s.phase = Phase::Connecting { auth_manager, updates };
                s
            },
            _ => {
                s.phase = Phase::Receiving;
                s.resume()
            },
        }
    }

    /// Follows the set-up of the remote backend.
    fn after_connect(self, result: Result<bool, IoError>, out: &mut Vec<Effect<P, R>>) -> (r: Self)
        requires
            self.phase is Connecting,
            old(out)@ == Seq::<Effect<P, R>>::empty(),
        ensures
            connect_turn(self, self.phase->Connecting_updates@, result, r, final(out)@),
    {
        let mut s = self;
        match s.phase {
            Phase::Connecting { updates, .. } => {
                s.phase = Phase::Receiving;
                match result {
                    Ok(true) => {
                        s.remote_sync = true;
                        if s.created_fresh {
                            let notifications = backfill_updates_to_sync(true, updates);
                            out.push(Effect::Backfill { notifications });
                        }
                    },
                    _ => {},
                }
                s.resume()
            },
            phase => {
                s.phase = phase;
                s
            },
        }
    }

    /// Follows a model switch.
    fn after_switch(
        self,
        result: Result<(), ModelSwitchCommitError>,
        out: &mut Vec<Effect<P, R>>,
    ) -> (r: Self)
        requires
            self.phase is Serving,
            old(out)@ == Seq::<Effect<P, R>>::empty(),
        ensures
            r == resumed(self),
            final(out)@ == switch_effects(self, self.phase->Serving_0, result),
    {
        let mut s = self;
        match s.phase {
            Phase::Serving(msg) => {
                s.phase = Phase::Receiving;
                s.finish_switch(msg, result, out)
            },
            phase => {
                s.phase = phase;
                s
            },
        }
    }

    /// Takes in what happened.
    pub fn step(self, event: Event<P, R, G>) -> (r: Turn<P, R, G>)
        requires
            self.wf(),
            expects(self.phase, event),
        ensures
            r.actor.wf(),
            transition(self, event, r.actor, r.effects@),
    {
        let mut effects: Vec<Effect<P, R>> = Vec::new();
        assert(effects@ =~= Seq::<Effect<P, R>>::empty());
        let ghost before = self;
        let ghost what = event;
        let actor = match event {
            Event::Message { msg, now_ms, committed } => match &self.phase {
                Phase::Sealed => self.receive_sealed(msg),
                _ => self.receive(msg, now_ms, committed, &mut effects),
            },
            Event::Closed => self.close(&mut effects),
            Event::Gate { published, committed } => self.after_gate(
                published,
                committed,
                &mut effects,
            ),
            Event::Lease { result } => self.after_lease(result, &mut effects),
            Event::ThreadsExited { committed } => self.after_join(committed, &mut effects),
            Event::Appended { result } => self.after_append(result, &mut effects),
            Event::Done { result } => self.after_done(result, &mut effects),
            Event::Title { result } => self.after_title(result, &mut effects),
            Event::ModelSwitch { result } => self.after_switch(result, &mut effects),
            Event::Payload { payload } => self.after_payload(payload, &mut effects),
            Event::Loaded { result } => self.after_load(result),
            Event::Connected { result } => self.after_connect(result, &mut effects),
        };
        proof {
            transition_keeps_wf(before, what, actor, effects@);
        }
        Turn { actor, effects }
    }
}

proof fn drained_wf<P, R, G>(
    s: SessionPersistence<P, R, G>,
    msg: PersistenceMsg<P, R, G>,
    result: Result<(), AppendUpdateError>,
)
    requires
        s.in_flight is None,
        s.pending_publication_gate is None,
        !s.fresh_publication_aborted,
        result is Ok ==> s.pending_notification is None,
    ensures
        drained(s, msg, result).0.wf(),
{
}

proof fn served_wf<P, R, G>(
    s: SessionPersistence<P, R, G>,
    msg: PersistenceMsg<P, R, G>,
    committed: bool,
)
    requires
        s.wf(),
        s.phase is Receiving,
    ensures
        served(s, msg, committed).0.wf(),
{
    if s.pending_notification is None {
        drained_wf(s, msg, Ok(()));
    }
    if drains(msg) {
        assert(draining(s, msg).0.wf());
    }
}

proof fn message_turn_wf<P, R, G>(
    s: SessionPersistence<P, R, G>,
    msg: PersistenceMsg<P, R, G>,
    now_ms: u64,
    committed: bool,
    t: SessionPersistence<P, R, G>,
    out: Seq<Effect<P, R>>,
)
    requires
        s.wf(),
        s.phase is Receiving,
        message_turn(s, msg, now_ms, committed, t, out),
    ensures
        t.wf(),
{
    let s1 = if touch_due(s, now_ms) {
        SessionPersistence { last_worktree_touch_ms: now_ms, ..s }
    } else {
        s
    };
    served_wf(s1, msg, committed);
}

proof fn append_turn_wf<P, R, G>(
    s: SessionPersistence<P, R, G>,
    result: Result<(), AppendUpdateError>,
)
    requires
        s.wf(),
        s.in_flight is Some,
    ensures
        append_turn(s, s.in_flight->0, result).0.wf(),
{
    let update = s.in_flight->0;
    match s.phase {
        Phase::Draining(msg) => {
            drained_wf(appended(s, update, result, true).0, msg, result);
        },
        _ => {},
    }
}

proof fn done_turn_wf<P, R, G>(s: SessionPersistence<P, R, G>, result: Result<(), IoError>)
    requires
        s.wf(),
        s.phase is Deleting || s.phase is Serving || s.phase is Syncing,
    ensures
        done_turn(s, result).0.wf(),
{
}

/// The invariant of the actor survives every event.
pub proof fn transition_keeps_wf<P, R, G>(
    s: SessionPersistence<P, R, G>,
    event: Event<P, R, G>,
    t: SessionPersistence<P, R, G>,
    out: Seq<Effect<P, R>>,
)
    requires
        s.wf(),
        expects(s.phase, event),
        transition(s, event, t, out),
    ensures
        t.wf(),
{
    match event {
        Event::Message { msg, now_ms, committed } => {
            if s.phase is Sealed {
                assert(t.wf());
            } else {
                message_turn_wf(s, msg, now_ms, committed, t, out);
            }
        },
        Event::Appended { result } => {
            append_turn_wf(s, result);
        },
        Event::Done { result } => {
            done_turn_wf(s, result);
        },
        Event::Closed => {
            assert(t.wf());
        },
        Event::Gate { .. } => {
            assert(t.wf());
        },
        Event::Lease { .. } => {
            assert(t.wf());
        },
        Event::ThreadsExited { .. } => {
            assert(t.wf());
        },
        Event::Title { .. } => {
            assert(t.wf());
        },
        Event::ModelSwitch { .. } => {
            assert(t.wf());
        },
        Event::Payload { .. } => {
            assert(t.wf());
        },
        Event::Loaded { .. } => {
            assert(t.wf());
        },
        Event::Connected { .. } => {
            assert(t.wf());
        },
    }
}

} // verus!
