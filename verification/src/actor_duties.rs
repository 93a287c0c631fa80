//! What the persistence actor owes to those who send it messages.

use vstd::prelude::*;

use crate::actor::{
    acp_notifications, action_in, append_turn, appended, done_effects, done_turn, drained, draining,
    expects, flush_effects, latch_effects, message_turn, queue_effects, served, switch_effects,
    transition, Action, AppendUpdateError, Effect, Event, ModelSwitchCommitError, Phase, Refusal,
    SessionPersistence,
};
use crate::io_error::{DiskFullCodes, ErrorKind, IoError};
use crate::message::{PersistenceMsg, StorageOp};
use crate::notification::{SessionNotification, SessionUpdate};

verus! {

// Answers.

/// Who is to be answered for a message, if anybody is.
pub open spec fn asker<P, R, G>(msg: PersistenceMsg<P, R, G>) -> Seq<R> {
    match msg {
        PersistenceMsg::AppendUpdateDurablyAndAck { respond_to, .. } => seq![respond_to],
        PersistenceMsg::AppendCwdSwitchAndAck { respond_to, .. } => seq![respond_to],
        PersistenceMsg::ReplaceChatHistoryAndAck { respond_to, .. } => seq![respond_to],
        PersistenceMsg::CurrentModelAndAck { respond_to, .. } => seq![respond_to],
        PersistenceMsg::ModelSwitchAndAck { respond_to, .. } => seq![respond_to],
        PersistenceMsg::DeleteGoalModeState { respond_to } => seq![respond_to],
        PersistenceMsg::WorkflowRunStateAndAck { respond_to, .. } => seq![respond_to],
        PersistenceMsg::AbortFreshAndDelete { respond_to, .. } => seq![respond_to],
        PersistenceMsg::PublishFresh { respond_to, .. } => seq![respond_to],
        PersistenceMsg::FlushAndAck { respond_to } => seq![respond_to],
        PersistenceMsg::ProbeWritable { respond_to } => seq![respond_to],
        PersistenceMsg::CopyFile { one_shot } => seq![one_shot],
        _ => seq![],
    }
}

/// Who is waiting for an answer while the actor is in a phase.
pub open spec fn waiting<P, R, G>(phase: Phase<P, R, G>) -> Seq<R> {
    match phase {
        Phase::Joining { respond_to, .. } => seq![respond_to],
        Phase::Retaining { respond_to, .. } => seq![respond_to],
        Phase::Deleting { respond_to } => seq![respond_to],
        Phase::WritingDurably { respond_to } => seq![respond_to],
        Phase::Draining(msg) => asker(msg),
        Phase::Syncing(msg) => asker(msg),
        Phase::Serving(msg) => asker(msg),
        Phase::Copying { one_shot } => seq![one_shot],
        _ => seq![],
    }
}

/// Who is answered by an effect.
pub open spec fn answers_to<P, R>(effect: Effect<P, R>) -> Seq<R> {
    match effect {
        Effect::Reply { to, .. } => seq![to],
        Effect::Refuse { to, .. } => seq![to],
        Effect::ReplyAppend { to, .. } => seq![to],
        Effect::ReplyModelSwitch { to, .. } => seq![to],
        Effect::ReplyPayload { to, .. } => seq![to],
        _ => seq![],
    }
}

/// Who is answered by effects, in order.
pub open spec fn answered<P, R>(out: Seq<Effect<P, R>>) -> Seq<R>
    decreases out.len(),
{
    if out.len() == 0 {
        seq![]
    } else {
        answered(out.drop_last()) + answers_to(out.last())
    }
}

proof fn answered_both<P, R>(a: Seq<Effect<P, R>>, b: Seq<Effect<P, R>>)
    ensures
        answered(a + b) == answered(a) + answered(b),
    decreases b.len(),
{
    if b.len() == 0 {
        assert(a + b =~= a);
        assert(answered(a) + answered(b) =~= answered(a));
    } else {
        answered_both(a, b.drop_last());
        assert((a + b).drop_last() =~= a + b.drop_last());
        assert((a + b).last() == b.last());
        assert(answered(a + b) =~= answered(a) + answered(b));
    }
}

proof fn answered_one<P, R>(e: Effect<P, R>)
    ensures
        answered(seq![e]) == answers_to(e),
        answered(Seq::<Effect<P, R>>::empty()) == Seq::<R>::empty(),
{
    assert(seq![e].drop_last() =~= Seq::<Effect<P, R>>::empty());
    assert(answered(Seq::<Effect<P, R>>::empty()) =~= Seq::<R>::empty());
    assert(answered(seq![e]) =~= answers_to(e));
}

proof fn answered_push<P, R>(a: Seq<Effect<P, R>>, e: Effect<P, R>)
    ensures
        answered(a.push(e)) == answered(a) + answers_to(e),
{
    assert(a.push(e).drop_last() =~= a);
}

proof fn flush_answers_nobody<P, R, G>(s: SessionPersistence<P, R, G>)
    ensures
        answered(flush_effects(s)) == Seq::<R>::empty(),
{
    answered_one(Effect::<P, R>::FlushSync { remote: s.remote_sync, relay: s.relay_sync });
}

proof fn latch_answers_nobody<P, R>(
    disk: crate::actor::DiskFullLatch,
    failure: Option<IoError>,
    codes: DiskFullCodes,
    gateway: bool,
)
    ensures
        answered(latch_effects::<P, R>(disk, failure, codes, gateway)) == Seq::<R>::empty(),
{
    answered_one(Effect::<P, R>::DiskFull(true));
    answered_one(Effect::<P, R>::DiskFull(false));
    answered_push(seq![Effect::<P, R>::DiskFull(true)], Effect::DiskFullNotice);
    answered_push(Seq::<Effect<P, R>>::empty(), Effect::DiskFullNotice);
    assert(answered(latch_effects::<P, R>(disk, failure, codes, gateway)) =~= Seq::<R>::empty());
}

proof fn drained_answers<P, R, G>(
    s: SessionPersistence<P, R, G>,
    msg: PersistenceMsg<P, R, G>,
    result: Result<(), AppendUpdateError>,
)
    requires
        crate::actor::drains(msg),
        s.pending_publication_gate is None,
    ensures
        asker(msg) == answered(drained(s, msg, result).1) + waiting(drained(s, msg, result).0.phase),
{
    flush_answers_nobody(s);
    let (t, out) = drained(s, msg, result);
    match msg {
        PersistenceMsg::AppendUpdateDurablyAndAck { respond_to, .. } => {
            answered_one(Effect::<P, R>::ReplyAppend { to: respond_to, result });
        },
        PersistenceMsg::PublishFresh { respond_to, .. } => {
            if let Err(e) = result {
                answered_push(
                    flush_effects(s),
                    Effect::Reply { to: respond_to, result: Err(e.io_error()) },
                );
            }
        },
        PersistenceMsg::FlushAndAck { respond_to } => {
            let r: Result<(), IoError> = match result {
                Ok(_) => Ok(()),
                Err(e) => Err(e.io_error()),
            };
            answered_push(flush_effects(s), Effect::Reply { to: respond_to, result: r });
        },
        _ => {},
    }
    assert(asker(msg) =~= answered(out) + waiting(t.phase));
}

proof fn served_answers<P, R, G>(
    s: SessionPersistence<P, R, G>,
    msg: PersistenceMsg<P, R, G>,
    committed: bool,
)
    requires
        s.pending_publication_gate is None,
        !(msg matches PersistenceMsg::Update(SessionUpdate::Acp(_))),
    ensures
        asker(msg) == answered(served(s, msg, committed).1) + waiting(
            served(s, msg, committed).0.phase,
        ),
{
    let (t, out) = served(s, msg, committed);
    if crate::actor::drains(msg) {
        drained_answers(s, msg, Ok(()));
    }
    match msg {
        PersistenceMsg::AbortFreshAndDelete { respond_to, .. } => {
            answered_one(Effect::<P, R>::Refuse { to: respond_to, why: Refusal::NotProvisional });
        },
        PersistenceMsg::PublishFresh { respond_to, .. } => {
            answered_one(Effect::<P, R>::Refuse { to: respond_to, why: Refusal::NotPublishable });
            answered_one(Effect::<P, R>::Refuse { to: respond_to, why: Refusal::AlreadyArmed });
        },
        PersistenceMsg::ContentChunk(chunk) => {
            answered_one(Effect::<P, R>::UpdateSummary(chunk));
            answered_push(seq![Effect::<P, R>::UpdateSummary(chunk)], Effect::NotifySearch);
            assert(out =~= seq![Effect::<P, R>::UpdateSummary(chunk)].push(Effect::NotifySearch));
        },
        PersistenceMsg::ReplaceSummarySamplingConfig(config) => {
            answered_one(Effect::<P, R>::ReplaceSummarySampling(config));
        },
        _ => {},
    }
    assert(asker(msg) =~= answered(out) + waiting(t.phase));
}

proof fn message_answers<P, R, G>(
    s: SessionPersistence<P, R, G>,
    msg: PersistenceMsg<P, R, G>,
    now_ms: u64,
    committed: bool,
    t: SessionPersistence<P, R, G>,
    out: Seq<Effect<P, R>>,
)
    requires
        s.wf(),
        s.phase is Receiving,
        message_turn(s, msg, now_ms, committed, t, out),
    ensures
        asker(msg) == answered(out) + waiting(t.phase),
{
    let touch = seq![Effect::<P, R>::TouchWorktree];
    answered_one(Effect::<P, R>::TouchWorktree);
    match msg {
        PersistenceMsg::Update(SessionUpdate::Acp(_)) => {
            assert(answered(out) + waiting(t.phase) =~= asker(msg));
        },
        _ => {
            let s1 = SessionPersistence { last_worktree_touch_ms: now_ms, ..s };
            served_answers(s, msg, committed);
            served_answers(s1, msg, committed);
            answered_both(touch, served(s1, msg, committed).1);
            answered_both(Seq::<Effect<P, R>>::empty(), served(s, msg, committed).1);
            assert(answered(out) + waiting(t.phase) =~= asker(msg));
        },
    }
}

proof fn append_answers<P, R, G>(
    s: SessionPersistence<P, R, G>,
    update: SessionUpdate<P>,
    result: Result<(), AppendUpdateError>,
)
    requires
        s.wf(),
        expects(s.phase, Event::Appended { result }),
    ensures
        waiting(s.phase) == answered(append_turn(s, update, result).1) + waiting(
            append_turn(s, update, result).0.phase,
        ),
{
    let restore = s.phase is Draining || s.phase is Closing;
    let (s1, then) = appended(s, update, result, restore);
    let latch = latch_effects::<P, R>(
        s.disk,
        crate::actor::append_failure(result),
        s.codes,
        s.gateway,
    );
    latch_answers_nobody::<P, R>(
        s.disk,
        crate::actor::append_failure(result),
        s.codes,
        s.gateway,
    );
    let queued = queue_effects(s, update);
    if queued.len() > 0 {
        answered_one(queued[0]);
        assert(queued =~= seq![queued[0]]);
    } else {
        assert(queued =~= Seq::empty());
        answered_one(Effect::<P, R>::NotifySearch);
    }
    answered_both(latch, queued);
    assert(answered(then) =~= Seq::<R>::empty());
    let (t, out) = append_turn(s, update, result);
    match s.phase {
        Phase::WritingDurably { respond_to } => {
            answered_push(then, Effect::ReplyAppend { to: respond_to, result });
        },
        Phase::Draining(msg) => {
            drained_answers(s1, msg, result);
            answered_both(then, drained(s1, msg, result).1);
        },
        Phase::Closing => {
            flush_answers_nobody(s1);
            answered_both(then, flush_effects(s1));
        },
        _ => {},
    }
    assert(waiting(s.phase) =~= answered(out) + waiting(t.phase));
}

proof fn done_answers<P, R, G>(s: SessionPersistence<P, R, G>, result: Result<(), IoError>)
    requires
        s.wf(),
        expects(s.phase, Event::Done { result }),
    ensures
        waiting(s.phase) == answered(done_turn(s, result).1) + waiting(
            done_turn(s, result).0.phase,
        ),
{
    let (t, out) = done_turn(s, result);
    match s.phase {
        Phase::Deleting { respond_to } => {
            let reply = Effect::<P, R>::Reply { to: respond_to, result };
            answered_one(Effect::<P, R>::NotifySearch);
            answered_push(seq![Effect::<P, R>::NotifySearch], reply);
            answered_push(Seq::<Effect<P, R>>::empty(), reply);
        },
        Phase::Syncing(PersistenceMsg::PublishFresh { respond_to, .. }) => {
            answered_one(Effect::<P, R>::Reply { to: respond_to, result });
        },
        Phase::Syncing(PersistenceMsg::CopyFile { .. }) => {
            answered_one(Effect::<P, R>::NotifySearch);
        },
        Phase::Serving(msg) => {
            let failure = crate::actor::io_failure(result);
            let latch = latch_effects::<P, R>(s.disk, failure, s.codes, s.gateway);
            latch_answers_nobody::<P, R>(s.disk, failure, s.codes, s.gateway);
            answered_both(latch, done_effects(s, msg, result));
            single_answer(s, msg, result);
        },
        _ => {},
    }
    assert(waiting(s.phase) =~= answered(out) + waiting(t.phase));
}

proof fn single_answer<P, R, G>(
    s: SessionPersistence<P, R, G>,
    msg: PersistenceMsg<P, R, G>,
    result: Result<(), IoError>,
)
    requires
        expects(Phase::Serving(msg), Event::<P, R, G>::Done { result }),
        crate::message::single_op(msg) is Some,
    ensures
        answered(done_effects(s, msg, result)) == asker(msg),
{
    answered_one(Effect::<P, R>::NotifySearch);
    let out = done_effects(s, msg, result);
    match msg {
        PersistenceMsg::CurrentModel { model_id, catalog_identity, agent_name, .. } => {
            answered_one(Effect::<P, R>::SetModel { model_id, catalog_identity, agent_name });
        },
        PersistenceMsg::CurrentModelAndAck {
            model_id,
            catalog_identity,
            agent_name,
            respond_to,
            ..
        } => {
            let set = Effect::<P, R>::SetModel { model_id, catalog_identity, agent_name };
            let reply = Effect::<P, R>::Reply { to: respond_to, result };
            answered_one(set);
            answered_push(seq![set], reply);
            answered_push(Seq::<Effect<P, R>>::empty(), reply);
        },
        _ => {
            if out.len() == 1 {
                answered_one(out[0]);
                assert(out =~= seq![out[0]]);
            }
        },
    }
    assert(answered(out) =~= asker(msg));
}

proof fn switch_answers<P, R, G>(
    s: SessionPersistence<P, R, G>,
    msg: PersistenceMsg<P, R, G>,
    result: Result<(), ModelSwitchCommitError>,
)
    requires
        msg is ModelSwitchAndAck,
    ensures
        answered(switch_effects(s, msg, result)) == asker(msg),
{
    if let PersistenceMsg::ModelSwitchAndAck {
        model_id,
        catalog_identity,
        agent_name,
        summary_sampling_config,
        respond_to,
        ..
    } = msg {
        let none = Seq::<Effect<P, R>>::empty();
        let set = Effect::<P, R>::SetModel { model_id, catalog_identity, agent_name };
        let reply = Effect::<P, R>::ReplyModelSwitch { to: respond_to, result };
        answered_one(set);
        answered_push(none, reply);
        answered_push(seq![set], reply);
        if let Some(config) = summary_sampling_config {
            let sampling = Effect::<P, R>::ReplaceSummarySampling(config);
            answered_push(none, sampling);
            answered_push(seq![set], sampling);
            answered_push(none.push(sampling), reply);
            answered_push(seq![set].push(sampling), reply);
        }
    }
    assert(answered(switch_effects(s, msg, result)) =~= asker(msg));
}

/// Whoever waits for an answer, or asks for one now, is answered in this turn or
/// is who the actor goes on to work for; nobody else is answered, and nobody is
/// answered twice. Only what is still queued when a publication was aborted is
/// not answered.
pub proof fn everyone_is_answered_once<P, R, G>(
    s: SessionPersistence<P, R, G>,
    event: Event<P, R, G>,
    t: SessionPersistence<P, R, G>,
    out: Seq<Effect<P, R>>,
)
    requires
        s.wf(),
        expects(s.phase, event),
        transition(s, event, t, out),
        s.phase is Sealed ==> !(event is Message) || event->Message_msg is AbortFreshAndDelete,
    ensures
        waiting(s.phase) + (match event {
            Event::Message { msg, .. } => asker(msg),
            _ => seq![],
        }) == answered(out) + waiting(t.phase),
{
    answered_one(Effect::<P, R>::NotifySearch);
    let asked: Seq<R> = match event {
        Event::Message { msg, .. } => asker(msg),
        _ => seq![],
    };
    match event {
        Event::Message { msg, now_ms, committed } => {
            if s.phase is Receiving {
                message_answers(s, msg, now_ms, committed, t, out);
            }
        },
        Event::Appended { result } => {
            append_answers(s, s.in_flight->0, result);
        },
        Event::Done { result } => {
            done_answers(s, result);
        },
        Event::Closed => {
            flush_answers_nobody(s);
        },
        Event::Gate { .. } => {
            answered_one(Effect::<P, R>::DropClaim);
        },
        Event::Lease { .. } => {
            answered_one(Effect::<P, R>::TouchWorktree);
            if let Phase::Retaining { respond_to, .. } = s.phase {
                answered_one(
                    Effect::<P, R>::Refuse { to: respond_to, why: Refusal::NotProvisional },
                );
            }
        },
        Event::ThreadsExited { .. } => {
            if let Phase::Joining { respond_to, .. } = s.phase {
                answered_one(
                    Effect::<P, R>::Refuse { to: respond_to, why: Refusal::NotProvisional },
                );
            }
        },
        Event::Title { result } => {
            if out.len() > 0 {
                answered_one(out[0]);
                assert(out =~= seq![out[0]]);
            }
        },
        Event::ModelSwitch { result } => {
            if let Phase::Serving(msg) = s.phase {
                switch_answers(s, msg, result);
            }
        },
        Event::Payload { payload } => {
            if out.len() > 0 {
                answered_one(out[0]);
                assert(out =~= seq![out[0]]);
            }
        },
        Event::Loaded { .. } => {},
        Event::Connected { .. } => {
            if out.len() > 0 {
                answered_one(out[0]);
                assert(out =~= seq![out[0]]);
            }
        },
    }
    assert(waiting(s.phase) + asked =~= answered(out) + waiting(t.phase));
}

// What the answers say.

/// The failure in the result of an append, if there is one.
pub open spec fn failure_in(result: Result<(), AppendUpdateError>) -> Option<IoError> {
    match result {
        Ok(_) => None,
        Err(AppendUpdateError::NotCommitted(e)) => Some(e),
        Err(AppendUpdateError::Committed(e)) => Some(e),
    }
}

/// Whether a failure reports a full disk: by its kind, or by one of the codes
/// that the platform has for it.
pub open spec fn reports_full_disk(e: IoError, codes: DiskFullCodes) -> bool {
    ||| e.kind == ErrorKind::StorageFull
    ||| e.raw_os_error is Some && (e.raw_os_error == codes.no_space || e.raw_os_error == codes.quota)
}

/// The answer to a message that is served by one storage operation is the result
/// of that operation, to the one who asked.
pub proof fn plain_answer_is_the_result<P, R, G>(
    s: SessionPersistence<P, R, G>,
    msg: PersistenceMsg<P, R, G>,
    result: Result<(), IoError>,
    t: SessionPersistence<P, R, G>,
    out: Seq<Effect<P, R>>,
    i: int,
)
    requires
        s.wf(),
        s.phase == Phase::Serving(msg),
        expects(s.phase, Event::Done { result }),
        transition(s, Event::Done { result }, t, out),
        0 <= i < out.len(),
    ensures
        answers_to(out[i]).len() > 0 ==> out[i] == (Effect::<P, R>::Reply {
            to: asker(msg)[0],
            result,
        }),
        t.phase is Receiving,
{
}

/// Deletion and publication answer with the result of their last operation. A
/// deleted session leaves the search index. A session whose files are durable
/// waits for its gate, any other goes on as it was.
pub proof fn last_operation_is_the_answer<P, R, G>(
    s: SessionPersistence<P, R, G>,
    result: Result<(), IoError>,
    t: SessionPersistence<P, R, G>,
    out: Seq<Effect<P, R>>,
)
    requires
        s.wf(),
        s.phase is Deleting || s.phase is Syncing,
        transition(s, Event::Done { result }, t, out),
    ensures
        match s.phase {
            Phase::Deleting { respond_to } => {
                &&& t.phase is Stopped
                &&& out.last() == (Effect::<P, R>::Reply { to: respond_to, result })
                &&& result is Ok <==> out.contains(Effect::NotifySearch)
            },
            Phase::Syncing(PersistenceMsg::PublishFresh { publication_gate, respond_to }) => {
                &&& out == seq![Effect::<P, R>::Reply { to: respond_to, result }]
                &&& result is Ok ==> t.phase == Phase::<P, R, G>::AwaitingGate(publication_gate)
                &&& result is Err ==> t.phase is Receiving
            },
            Phase::Syncing(PersistenceMsg::CopyFile { one_shot }) => {
                &&& out.len() == 0
                &&& t.phase == (Phase::<P, R, G>::Copying { one_shot })
            },
            _ => false,
        },
        t.created_fresh == s.created_fresh && t.fresh_claim == s.fresh_claim && t.published_lease
            == s.published_lease && t.fresh_publication_aborted == s.fresh_publication_aborted,
{
    if s.phase is Deleting && result is Ok {
        assert(out[0] == Effect::<P, R>::NotifySearch);
    }
}

/// A durable append answers with what became of the line. One whose drain of the
/// buffer failed is not tried, and answers with that failure.
pub proof fn durable_append_answers_with_its_line<P, R, G>(
    s: SessionPersistence<P, R, G>,
    result: Result<(), AppendUpdateError>,
    t: SessionPersistence<P, R, G>,
    out: Seq<Effect<P, R>>,
)
    requires
        s.wf(),
        transition(s, Event::Appended { result }, t, out),
    ensures
        s.phase matches Phase::WritingDurably { respond_to } ==> {
            &&& t.phase is Receiving
            &&& out.last() == (Effect::<P, R>::ReplyAppend { to: respond_to, result })
        },
        s.phase matches Phase::Draining(
            PersistenceMsg::AppendUpdateDurablyAndAck { update, respond_to },
        ) ==> match result {
            Ok(_) => t.phase == (Phase::<P, R, G>::WritingDurably { respond_to }) && t.in_flight
                == Some(update),
            Err(_) => t.phase is Receiving && t.in_flight is None && out.last() == (
            Effect::<P, R>::ReplyAppend { to: respond_to, result }),
        },
{
}

/// A flush answers that everything was written only if it was; otherwise with
/// the failure.
pub proof fn flush_answers_with_the_drain<P, R, G>(
    s: SessionPersistence<P, R, G>,
    result: Result<(), AppendUpdateError>,
    t: SessionPersistence<P, R, G>,
    out: Seq<Effect<P, R>>,
    respond_to: R,
)
    requires
        s.wf(),
        s.phase == Phase::<P, R, G>::Draining(PersistenceMsg::FlushAndAck { respond_to }),
        transition(s, Event::Appended { result }, t, out),
    ensures
        t.phase is Receiving,
        out.last() == (Effect::<P, R>::Reply {
            to: respond_to,
            result: match failure_in(result) {
                None => Ok(()),
                Some(e) => Err(e),
            },
        }),
        s.remote_sync || s.relay_sync ==> out.contains(
            Effect::<P, R>::FlushSync { remote: s.remote_sync, relay: s.relay_sync },
        ),
{
    let update = s.in_flight->0;
    let (s1, then) = appended(s, update, result, true);
    let last = drained(s1, PersistenceMsg::<P, R, G>::FlushAndAck { respond_to }, result).1;
    assert(out == then + last);
    if s.remote_sync || s.relay_sync {
        assert(last[0] == (Effect::<P, R>::FlushSync { remote: s.remote_sync, relay: s.relay_sync }));
        assert(out[then.len() as int] == last[0]);
    }
}

// The disk.

/// A write that is watched tells whether the disk is full: a success says that
/// it is not, a failure for that reason that it is, and any other failure
/// nothing. Appends are watched, and chat items, whole chats, rewind points and
/// probes; other operations are not.
pub proof fn disk_is_full_as_last_seen<P, R, G>(
    s: SessionPersistence<P, R, G>,
    event: Event<P, R, G>,
    t: SessionPersistence<P, R, G>,
    out: Seq<Effect<P, R>>,
)
    requires
        s.wf(),
        expects(s.phase, event),
        transition(s, event, t, out),
        event is Appended || event is Done,
    ensures
        ({
            let watched = match s.phase {
                Phase::Serving(msg) => msg is Chat || msg is ReplaceChatHistory || msg
                    is RewindPoint || msg is ProbeWritable,
                Phase::Deleting { .. } => false,
                Phase::Syncing(_) => false,
                _ => true,
            };
            let failure = match event {
                Event::Appended { result } => failure_in(result),
                Event::Done { result: Err(e) } => Some(e),
                _ => None,
            };
            if !watched {
                t.disk == s.disk
            } else {
                match failure {
                    None => !t.disk.full && !t.disk.notified,
                    Some(e) => if reports_full_disk(e, s.codes) {
                        t.disk.full && t.disk.notified
                    } else {
                        t.disk == s.disk
                    },
                }
            }
        }),
{
    match event {
        Event::Appended { result } => {
            let restore = s.phase is Draining || s.phase is Closing;
            let (s1, _) = appended(s, s.in_flight->0, result, restore);
            if let Phase::Draining(msg) = s.phase {
                assert(drained(s1, msg, result).0.disk == s1.disk);
            }
        },
        _ => {},
    }
}

proof fn latch_reports<P, R>(
    disk: crate::actor::DiskFullLatch,
    failure: Option<IoError>,
    codes: DiskFullCodes,
    gateway: bool,
    b: bool,
)
    ensures
        latch_effects::<P, R>(disk, failure, codes, gateway).contains(Effect::DiskFull(b)) <==> (
        disk.full != b && crate::actor::latch_after(disk, failure, codes).full == b),
        latch_effects::<P, R>(disk, failure, codes, gateway).contains(Effect::DiskFullNotice)
            <==> gateway && !disk.notified && (failure matches Some(e) && reports_full_disk(
            e,
            codes,
        )),
{
    let out = latch_effects::<P, R>(disk, failure, codes, gateway);
    if let Some(e) = failure {
        if reports_full_disk(e, codes) {
            if !disk.full {
                assert(out[0] == Effect::<P, R>::DiskFull(true));
            }
            if !disk.notified && gateway {
                assert(out.last() == Effect::<P, R>::DiskFullNotice);
                assert(out[out.len() - 1] == Effect::<P, R>::DiskFullNotice);
            }
        }
    } else if disk.full {
        assert(out[0] == Effect::<P, R>::DiskFull(false));
    }
}

/// Who watches the disk is told exactly when it becomes full or ceases to be,
/// and the client once while it stays so.
pub proof fn disk_changes_are_published<P, R, G>(
    s: SessionPersistence<P, R, G>,
    msg: PersistenceMsg<P, R, G>,
    result: Result<(), IoError>,
    t: SessionPersistence<P, R, G>,
    out: Seq<Effect<P, R>>,
    b: bool,
)
    requires
        s.wf(),
        s.phase == Phase::Serving(msg),
        expects(s.phase, Event::Done { result }),
        transition(s, Event::Done { result }, t, out),
    ensures
        out.contains(Effect::DiskFull(b)) <==> s.disk.full != b && t.disk.full == b,
        out.contains(Effect::DiskFullNotice) ==> s.gateway && !s.disk.notified && t.disk.notified,
        s.gateway && !s.disk.notified && t.disk.notified ==> out.contains(Effect::DiskFullNotice),
{
    let failure = crate::actor::io_failure(result);
    let latch = latch_effects::<P, R>(s.disk, failure, s.codes, s.gateway);
    let then = done_effects(s, msg, result);
    latch_reports::<P, R>(s.disk, failure, s.codes, s.gateway, b);
    assert(forall|i: int|
        0 <= i < then.len() ==> !((#[trigger] then[i]) is DiskFull) && !(then[i] is DiskFullNotice));
    if crate::actor::observed(msg) {
        assert(out == latch + then);
        if latch.contains(Effect::DiskFull(b)) {
            let i = choose|i: int| 0 <= i < latch.len() && latch[i] == Effect::<P, R>::DiskFull(b);
            assert(out[i] == latch[i]);
        }
        if latch.contains(Effect::DiskFullNotice) {
            let i = choose|i: int|
                0 <= i < latch.len() && latch[i] == Effect::<P, R>::DiskFullNotice;
            assert(out[i] == latch[i]);
        }
        if out.contains(Effect::DiskFull(b)) {
            let i = choose|i: int| 0 <= i < out.len() && out[i] == Effect::<P, R>::DiskFull(b);
            assert(i < latch.len() ==> latch[i] == out[i]);
            assert(i >= latch.len() ==> then[i - latch.len()] == out[i]);
        }
        if out.contains(Effect::DiskFullNotice) {
            let i = choose|i: int| 0 <= i < out.len() && out[i] == Effect::<P, R>::DiskFullNotice;
            assert(i < latch.len() ==> latch[i] == out[i]);
            assert(i >= latch.len() ==> then[i - latch.len()] == out[i]);
        }
    }
}

// The backends.

/// A notification goes to the backends when its line is in the log, whether or
/// not that was acknowledged, and not before; to those that the session has. An
/// update of an extension goes to none.
pub proof fn logged_lines_go_to_the_backends<P, R, G>(
    s: SessionPersistence<P, R, G>,
    update: SessionUpdate<P>,
    result: Result<(), AppendUpdateError>,
    restore: bool,
    i: int,
)
    requires
        0 <= i < appended(s, update, result, restore).1.len(),
    ensures
        ({
            let out = appended(s, update, result, restore).1;
            let in_log = result is Ok || (result matches Err(e) && e is Committed);
            &&& out[i] is QueueSync ==> in_log && (update matches SessionUpdate::Acp(n) && out[i]
                == (Effect::<P, R>::QueueSync {
                notification: n,
                remote: s.remote_sync,
                relay: s.relay_sync,
            })) && (s.remote_sync || s.relay_sync)
            &&& in_log && update is Acp && (s.remote_sync || s.relay_sync) ==> out.last()
                is QueueSync
        }),
{
}

/// A notification that could not be written and was drained from the buffer goes
/// back to it; one that is in the log does not.
pub proof fn unwritten_lines_are_kept<P, R, G>(
    s: SessionPersistence<P, R, G>,
    n: SessionNotification<P>,
    result: Result<(), AppendUpdateError>,
)
    ensures
        ({
            let t = appended(s, SessionUpdate::Acp(n), result, true).0;
            let in_log = result is Ok || (result matches Err(e) && e is Committed);
            &&& in_log ==> t.pending_notification == s.pending_notification
            &&& !in_log ==> t.pending_notification == Some(n)
            &&& t.in_flight is None
        }),
{
}

/// The remote backend is told of a model once it is stored: of a plain change
/// always, of one that is acknowledged if it succeeded.
pub proof fn remote_is_told_the_model<P, R, G>(
    s: SessionPersistence<P, R, G>,
    msg: PersistenceMsg<P, R, G>,
    result: Result<(), IoError>,
    i: int,
)
    requires
        0 <= i < done_effects(s, msg, result).len(),
        done_effects(s, msg, result)[i] is SetModel,
    ensures
        s.remote_sync,
        match msg {
            PersistenceMsg::CurrentModel { model_id, catalog_identity, agent_name, .. } =>
                done_effects(s, msg, result)[i] == (Effect::<P, R>::SetModel {
                model_id,
                catalog_identity,
                agent_name,
            }),
            PersistenceMsg::CurrentModelAndAck { model_id, catalog_identity, agent_name, .. } =>
                result is Ok && done_effects(s, msg, result)[i] == (Effect::<P, R>::SetModel {
                model_id,
                catalog_identity,
                agent_name,
            }),
            _ => false,
        },
{
}

/// Conversely, with a remote backend a stored model is handed to it.
pub proof fn stored_model_reaches_the_remote<P, R, G>(
    s: SessionPersistence<P, R, G>,
    msg: PersistenceMsg<P, R, G>,
    result: Result<(), IoError>,
)
    requires
        s.remote_sync,
        msg is CurrentModel || (msg is CurrentModelAndAck && result is Ok),
    ensures
        done_effects(s, msg, result).len() > 0,
        done_effects(s, msg, result)[0] is SetModel,
{
}

/// A model switch that took effect, acknowledged or not, is told to the remote
/// backend and brings its sampling for titles; one that did not does neither.
/// The answer says which.
pub proof fn switch_is_told_where_it_took_effect<P, R, G>(
    s: SessionPersistence<P, R, G>,
    msg: PersistenceMsg<P, R, G>,
    result: Result<(), ModelSwitchCommitError>,
    t: SessionPersistence<P, R, G>,
    out: Seq<Effect<P, R>>,
)
    requires
        s.wf(),
        s.phase == Phase::Serving(msg),
        msg is ModelSwitchAndAck,
        transition(s, Event::ModelSwitch { result }, t, out),
    ensures
        t.phase is Receiving,
        ({
            let effective = result is Ok || (result matches Err(e) && e is Committed);
            match msg {
                PersistenceMsg::ModelSwitchAndAck {
                    model_id,
                    catalog_identity,
                    agent_name,
                    summary_sampling_config,
                    respond_to,
                    ..
                } => {
                    let set = Effect::<P, R>::SetModel { model_id, catalog_identity, agent_name };
                    &&& out.last() == (Effect::<P, R>::ReplyModelSwitch { to: respond_to, result })
                    &&& effective && s.remote_sync ==> out[0] == set
                    &&& effective && summary_sampling_config is Some ==> out[out.len() - 2]
                        == Effect::<P, R>::ReplaceSummarySampling(summary_sampling_config->0)
                    &&& !effective ==> out.len() == 1
                    &&& !s.remote_sync && summary_sampling_config is None ==> out.len() == 1
                    &&& out.len() <= 3
                },
                _ => false,
            }
        }),
{
}

/// A generated title is announced if and only if it was adopted.
pub proof fn adopted_title_is_announced<P, R, G>(
    s: SessionPersistence<P, R, G>,
    title: String,
    result: Result<bool, IoError>,
    t: SessionPersistence<P, R, G>,
    out: Seq<Effect<P, R>>,
)
    requires
        s.wf(),
        s.phase == Phase::<P, R, G>::Serving(PersistenceMsg::GeneratedTitle(title)),
        transition(s, Event::Title { result }, t, out),
    ensures
        t.phase is Receiving,
        result matches Ok(true) ==> out == seq![
            Effect::<P, R>::AdoptTitle { title, remote: s.remote_sync, registry: s.registry_titles },
        ],
        !(result matches Ok(true)) ==> out.len() == 0,
{
}

/// Text of a user turn feeds the title and the search index, in this order.
pub proof fn turn_text_feeds_title_and_search<P, R, G>(
    s: SessionPersistence<P, R, G>,
    chunk: crate::notification::PersistenceContentChunk<P>,
    now_ms: u64,
    committed: bool,
    t: SessionPersistence<P, R, G>,
    out: Seq<Effect<P, R>>,
)
    requires
        s.wf(),
        s.phase is Receiving,
        transition(
            s,
            Event::Message { msg: PersistenceMsg::ContentChunk(chunk), now_ms, committed },
            t,
            out,
        ),
    ensures
        t.phase is Receiving,
        out.len() >= 2,
        out[out.len() - 2] == Effect::<P, R>::UpdateSummary(chunk),
        out[out.len() - 1] == Effect::<P, R>::NotifySearch,
{
}

/// A message touches the worktree of a session that is published if and only if
/// an hour has passed since it was last touched, and then counts anew.
pub proof fn worktree_is_touched_hourly<P, R, G>(
    s: SessionPersistence<P, R, G>,
    msg: PersistenceMsg<P, R, G>,
    now_ms: u64,
    committed: bool,
    t: SessionPersistence<P, R, G>,
    out: Seq<Effect<P, R>>,
)
    requires
        s.wf(),
        s.phase is Receiving,
        now_ms >= s.last_worktree_touch_ms,
        crate::store::plainly_served(msg),
        transition(s, Event::Message { msg, now_ms, committed }, t, out),
    ensures
        ({
            let due = !s.fresh_claim && now_ms - s.last_worktree_touch_ms >= 60 * 60 * 1000;
            &&& due ==> out == seq![Effect::<P, R>::TouchWorktree] && t.last_worktree_touch_ms
                == now_ms
            &&& !due ==> out.len() == 0 && t.last_worktree_touch_ms == s.last_worktree_touch_ms
        }),
{
    crate::store::taken_up(s, msg, committed);
    crate::store::taken_up(SessionPersistence { last_worktree_touch_ms: now_ms, ..s }, msg, committed);
}

// Publication.

/// A fresh session is published on request, once: a session that this run did
/// not make, whose claim is gone or whose publication was aborted is refused.
pub proof fn only_provisional_sessions_are_published<P, R, G>(
    s: SessionPersistence<P, R, G>,
    gate: G,
    respond_to: R,
    now_ms: u64,
    committed: bool,
    t: SessionPersistence<P, R, G>,
    out: Seq<Effect<P, R>>,
)
    requires
        s.wf(),
        s.phase is Receiving,
        transition(
            s,
            Event::Message {
                msg: PersistenceMsg::PublishFresh { publication_gate: gate, respond_to },
                now_ms,
                committed,
            },
            t,
            out,
        ),
    ensures
        ({
            let msg = PersistenceMsg::<P, R, G>::PublishFresh { publication_gate: gate, respond_to };
            if s.created_fresh && s.fresh_claim && !s.fresh_publication_aborted {
                match s.pending_notification {
                    Some(_) => t.phase == Phase::Draining(msg),
                    None => t.phase == Phase::Syncing(msg),
                }
            } else {
                &&& t.phase is Receiving
                &&& out.last() == (Effect::<P, R>::Refuse {
                    to: respond_to,
                    why: Refusal::NotPublishable,
                })
            }
        }),
{
}

/// What the end of a gate does. A publication that was aborted seals the actor
/// and takes it off its backends. One that is published and committed turns its
/// claim into a lease; one that is published without a commit is given up.
pub proof fn gate_decides<P, R, G>(
    s: SessionPersistence<P, R, G>,
    published: bool,
    committed: bool,
    t: SessionPersistence<P, R, G>,
    out: Seq<Effect<P, R>>,
)
    requires
        s.wf(),
        s.phase is AwaitingGate,
        transition(s, Event::Gate { published, committed }, t, out),
    ensures
        !published ==> t.phase is Sealed && t.fresh_publication_aborted && !t.remote_sync
            && !t.relay_sync && t.pending_notification is None && out.len() == 0,
        published && s.fresh_claim && committed ==> action_in(t.phase) == Action::ConvertClaim
            && t.fresh_claim && out.len() == 0,
        published && s.fresh_claim && !committed ==> t.phase is Stopped && !t.fresh_claim
            && t.fresh_publication_aborted && out == seq![Effect::<P, R>::DropClaim],
        published && !s.fresh_claim ==> t.phase is Receiving && out.len() == 0,
        published ==> t.remote_sync == s.remote_sync && t.relay_sync == s.relay_sync,
{
}

/// A claim becomes a lease where that succeeds, and is kept where it fails;
/// either way the actor goes on. A requester whose abort came too late is
/// refused.
pub proof fn claim_becomes_a_lease<P, R, G>(
    s: SessionPersistence<P, R, G>,
    result: Result<(), IoError>,
    t: SessionPersistence<P, R, G>,
    out: Seq<Effect<P, R>>,
)
    requires
        s.wf(),
        s.phase is Downgrading || s.phase is Retaining,
        transition(s, Event::Lease { result }, t, out),
    ensures
        result is Ok ==> !t.fresh_claim && t.published_lease,
        result is Err ==> t.fresh_claim == s.fresh_claim && t.published_lease == s.published_lease,
        s.phase is Downgrading ==> t.phase is Receiving && out == seq![
            Effect::<P, R>::TouchWorktree,
        ],
        s.phase matches Phase::Retaining { respond_to, sealed } ==> {
            &&& out == seq![
                Effect::<P, R>::Refuse { to: respond_to, why: Refusal::NotProvisional },
            ]
            &&& sealed ==> t.phase is Stopped
            &&& !sealed ==> t.phase is Receiving
        },
{
}

/// An abort deletes a provisional session: its threads are waited for first.
/// What is committed, or is not this run's, is not deleted.
pub proof fn abort_deletes_provisional_sessions_only<P, R, G>(
    s: SessionPersistence<P, R, G>,
    gate: G,
    respond_to: R,
    now_ms: u64,
    committed: bool,
    t: SessionPersistence<P, R, G>,
    out: Seq<Effect<P, R>>,
)
    requires
        s.wf(),
        s.phase is Receiving,
        transition(
            s,
            Event::Message {
                msg: PersistenceMsg::AbortFreshAndDelete { publication_gate: gate, respond_to },
                now_ms,
                committed,
            },
            t,
            out,
        ),
    ensures
        s.created_fresh && s.fresh_claim && !committed ==> t.phase == (Phase::<P, R, G>::Joining {
            gate,
            respond_to,
            sealed: false,
        }) && t.fresh_publication_aborted && action_in(t.phase) == Action::AbortGateAndJoinThreads,
        s.created_fresh && s.fresh_claim && committed ==> t.phase == (Phase::<P, R, G>::Retaining {
            respond_to,
            sealed: false,
        }) && !t.fresh_publication_aborted,
        !(s.created_fresh && s.fresh_claim) ==> t.phase is Receiving && out.last() == (
        Effect::<P, R>::Refuse { to: respond_to, why: Refusal::NotProvisional })
            && !t.fresh_publication_aborted,
{
}

/// Once the threads of an aborted session are gone it is deleted, with nothing
/// left to be written or sent; a sealed one only if it is still provisional.
pub proof fn joined_session_is_deleted<P, R, G>(
    s: SessionPersistence<P, R, G>,
    committed: bool,
    t: SessionPersistence<P, R, G>,
    out: Seq<Effect<P, R>>,
)
    requires
        s.wf(),
        s.phase is Joining,
        transition(s, Event::ThreadsExited { committed }, t, out),
    ensures
        s.phase matches Phase::Joining { respond_to, sealed, .. } ==> {
            let provisional = s.created_fresh && s.fresh_claim && !committed;
            &&& !sealed ==> action_in(t.phase) == Action::Perform(StorageOp::DeleteSession) && out.len()
                == 0 && t.pending_notification is None && !t.remote_sync && !t.relay_sync
            &&& sealed ==> (action_in(t.phase) == Action::Perform(StorageOp::DeleteSession)
                <==> provisional)
            &&& sealed && s.created_fresh && s.fresh_claim && committed ==> t.phase == (
            Phase::<P, R, G>::Retaining { respond_to, sealed: true })
            &&& sealed && !(s.created_fresh && s.fresh_claim) ==> t.phase is Stopped && out == seq![
                Effect::<P, R>::Refuse { to: respond_to, why: Refusal::NotProvisional },
            ]
        },
{
}

// The end, and writeback.

/// When nobody can send any more, what is buffered is written and the backends
/// are flushed before the actor stops.
pub proof fn closing_writes_what_is_buffered<P, R, G>(
    s: SessionPersistence<P, R, G>,
    t: SessionPersistence<P, R, G>,
    out: Seq<Effect<P, R>>,
)
    requires
        s.wf(),
        s.phase is Receiving,
        transition(s, Event::Closed, t, out),
    ensures
        match s.pending_notification {
            Some(n) => {
                &&& action_in(t.phase) == Action::Perform(StorageOp::AppendUpdate)
                &&& t.in_flight == Some(SessionUpdate::Acp(n))
                &&& out.len() == 0
            },
            None => {
                &&& t.phase is Stopped
                &&& s.remote_sync || s.relay_sync ==> out == seq![
                    Effect::<P, R>::FlushSync { remote: s.remote_sync, relay: s.relay_sync },
                ]
            },
        },
{
}

/// What was buffered at the end is written last, and then the backends are
/// flushed.
pub proof fn closed_actor_flushes_and_stops<P, R, G>(
    s: SessionPersistence<P, R, G>,
    result: Result<(), AppendUpdateError>,
    t: SessionPersistence<P, R, G>,
    out: Seq<Effect<P, R>>,
)
    requires
        s.wf(),
        s.phase is Closing,
        transition(s, Event::Appended { result }, t, out),
    ensures
        t.phase is Stopped,
        s.remote_sync || s.relay_sync ==> out.last() == (Effect::<P, R>::FlushSync {
            remote: s.remote_sync,
            relay: s.relay_sync,
        }),
{
}

/// Writeback is enabled once: the session is loaded, the backend connected, and
/// a session that this run made is sent to it whole. A session that has a remote
/// backend, cannot be loaded or cannot be connected goes on as it was.
pub proof fn writeback_is_enabled_once<P, R, G>(
    s: SessionPersistence<P, R, G>,
    event: Event<P, R, G>,
    t: SessionPersistence<P, R, G>,
    out: Seq<Effect<P, R>>,
)
    requires
        s.wf(),
        expects(s.phase, event),
        transition(s, event, t, out),
    ensures
        event matches Event::Message {
            msg: PersistenceMsg::UpgradeToWriteback { auth_manager },
            ..
        } ==> s.phase is Receiving ==> {
            &&& s.remote_sync ==> t.phase is Receiving
            &&& !s.remote_sync && s.pending_notification is None ==> t.phase == (
            Phase::<P, R, G>::Loading { auth_manager })
        },
        s.phase matches Phase::Loading { auth_manager } ==> {
            &&& out.len() == 0
            &&& event matches Event::Loaded { result: Ok(updates) } ==> t.phase == (
            Phase::<P, R, G>::Connecting { auth_manager, updates })
            &&& event matches Event::Loaded { result: Err(_) } ==> t.phase is Receiving
                && t.remote_sync == s.remote_sync
        },
        s.phase matches Phase::Connecting { updates, .. } ==> {
            &&& t.phase is Receiving
            &&& event matches Event::Connected { result: Ok(true) } ==> t.remote_sync && (
            s.created_fresh ==> out.len() == 1 && (out[0] matches Effect::Backfill { notifications }
                && notifications@ == acp_notifications(updates@))) && (!s.created_fresh ==> out.len()
                == 0)
            &&& !(event matches Event::Connected { result: Ok(true) }) ==> t.remote_sync
                == s.remote_sync && out.len() == 0
        },
{
}

/// What a new backend is sent holds the protocol notifications of the history,
/// each once, in order, and nothing else.
pub proof fn backfill_has_every_notification<P>(updates: Seq<SessionUpdate<P>>, i: int)
    requires
        0 <= i < updates.len(),
    ensures
        acp_notifications(updates).len() <= updates.len(),
        updates[i] matches SessionUpdate::Acp(n) ==> {
            let at = acp_notifications(updates.take(i)).len() as int;
            &&& at < acp_notifications(updates).len()
            &&& acp_notifications(updates)[at] == n
            &&& acp_notifications(updates.take(i + 1)).len() == at + 1
        },
        updates[i] is Xai ==> acp_notifications(updates.take(i + 1)).len() == acp_notifications(
            updates.take(i),
        ).len(),
    decreases updates.len(),
{
    let init = updates.drop_last();
    assert(updates.take(i + 1).drop_last() =~= updates.take(i));
    if i < init.len() {
        backfill_has_every_notification(init, i);
        assert(init.take(i) =~= updates.take(i));
        assert(init.take(i + 1) =~= updates.take(i + 1));
    } else {
        assert(init =~= updates.take(i));
        assert(updates.take(i + 1) =~= updates);
        backfill_is_no_longer(init);
    }
}

proof fn backfill_is_no_longer<P>(updates: Seq<SessionUpdate<P>>)
    ensures
        acp_notifications(updates).len() <= updates.len(),
    decreases updates.len(),
{
    if updates.len() > 0 {
        backfill_is_no_longer(updates.drop_last());
    }
}

/// Whether an actor is still the same one: who made the session, whether a client
/// listens, where titles go, and what the platform reports full disks with. A
/// lease is not lost, and a claim not taken again.
pub open spec fn same_actor<P, R, G>(
    s: SessionPersistence<P, R, G>,
    t: SessionPersistence<P, R, G>,
) -> bool {
    &&& t.created_fresh == s.created_fresh
    &&& t.gateway == s.gateway
    &&& t.registry_titles == s.registry_titles
    &&& t.codes == s.codes
    &&& s.published_lease ==> t.published_lease
    &&& t.fresh_claim ==> s.fresh_claim
}

proof fn served_actor_stays<P, R, G>(
    s: SessionPersistence<P, R, G>,
    msg: PersistenceMsg<P, R, G>,
    result: Result<(), AppendUpdateError>,
    committed: bool,
)
    ensures
        same_actor(s, drained(s, msg, result).0),
        same_actor(s, served(s, msg, committed).0),
{
    assert(same_actor(s, draining(s, msg).0));
}

/// What an actor is does not change while it runs.
pub proof fn actor_stays_who_it_is<P, R, G>(
    s: SessionPersistence<P, R, G>,
    event: Event<P, R, G>,
    t: SessionPersistence<P, R, G>,
    out: Seq<Effect<P, R>>,
)
    requires
        s.wf(),
        expects(s.phase, event),
        transition(s, event, t, out),
    ensures
        same_actor(s, t),
{
    match event {
        Event::Message { msg, now_ms, committed } => {
            let s1 = SessionPersistence { last_worktree_touch_ms: now_ms, ..s };
            served_actor_stays(s, msg, Ok(()), committed);
            served_actor_stays(s1, msg, Ok(()), committed);
        },
        Event::Appended { result } => {
            let restore = s.phase is Draining || s.phase is Closing;
            let (s1, _) = appended(s, s.in_flight->0, result, restore);
            assert(same_actor(s, s1));
            if let Phase::Draining(msg) = s.phase {
                served_actor_stays(s1, msg, result, false);
            }
        },
        _ => {},
    }
}

} // verus!
