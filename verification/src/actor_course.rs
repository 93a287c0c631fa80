//! The course that the persistence actor takes: what it turns to next, and when
//! it ends.

use vstd::prelude::*;

use crate::actor::{
    appended, drained, draining, expects, served, transition, AppendUpdateError, Effect, Event,
    Phase, SessionPersistence,
};
use crate::message::PersistenceMsg;
use crate::notification::{SessionNotification, SessionUpdate};

verus! {

/// Whether a phase is neither the end nor one that only other phases lead to.
pub open spec fn in_the_middle<P, R, G>(phase: Phase<P, R, G>) -> bool {
    !(phase is Stopped) && !(phase is Copying) && !(phase is AwaitingGate)
}

proof fn served_is_in_the_middle<P, R, G>(
    s: SessionPersistence<P, R, G>,
    msg: PersistenceMsg<P, R, G>,
    result: Result<(), AppendUpdateError>,
    committed: bool,
)
    requires
        s.pending_publication_gate is None,
    ensures
        in_the_middle(drained(s, msg, result).0.phase),
        in_the_middle(served(s, msg, committed).0.phase),
{
    assert(in_the_middle(draining(s, msg).0.phase));
}

proof fn message_or_line_leads_to_the_middle<P, R, G>(
    s: SessionPersistence<P, R, G>,
    event: Event<P, R, G>,
    t: SessionPersistence<P, R, G>,
    out: Seq<Effect<P, R>>,
)
    requires
        s.wf(),
        expects(s.phase, event),
        transition(s, event, t, out),
        event is Message || event is Appended,
    ensures
        in_the_middle(t.phase) || s.phase is Closing,
{
    match event {
        Event::Message { msg, now_ms, committed } => {
            let s1 = SessionPersistence { last_worktree_touch_ms: now_ms, ..s };
            served_is_in_the_middle(s, msg, Ok(()), committed);
            served_is_in_the_middle(s1, msg, Ok(()), committed);
        },
        Event::Appended { result } => {
            let restore = s.phase is Draining || s.phase is Closing;
            let (s1, _) = appended(s, s.in_flight->0, result, restore);
            if let Phase::Draining(msg) = s.phase {
                served_is_in_the_middle(s1, msg, result, false);
            }
        },
        _ => {},
    }
}

/// The actor stops in no other way than these: nobody can send any more and what
/// was buffered is dealt with; a session that was given up is deleted, or turned
/// out not to be given up; or a publication that was let through is not there.
pub proof fn actor_stops_only_at_the_end<P, R, G>(
    s: SessionPersistence<P, R, G>,
    event: Event<P, R, G>,
    t: SessionPersistence<P, R, G>,
    out: Seq<Effect<P, R>>,
)
    requires
        s.wf(),
        expects(s.phase, event),
        transition(s, event, t, out),
        t.phase is Stopped,
    ensures
        ({
            ||| event is Closed
            ||| s.phase is Closing
            ||| s.phase is Deleting
            ||| (s.phase matches Phase::Retaining { sealed, .. } && sealed)
            ||| (s.phase matches Phase::Joining { sealed, .. } && sealed)
            ||| (event matches Event::Gate { published, committed } && published && !committed
                && s.fresh_claim)
        }),
{
    if event is Message || event is Appended {
        message_or_line_leads_to_the_middle(s, event, t, out);
    }
}

/// Once a message is dealt with the actor is ready for the next: when its line
/// is written, when its storage operation, its title, its switch or its payload
/// is there, and when writeback is set up or could not be.
pub proof fn actor_is_ready_again<P, R, G>(
    s: SessionPersistence<P, R, G>,
    event: Event<P, R, G>,
    t: SessionPersistence<P, R, G>,
    out: Seq<Effect<P, R>>,
)
    requires
        s.wf(),
        expects(s.phase, event),
        transition(s, event, t, out),
    ensures
        s.phase is Writing || s.phase is WritingDurably ==> t.phase is Receiving,
        s.phase is Serving || s.phase is Copying || s.phase is Connecting ==> t.phase is Receiving,
        s.phase is Downgrading ==> t.phase is Receiving,
        (s.phase matches Phase::Retaining { sealed, .. } && !sealed) ==> t.phase is Receiving,
        event matches Event::Loaded { result: Err(_) } ==> t.phase is Receiving,
{
}

/// Whether the buffer is written out before a message is dealt with.
pub open spec fn waits_for_the_buffer<P, R, G>(
    s: SessionPersistence<P, R, G>,
    msg: PersistenceMsg<P, R, G>,
) -> bool {
    ||| msg is Flush || msg is FlushAndAck || msg is CopyFile || msg is AppendUpdateDurablyAndAck
    ||| msg is UpgradeToWriteback && !s.remote_sync
    ||| msg is PublishFresh && s.created_fresh && s.fresh_claim && !s.fresh_publication_aborted
}

proof fn waiting_message_drains<P, R, G>(
    s: SessionPersistence<P, R, G>,
    msg: PersistenceMsg<P, R, G>,
    committed: bool,
)
    requires
        s.pending_publication_gate is None,
        waits_for_the_buffer(s, msg),
    ensures
        served(s, msg, committed) == draining(s, msg),
{
}

/// A message that has to come after what was said before waits for it: what is
/// buffered is written first, and nothing else happens meanwhile.
pub proof fn buffer_goes_first<P, R, G>(
    s: SessionPersistence<P, R, G>,
    msg: PersistenceMsg<P, R, G>,
    now_ms: u64,
    committed: bool,
    t: SessionPersistence<P, R, G>,
    out: Seq<Effect<P, R>>,
    n: SessionNotification<P>,
)
    requires
        s.wf(),
        s.phase is Receiving,
        s.pending_notification == Some(n),
        waits_for_the_buffer(s, msg),
        transition(s, Event::Message { msg, now_ms, committed }, t, out),
    ensures
        t.phase == Phase::<P, R, G>::Draining(msg),
        t.in_flight == Some(SessionUpdate::Acp(n)),
        t.pending_notification is None,
        forall|i: int| 0 <= i < out.len() ==> (#[trigger] out[i]) is TouchWorktree,
{
    let s1 = SessionPersistence { last_worktree_touch_ms: now_ms, ..s };
    waiting_message_drains(s, msg, committed);
    waiting_message_drains(s1, msg, committed);
}

/// Where a message goes on once the buffer is written, or was empty.
pub open spec fn goes_on<P, R, G>(
    msg: PersistenceMsg<P, R, G>,
    written: bool,
    t: SessionPersistence<P, R, G>,
) -> bool {
    match msg {
        PersistenceMsg::Flush => t.phase is Receiving,
        PersistenceMsg::FlushAndAck { .. } => t.phase is Receiving,
        PersistenceMsg::CopyFile { .. } => t.phase == Phase::<P, R, G>::Syncing(msg),
        PersistenceMsg::UpgradeToWriteback { auth_manager } => t.phase == (
        Phase::<P, R, G>::Loading { auth_manager }),
        PersistenceMsg::PublishFresh { .. } => if written {
            t.phase == Phase::<P, R, G>::Syncing(msg)
        } else {
            t.phase is Receiving
        },
        PersistenceMsg::AppendUpdateDurablyAndAck { update, respond_to } => if written {
            t.phase == (Phase::<P, R, G>::WritingDurably { respond_to }) && t.in_flight == Some(
                update,
            )
        } else {
            t.phase is Receiving
        },
        _ => true,
    }
}

/// A message that waited for the buffer goes on when it is written; with nothing
/// buffered it goes on at once. One that needs the lines before it to be there,
/// a publication or a durable line, does not go on where they could not be
/// written.
pub proof fn message_goes_on_after_the_buffer<P, R, G>(
    s: SessionPersistence<P, R, G>,
    event: Event<P, R, G>,
    t: SessionPersistence<P, R, G>,
    out: Seq<Effect<P, R>>,
)
    requires
        s.wf(),
        expects(s.phase, event),
        transition(s, event, t, out),
    ensures
        s.phase matches Phase::Draining(msg) ==> goes_on(
            msg,
            event->Appended_result is Ok,
            t,
        ),
        event matches Event::Message { msg, .. } ==> (s.phase is Receiving
            && s.pending_notification is None && waits_for_the_buffer(s, msg) ==> goes_on(
            msg,
            true,
            t,
        )),
{
    if s.phase is Draining {
        let msg = s.phase->Draining_0;
        let update = s.in_flight->0;
        let result = event->Appended_result;
        let (s1, then) = appended(s, update, result, true);
        assert(t == drained(s1, msg, result).0);
    }
}

/// What is flushed goes on to the backends that there are: after a flush, before
/// files are copied, before a session is published and before another backend is
/// set up.
pub proof fn flushing_reaches_the_backends<P, R, G>(
    s: SessionPersistence<P, R, G>,
    result: Result<(), AppendUpdateError>,
    t: SessionPersistence<P, R, G>,
    out: Seq<Effect<P, R>>,
)
    requires
        s.wf(),
        s.phase matches Phase::Draining(msg) && !(msg is AppendUpdateDurablyAndAck),
        transition(s, Event::Appended { result }, t, out),
        s.remote_sync || s.relay_sync,
    ensures
        out.contains(Effect::<P, R>::FlushSync { remote: s.remote_sync, relay: s.relay_sync }),
{
    let msg = s.phase->Draining_0;
    let update = s.in_flight->0;
    let (s1, then) = appended(s, update, result, true);
    let last = drained(s1, msg, result).1;
    assert(out == then + last);
    assert(last[0] == (Effect::<P, R>::FlushSync { remote: s.remote_sync, relay: s.relay_sync }));
    assert(out[then.len() as int] == last[0]);
}

/// The same holds where nothing was buffered.
pub proof fn flushing_at_once_reaches_the_backends<P, R, G>(
    s: SessionPersistence<P, R, G>,
    msg: PersistenceMsg<P, R, G>,
    now_ms: u64,
    committed: bool,
    t: SessionPersistence<P, R, G>,
    out: Seq<Effect<P, R>>,
)
    requires
        s.wf(),
        s.phase is Receiving,
        s.pending_notification is None,
        waits_for_the_buffer(s, msg),
        !(msg is AppendUpdateDurablyAndAck),
        transition(s, Event::Message { msg, now_ms, committed }, t, out),
        s.remote_sync || s.relay_sync,
    ensures
        out.contains(Effect::<P, R>::FlushSync { remote: s.remote_sync, relay: s.relay_sync }),
{
    let sync = Effect::<P, R>::FlushSync { remote: s.remote_sync, relay: s.relay_sync };
    let s1 = SessionPersistence { last_worktree_touch_ms: now_ms, ..s };
    waiting_message_drains(s, msg, committed);
    waiting_message_drains(s1, msg, committed);
    if out[0] == sync {
    } else {
        assert(out[1] == sync);
    }
}

/// Files are copied once they are synced, for whoever asked; a publication is
/// armed once they are, and only then.
pub proof fn files_are_synced_first<P, R, G>(
    s: SessionPersistence<P, R, G>,
    event: Event<P, R, G>,
    t: SessionPersistence<P, R, G>,
    out: Seq<Effect<P, R>>,
)
    requires
        s.wf(),
        expects(s.phase, event),
        transition(s, event, t, out),
    ensures
        t.phase matches Phase::Copying { one_shot } ==> s.phase == Phase::<P, R, G>::Syncing(
            PersistenceMsg::CopyFile { one_shot },
        ),
        s.phase matches Phase::Syncing(PersistenceMsg::CopyFile { one_shot }) ==> t.phase == (
        Phase::<P, R, G>::Copying { one_shot }) && out.len() == 0,
        t.phase matches Phase::AwaitingGate(gate) ==> {
            &&& s.phase matches Phase::Syncing(PersistenceMsg::PublishFresh {
                publication_gate,
                ..
            }) && publication_gate == gate
            &&& event matches Event::Done { result: Ok(_) }
        },
        s.phase matches Phase::Syncing(PersistenceMsg::PublishFresh { publication_gate, .. }) ==> {
            &&& event matches Event::Done { result: Ok(_) } ==> t.phase == Phase::<
                P,
                R,
                G,
            >::AwaitingGate(publication_gate)
            &&& event matches Event::Done { result: Err(_) } ==> t.phase is Receiving
        },
{
    if event is Message || event is Appended {
        message_or_line_leads_to_the_middle(s, event, t, out);
    }
}

/// The backends that the actor writes to change in two ways only: a remote one is
/// set up, and none is left of a session that is given up. The claim and the
/// lease change only where the one becomes the other, and the claim where a
/// publication is not there.
pub proof fn actor_keeps_what_it_has<P, R, G>(
    s: SessionPersistence<P, R, G>,
    event: Event<P, R, G>,
    t: SessionPersistence<P, R, G>,
    out: Seq<Effect<P, R>>,
)
    requires
        s.wf(),
        expects(s.phase, event),
        transition(s, event, t, out),
        !(event is Message),
    ensures
        t.remote_sync && !s.remote_sync ==> event is Connected,
        s.remote_sync && !t.remote_sync || s.relay_sync && !t.relay_sync ==> event is Gate
            || event is ThreadsExited,
        t.relay_sync ==> s.relay_sync,
        t.fresh_claim != s.fresh_claim ==> event is Lease || event is Gate,
        t.published_lease != s.published_lease ==> event is Lease,
        t.fresh_publication_aborted != s.fresh_publication_aborted ==> event is Gate,
        t.last_worktree_touch_ms == s.last_worktree_touch_ms,
        t.disk != s.disk ==> event is Appended || event is Done,
        t.pending_notification is Some && s.pending_notification is None ==> event is Appended,
{
}

/// An actor whose publication was aborted takes in one kind of message only: the
/// request to clean up, for which it waits until the session's threads are gone.
pub proof fn sealed_actor_cleans_up_on_request<P, R, G>(
    s: SessionPersistence<P, R, G>,
    msg: PersistenceMsg<P, R, G>,
    now_ms: u64,
    committed: bool,
    t: SessionPersistence<P, R, G>,
    out: Seq<Effect<P, R>>,
)
    requires
        s.wf(),
        s.phase is Sealed,
        transition(s, Event::Message { msg, now_ms, committed }, t, out),
    ensures
        out.len() == 0,
        match msg {
            PersistenceMsg::AbortFreshAndDelete { publication_gate, respond_to } => t.phase == (
            Phase::<P, R, G>::Joining { gate: publication_gate, respond_to, sealed: true }),
            _ => t == s,
        },
{
}

/// A sealed actor that nobody can send to any more stops, and tells no backend.
pub proof fn sealed_actor_ends_in_silence<P, R, G>(
    s: SessionPersistence<P, R, G>,
    t: SessionPersistence<P, R, G>,
    out: Seq<Effect<P, R>>,
)
    requires
        s.wf(),
        s.phase is Sealed,
        transition(s, Event::Closed, t, out),
    ensures
        t.phase is Stopped,
        out.len() == 0,
{
}

} // verus!
