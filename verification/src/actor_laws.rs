//! What holds of the persistence actor over any of its turns.

use vstd::prelude::*;

use crate::actor::{
    action_in, appended, append_committed, append_turn, done_turn, drained, draining, expects,
    drains, latch_effects, message_turn, pushed_out, served, transition, winding_down, Action,
    AppendUpdateError, Effect, Event, Phase, SessionPersistence,
};
use crate::message::{PersistenceMsg, StorageOp};
use crate::notification::{
    empty_chunk, mergeable, merged_into, SessionNotification, SessionUpdate,
};

verus! {

/// Abort is final: an aborted publication stays aborted, whatever arrives, and
/// never waits on a gate again.
pub proof fn abort_is_final<P, R, G>(
    s: SessionPersistence<P, R, G>,
    event: Event<P, R, G>,
    t: SessionPersistence<P, R, G>,
    out: Seq<Effect<P, R>>,
)
    requires
        s.wf(),
        s.fresh_publication_aborted,
        expects(s.phase, event),
        transition(s, event, t, out),
    ensures
        t.fresh_publication_aborted,
        winding_down(t.phase),
        !(t.phase is AwaitingGate),
{
    crate::actor::transition_keeps_wf(s, event, t, out);
    assert(winding_down(s.phase));
}

/// After an abort storage is touched no more, but to delete the session.
pub proof fn aborted_actor_only_deletes<P, R, G>(s: SessionPersistence<P, R, G>, op: StorageOp)
    requires
        s.wf(),
        s.fresh_publication_aborted,
        action_in(s.phase) == Action::Perform(op),
    ensures
        op == StorageOp::DeleteSession,
{
}

/// Only a session that this run created, whose claim is still held, is ever
/// deleted.
pub proof fn only_claimed_fresh_sessions_are_deleted<P, R, G>(s: SessionPersistence<P, R, G>)
    requires
        s.wf(),
        action_in(s.phase) == Action::Perform(StorageOp::DeleteSession),
    ensures
        s.created_fresh,
        s.fresh_claim,
        s.fresh_publication_aborted,
{
    match s.phase {
        Phase::Serving(msg) => {
            assert(crate::message::single_op(msg) != Some(StorageOp::DeleteSession));
        },
        _ => {},
    }
}

/// While the actor is sealed, a queued message that is not the cleanup request
/// leaves no trace.
pub proof fn sealed_actor_discards<P, R, G>(
    s: SessionPersistence<P, R, G>,
    msg: PersistenceMsg<P, R, G>,
    now_ms: u64,
    committed: bool,
    t: SessionPersistence<P, R, G>,
    out: Seq<Effect<P, R>>,
)
    requires
        s.phase is Sealed,
        !(msg is AbortFreshAndDelete),
        transition(s, Event::Message { msg, now_ms, committed }, t, out),
    ensures
        t == s,
        out.len() == 0,
{
}

/// Once a gate is armed the actor is quiescent: nothing is buffered or in
/// flight, and only its decision is taken in.
pub proof fn armed_actor_is_quiescent<P, R, G>(
    s: SessionPersistence<P, R, G>,
    event: Event<P, R, G>,
)
    requires
        s.wf(),
        s.phase is AwaitingGate,
        expects(s.phase, event),
    ensures
        event is Gate,
        s.pending_notification is None,
        s.in_flight is None,
{
}

/// A durable append comes behind everything that was buffered before it.
pub proof fn durable_append_follows_buffer<P, R, G>(s: SessionPersistence<P, R, G>)
    requires
        s.wf(),
        action_in(s.phase) == Action::Perform(StorageOp::AppendUpdateDurable),
    ensures
        s.pending_notification is None,
        s.in_flight is Some,
{
    match s.phase {
        Phase::Serving(msg) => {
            assert(crate::message::single_op(msg) != Some(StorageOp::AppendUpdateDurable));
        },
        _ => {},
    }
}

/// A drained notification that did not reach the log is buffered again.
pub proof fn failed_drain_restores_buffer<P, R, G>(
    s: SessionPersistence<P, R, G>,
    result: Result<(), AppendUpdateError>,
    t: SessionPersistence<P, R, G>,
    out: Seq<Effect<P, R>>,
)
    requires
        s.wf(),
        s.phase is Draining || s.phase is Closing,
        !append_committed(result),
        transition(s, Event::Appended { result }, t, out),
    ensures
        t.pending_notification matches Some(n) && s.in_flight == Some(SessionUpdate::Acp(n)),
{
    let update = s.in_flight->0;
    let s1 = appended(s, update, result, true).0;
    match s.phase {
        Phase::Draining(msg) => {
            assert(drained(s1, msg, result).0.pending_notification == s1.pending_notification);
        },
        _ => {},
    }
}

/// The protocol notifications that were taken in and are not in the log yet, in
/// the order in which they came.
pub open spec fn unwritten<P, R, G>(s: SessionPersistence<P, R, G>) -> Seq<SessionNotification<P>> {
    let writing = match (s.phase, s.in_flight) {
        (Phase::WritingDurably { .. }, _) => Seq::empty(),
        (_, Some(SessionUpdate::Acp(n))) => seq![n],
        _ => Seq::empty(),
    };
    match s.pending_notification {
        Some(n) => writing.push(n),
        None => writing,
    }
}

/// What the arrival of `n` makes of the unwritten notifications: an empty chunk
/// is passed over, text that continues the last one is appended to it, and
/// anything else comes behind.
pub open spec fn takes_in<P>(
    before: Seq<SessionNotification<P>>,
    n: SessionNotification<P>,
    after: Seq<SessionNotification<P>>,
) -> bool {
    if empty_chunk(n.update) {
        after == before
    } else if before.len() > 0 && mergeable(before.last().update, n.update) {
        &&& after.len() == before.len()
        &&& after.drop_last() == before.drop_last()
        &&& merged_into(before.last(), n, after.last())
    } else {
        after == before.push(n)
    }
}

/// The unwritten notifications once the append in flight ended: the first of
/// them is done with when it is in the log, or when it was pushed out of the
/// buffer and could not be written; drained ones are kept for another try.
pub open spec fn after_append<P, R, G>(
    s: SessionPersistence<P, R, G>,
    result: Result<(), AppendUpdateError>,
) -> Seq<SessionNotification<P>> {
    if s.phase is WritingDurably || !(s.in_flight matches Some(SessionUpdate::Acp(_))) {
        unwritten(s)
    } else if append_committed(result) || s.phase is Writing {
        unwritten(s).skip(1)
    } else {
        unwritten(s)
    }
}

proof fn arrival_is_taken_in<P, R, G>(
    s: SessionPersistence<P, R, G>,
    n: SessionNotification<P>,
    now_ms: u64,
    committed: bool,
    t: SessionPersistence<P, R, G>,
    out: Seq<Effect<P, R>>,
)
    requires
        s.in_flight is None,
        s.pending_publication_gate is None,
        message_turn(
            s,
            PersistenceMsg::Update(SessionUpdate::Acp(n)),
            now_ms,
            committed,
            t,
            out,
        ),
    ensures
        takes_in(unwritten(s), n, unwritten(t)),
{
    match s.pending_notification {
        Some(first) => {
            assert(unwritten(s) =~= seq![first]);
            assert(unwritten(s).drop_last() =~= Seq::empty());
            if pushed_out(s.pending_notification, n) is Some {
                assert(unwritten(t) =~= seq![first].push(n));
            } else {
                assert(unwritten(t) =~= seq![t.pending_notification->0]);
                assert(unwritten(t).drop_last() =~= Seq::empty());
            }
        },
        None => {
            assert(unwritten(s) =~= Seq::empty());
            if !empty_chunk(n.update) {
                assert(unwritten(t) =~= seq![n]);
            } else {
                assert(unwritten(t) =~= Seq::empty());
            }
        },
    }
}

proof fn drained_keeps_unwritten<P, R, G>(
    s: SessionPersistence<P, R, G>,
    msg: PersistenceMsg<P, R, G>,
    result: Result<(), AppendUpdateError>,
)
    requires
        s.in_flight is None,
        s.pending_publication_gate is None,
    ensures
        unwritten(drained(s, msg, result).0) == unwritten(s),
{
    assert(unwritten(drained(s, msg, result).0) =~= unwritten(s));
}

proof fn served_keeps_unwritten<P, R, G>(
    s: SessionPersistence<P, R, G>,
    msg: PersistenceMsg<P, R, G>,
    committed: bool,
)
    requires
        s.in_flight is None,
        s.pending_publication_gate is None,
        !(msg matches PersistenceMsg::Update(SessionUpdate::Acp(_))),
    ensures
        unwritten(served(s, msg, committed).0) == unwritten(s),
{
    drained_keeps_unwritten(s, msg, Ok(()));
    if drains(msg) {
        match s.pending_notification {
            Some(n) => {
                assert(unwritten(draining(s, msg).0) =~= seq![n]);
                assert(unwritten(s) =~= seq![n]);
            },
            None => {},
        }
    }
    assert(unwritten(served(s, msg, committed).0) =~= unwritten(s));
}

proof fn append_keeps_the_rest<P, R, G>(
    s: SessionPersistence<P, R, G>,
    update: SessionUpdate<P>,
    result: Result<(), AppendUpdateError>,
)
    requires
        s.wf(),
        s.in_flight == Some(update),
    ensures
        unwritten(append_turn(s, update, result).0) == after_append(s, result),
{
    let restore = s.phase is Draining || s.phase is Closing;
    let (s1, _) = appended(s, update, result, restore);
    assert(unwritten(s1) =~= after_append(s, result));
    match s.phase {
        Phase::Draining(msg) => {
            drained_keeps_unwritten(s1, msg, result);
        },
        _ => {
            assert(unwritten(append_turn(s, update, result).0) =~= unwritten(s1));
        },
    }
}

/// Unless a session is given up, its notifications reach the log in the order
/// in which they came: nothing but their arrival and the end of an append
/// changes which of them are unwritten.
pub proof fn notifications_await_the_log<P, R, G>(
    s: SessionPersistence<P, R, G>,
    event: Event<P, R, G>,
    t: SessionPersistence<P, R, G>,
    out: Seq<Effect<P, R>>,
)
    requires
        s.wf(),
        expects(s.phase, event),
        transition(s, event, t, out),
        !t.fresh_publication_aborted,
    ensures
        match event {
            Event::Message { msg: PersistenceMsg::Update(SessionUpdate::Acp(n)), .. } => takes_in(
                unwritten(s),
                n,
                unwritten(t),
            ),
            Event::Appended { result } => unwritten(t) == after_append(s, result),
            _ => unwritten(t) == unwritten(s),
        },
{
    match event {
        Event::Message { msg, now_ms, committed } => {
            match msg {
                PersistenceMsg::Update(SessionUpdate::Acp(n)) => {
                    arrival_is_taken_in(s, n, now_ms, committed, t, out);
                },
                _ => {
                    let s1 = if crate::actor::touch_due(s, now_ms) {
                        SessionPersistence { last_worktree_touch_ms: now_ms, ..s }
                    } else {
                        s
                    };
                    served_keeps_unwritten(s1, msg, committed);
                    assert(unwritten(s1) == unwritten(s));
                },
            }
        },
        Event::Appended { result } => {
            append_keeps_the_rest(s, s.in_flight->0, result);
        },
        _ => {
            assert(unwritten(t) =~= unwritten(s));
        },
    }
}

/// The arrival of a message alone never moves the disk-full latch; draining an
/// empty buffer does not clear it either.
pub proof fn messages_leave_latch<P, R, G>(
    s: SessionPersistence<P, R, G>,
    msg: PersistenceMsg<P, R, G>,
    now_ms: u64,
    committed: bool,
    t: SessionPersistence<P, R, G>,
    out: Seq<Effect<P, R>>,
)
    requires
        s.wf(),
        expects(s.phase, Event::Message { msg, now_ms, committed }),
        transition(s, Event::Message { msg, now_ms, committed }, t, out),
    ensures
        t.disk == s.disk,
{
}

/// Whether a notice of a full disk is among the effects.
pub open spec fn tells_disk_full<P, R>(out: Seq<Effect<P, R>>) -> bool {
    exists|i: int| 0 <= i < out.len() && (#[trigger] out[i]) is DiskFullNotice
}

proof fn quiet_concat<P, R>(a: Seq<Effect<P, R>>, b: Seq<Effect<P, R>>)
    ensures
        tells_disk_full(a + b) == (tells_disk_full(a) || tells_disk_full(b)),
{
    let c = a + b;
    if tells_disk_full(a) {
        let i = choose|i: int| 0 <= i < a.len() && (#[trigger] a[i]) is DiskFullNotice;
        assert(c[i] is DiskFullNotice);
    }
    if tells_disk_full(b) {
        let i = choose|i: int| 0 <= i < b.len() && (#[trigger] b[i]) is DiskFullNotice;
        assert(c[a.len() + i] is DiskFullNotice);
    }
}

proof fn append_notices<P, R, G>(
    s: SessionPersistence<P, R, G>,
    update: SessionUpdate<P>,
    result: Result<(), AppendUpdateError>,
)
    ensures
        ({
            let (t, out) = append_turn(s, update, result);
            &&& s.disk.notified ==> !tells_disk_full(out)
            &&& tells_disk_full(out) ==> t.disk.notified
        }),
{
    let restore = s.phase is Draining || s.phase is Closing;
    let (s1, then) = appended(s, update, result, restore);
    let latch = latch_effects::<P, R>(
        s.disk,
        crate::actor::append_failure(result),
        s.codes,
        s.gateway,
    );
    quiet_concat(latch, crate::actor::queue_effects(s, update));
    assert(!tells_disk_full(crate::actor::queue_effects(s, update)));
    assert(s.disk.notified ==> !tells_disk_full(then));
    assert(tells_disk_full(then) ==> s1.disk.notified);
    match s.phase {
        Phase::WritingDurably { respond_to } => {
            let last = seq![Effect::<P, R>::ReplyAppend { to: respond_to, result }];
            quiet_concat(then, last);
            assert(then.push(Effect::ReplyAppend { to: respond_to, result }) =~= then + last);
        },
        Phase::Draining(msg) => {
            let (s2, last) = drained(s1, msg, result);
            quiet_concat(then, last);
            drained_quiet(s1, msg, result);
        },
        Phase::Closing => {
            quiet_concat(then, crate::actor::flush_effects(s1));
        },
        _ => {},
    }
}

proof fn drained_quiet<P, R, G>(
    s: SessionPersistence<P, R, G>,
    msg: PersistenceMsg<P, R, G>,
    result: Result<(), AppendUpdateError>,
)
    ensures
        !tells_disk_full(drained(s, msg, result).1),
        drained(s, msg, result).0.disk == s.disk,
{
}

proof fn message_quiet<P, R, G>(
    s: SessionPersistence<P, R, G>,
    msg: PersistenceMsg<P, R, G>,
    now_ms: u64,
    committed: bool,
    t: SessionPersistence<P, R, G>,
    out: Seq<Effect<P, R>>,
)
    requires
        message_turn(s, msg, now_ms, committed, t, out),
    ensures
        !tells_disk_full(out),
{
    let s1 = if crate::actor::touch_due(s, now_ms) {
        SessionPersistence { last_worktree_touch_ms: now_ms, ..s }
    } else {
        s
    };
    let first = if crate::actor::touch_due(s, now_ms) {
        seq![Effect::<P, R>::TouchWorktree]
    } else {
        Seq::empty()
    };
    drained_quiet(s1, msg, Ok(()));
    assert(!tells_disk_full(draining(s1, msg).1));
    assert(!tells_disk_full(served(s1, msg, committed).1));
    quiet_concat(first, served(s1, msg, committed).1);
}

proof fn done_notices<P, R, G>(
    s: SessionPersistence<P, R, G>,
    result: Result<(), crate::io_error::IoError>,
)
    ensures
        ({
            let (t, out) = done_turn(s, result);
            &&& s.disk.notified ==> !tells_disk_full(out)
            &&& tells_disk_full(out) ==> t.disk.notified
        }),
{
    match s.phase {
        Phase::Serving(msg) => {
            let latch = latch_effects::<P, R>(
                s.disk,
                crate::actor::io_failure(result),
                s.codes,
                s.gateway,
            );
            let then = crate::actor::done_effects(s, msg, result);
            assert(!tells_disk_full(then));
            quiet_concat(latch, then);
        },
        _ => {},
    }
}

/// The client is told of a full disk once: after a notice no further one goes
/// out until a write has succeeded and cleared the latch.
pub proof fn full_disk_is_told_once<P, R, G>(
    s: SessionPersistence<P, R, G>,
    event: Event<P, R, G>,
    t: SessionPersistence<P, R, G>,
    out: Seq<Effect<P, R>>,
)
    requires
        s.wf(),
        expects(s.phase, event),
        transition(s, event, t, out),
    ensures
        s.disk.notified ==> !tells_disk_full(out),
        tells_disk_full(out) ==> t.disk.notified,
{
    match event {
        Event::Message { msg, now_ms, committed } => {
            if !(s.phase is Sealed) {
                message_quiet(s, msg, now_ms, committed, t, out);
            }
        },
        Event::Appended { result } => {
            append_notices(s, s.in_flight->0, result);
        },
        Event::Done { result } => {
            done_notices(s, result);
        },
        Event::Closed => {
            assert(!tells_disk_full(out));
        },
        Event::Gate { .. } => {
            assert(!tells_disk_full(out));
        },
        Event::Lease { .. } => {
            assert(!tells_disk_full(out));
        },
        Event::ThreadsExited { .. } => {
            assert(!tells_disk_full(out));
        },
        Event::Title { .. } => {
            assert(!tells_disk_full(out));
        },
        Event::ModelSwitch { .. } => {
            assert(!tells_disk_full(out));
        },
        Event::Payload { .. } => {
            assert(!tells_disk_full(out));
        },
        Event::Loaded { .. } => {
            assert(!tells_disk_full(out));
        },
        Event::Connected { .. } => {
            assert(!tells_disk_full(out));
        },
    }
}

} // verus!
