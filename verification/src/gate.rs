//! The one-shot barrier between a provisional session and the outside.
//!
//! A provisional session may exist locally before its creation is sealed, but
//! nothing of it may show outside until the barrier is published; an aborted one
//! never opens.

use vstd::prelude::*;

verus! {

#[derive(Debug, Clone, Copy, PartialEq, Eq, Structural)]
pub enum PublicationState {
    Pending,
    Published,
    Aborted,
}

/// A publication gate and the count of session threads that may still touch
/// provisional storage.
#[derive(Debug)]
pub struct SessionPublicationGate {
    pub state: PublicationState,
    pub session_threads: usize,
}

/// What waiting for an abort amounts to.
#[derive(Debug, Clone, Copy, PartialEq, Eq, Structural)]
pub enum AbortWait {
    /// The barrier is aborted.
    Aborted,
    /// The barrier is published; the wait never ends.
    Never,
    /// The barrier is pending.
    Undecided,
}

impl SessionPublicationGate {
    pub fn pending() -> (r: Self)
        ensures
            r.state == PublicationState::Pending,
            r.session_threads == 0,
    {
        SessionPublicationGate { state: PublicationState::Pending, session_threads: 0 }
    }

    pub fn published() -> (r: Self)
        ensures
            r.state == PublicationState::Published,
            r.session_threads == 0,
    {
        SessionPublicationGate { state: PublicationState::Published, session_threads: 0 }
    }

    pub fn is_published(&self) -> (r: bool)
        ensures
            r == (self.state == PublicationState::Published),
    {
        self.state == PublicationState::Published
    }

    /// Opens a pending gate; a decided one stays as it is.
    pub fn publish(&mut self)
        ensures
            final(self).state == decided(old(self).state, GateCall::Publish),
            final(self).session_threads == old(self).session_threads,
    {
        if self.state == PublicationState::Pending {
            self.state = PublicationState::Published;
        }
    }

    /// Rejects a pending gate; a decided one stays as it is.
    pub fn abort(&mut self)
        ensures
            final(self).state == decided(old(self).state, GateCall::Abort),
            final(self).session_threads == old(self).session_threads,
    {
        if self.state == PublicationState::Pending {
            self.state = PublicationState::Aborted;
        }
    }

    /// Registers a thread that may touch provisional storage until it exits.
    pub fn register_session_thread(&mut self)
        requires
            old(self).session_threads < usize::MAX,
        ensures
            final(self).session_threads == old(self).session_threads + 1,
            final(self).state == old(self).state,
    {
        self.session_threads = self.session_threads + 1;
    }

    /// Takes a registered thread off the count when it exits.
    pub fn release_session_thread(&mut self)
        ensures
            final(self).session_threads == if old(self).session_threads > 0 {
                old(self).session_threads - 1
            } else {
                0
            },
            final(self).state == old(self).state,
    {
        self.session_threads = self.session_threads.saturating_sub(1);
    }

    /// Whether no session thread can touch provisional storage any more.
    pub fn session_threads_exited(&self) -> (r: bool)
        ensures
            r == (self.session_threads == 0),
    {
        self.session_threads == 0
    }

    /// Whether the session may show outside; none while undecided.
    pub fn published_decision(&self) -> (r: Option<bool>)
        ensures
            r == (match self.state {
                PublicationState::Published => Some(true),
                PublicationState::Aborted => Some(false),
                PublicationState::Pending => None,
            }),
    {
        match self.state {
            PublicationState::Published => Some(true),
            PublicationState::Aborted => Some(false),
            PublicationState::Pending => None,
        }
    }

    /// What waiting for an abort amounts to now.
    pub fn abort_wait(&self) -> (r: AbortWait)
        ensures
            r == (match self.state {
                PublicationState::Aborted => AbortWait::Aborted,
                PublicationState::Published => AbortWait::Never,
                PublicationState::Pending => AbortWait::Undecided,
            }),
    {
        match self.state {
            PublicationState::Aborted => AbortWait::Aborted,
            PublicationState::Published => AbortWait::Never,
            PublicationState::Pending => AbortWait::Undecided,
        }
    }
}

/// One attempt to decide a gate.
#[derive(Debug, Clone, Copy, PartialEq, Eq, Structural)]
pub enum GateCall {
    Publish,
    Abort,
}

/// The state of a gate after one attempt to decide it.
pub open spec fn decided(state: PublicationState, call: GateCall) -> PublicationState {
    if state != PublicationState::Pending {
        state
    } else {
        match call {
            GateCall::Publish => PublicationState::Published,
            GateCall::Abort => PublicationState::Aborted,
        }
    }
}

/// The state of a gate after attempts in this order.
pub open spec fn decided_by(state: PublicationState, calls: Seq<GateCall>) -> PublicationState
    decreases calls.len(),
{
    if calls.len() == 0 {
        state
    } else {
        decided(decided_by(state, calls.drop_last()), calls.last())
    }
}

/// A decided gate cannot be reversed: no attempts change it.
pub proof fn terminal_states_are_final(state: PublicationState, calls: Seq<GateCall>)
    requires
        state != PublicationState::Pending,
    ensures
        decided_by(state, calls) == state,
    decreases calls.len(),
{
    if calls.len() > 0 {
        terminal_states_are_final(state, calls.drop_last());
    }
}

/// Of attempts in any order the first one wins.
pub proof fn first_attempt_wins(calls: Seq<GateCall>)
    requires
        calls.len() > 0,
    ensures
        decided_by(PublicationState::Pending, calls) == decided(
            PublicationState::Pending,
            calls[0],
        ),
    decreases calls.len(),
{
    if calls.len() > 1 {
        first_attempt_wins(calls.drop_last());
    } else {
        assert(calls.drop_last() =~= Seq::<GateCall>::empty());
        assert(decided_by(PublicationState::Pending, calls.drop_last())
            == PublicationState::Pending);
    }
}

} // verus!
