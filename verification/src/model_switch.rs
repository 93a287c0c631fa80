//! Switching the model of a session in one durable step.
//!
//! The intent to switch is written to a journal first; then the chat and the
//! summary are rewritten from it and the journal is removed. A journal that is
//! found later is carried out before anything else. So the switch has happened
//! as soon as the journal is there.

use vstd::prelude::*;
use vstd::string::*;

use crate::actor::ModelSwitchCommitError;
use crate::fork::bookkeeping_generation;
use crate::io_error::{ErrorKind, IoError};
use crate::summary::CHAT_FORMAT_VERSION;
use crate::text::{decimal, decimal_text, owned};

verus! {

/// The only version of the journal there is.
pub const INTENT_VERSION: u8 = 1;

/// What a switch writes to the summary.
#[derive(Debug)]
pub struct SwitchPatch {
    pub chat_messages: usize,
    pub chat_format_version: u8,
    pub cwd_switch_bookkeeping_generation: u64,
    pub model_id: String,
    pub agent_name: Option<String>,
    pub reasoning_effort: Option<String>,
}

/// What a switch writes to the summary, given of each message of the new chat
/// the switch of the working directory that it tells of.
pub fn switch_patch(
    generations: &Vec<Option<u64>>,
    model_id: String,
    agent_name: Option<String>,
    reasoning_effort: Option<String>,
) -> (r: SwitchPatch)
    ensures
        r.chat_messages == generations@.len(),
        r.chat_format_version == CHAT_FORMAT_VERSION,
        forall|i: int|
            0 <= i < generations@.len() ==> ((#[trigger] generations@[i]) matches Some(g) ==> g
                <= r.cwd_switch_bookkeeping_generation),
        r.cwd_switch_bookkeeping_generation == 0 || exists|i: int|
            0 <= i < generations@.len() && #[trigger] generations@[i] == Some(
                r.cwd_switch_bookkeeping_generation,
            ),
        r.model_id == model_id,
        r.agent_name == agent_name,
        r.reasoning_effort == reasoning_effort,
{
    SwitchPatch {
        chat_messages: generations.len(),
        chat_format_version: CHAT_FORMAT_VERSION,
        cwd_switch_bookkeeping_generation: bookkeeping_generation(generations),
        model_id,
        agent_name,
        reasoning_effort,
    }
}

/// Why a switch or a recovery failed.
#[derive(Debug)]
pub enum SwitchFault {
    Io(IoError),
    /// The journal is not the JSON of an intent.
    Malformed(String),
    Version(u8),
}

impl SwitchFault {
    pub open spec fn kind(&self) -> ErrorKind {
        match self {
            SwitchFault::Io(e) => e.kind,
            SwitchFault::Malformed(_) => ErrorKind::InvalidData,
            SwitchFault::Version(_) => ErrorKind::InvalidData,
        }
    }

    pub open spec fn text(&self) -> Seq<char> {
        match self {
            SwitchFault::Io(e) => e.message@,
            SwitchFault::Malformed(text) => text@,
            SwitchFault::Version(version) => "unsupported model-switch intent version "@
                + decimal_text(*version as nat),
        }
    }

    /// Whether `e` is the failure as an I/O error: an I/O failure as it came,
    /// with the code of the system.
    pub open spec fn told_by(&self, e: IoError) -> bool {
        match self {
            SwitchFault::Io(cause) => e == *cause,
            _ => e.says(self.kind(), self.text()),
        }
    }

    /// The failure as an I/O error.
    pub fn into_error(self) -> (r: IoError)
        ensures
            self.told_by(r),
    {
        match self {
            SwitchFault::Io(e) => e,
            SwitchFault::Malformed(text) => IoError::new(ErrorKind::InvalidData, text.as_str()),
            SwitchFault::Version(version) => {
                let mut text = owned("unsupported model-switch intent version ");
                text.append(decimal(version as u64).as_str());
                IoError::new(ErrorKind::InvalidData, text.as_str())
            },
        }
    }
}

/// How a switch ended, by whether the journal was there.
#[derive(Debug)]
pub enum SwitchOutcome {
    Done,
    NotCommitted(SwitchFault),
    Committed(SwitchFault),
}

impl SwitchOutcome {
    /// The outcome as the caller of a switch sees it.
    pub fn into_result(self) -> (r: Result<(), ModelSwitchCommitError>)
        ensures
            match self {
                SwitchOutcome::Done => r is Ok,
                SwitchOutcome::NotCommitted(fault) => r matches Err(
                    ModelSwitchCommitError::NotCommitted(e),
                ) && fault.told_by(e),
                SwitchOutcome::Committed(fault) => r matches Err(
                    ModelSwitchCommitError::Committed(e),
                ) && fault.told_by(e),
            },
    {
        match self {
            SwitchOutcome::Done => Ok(()),
            SwitchOutcome::NotCommitted(fault) => Err(
                ModelSwitchCommitError::NotCommitted(fault.into_error()),
            ),
            SwitchOutcome::Committed(fault) => Err(
                ModelSwitchCommitError::Committed(fault.into_error()),
            ),
        }
    }

    /// The outcome as the caller of a recovery sees it.
    pub fn into_recovery(self) -> (r: Result<(), IoError>)
        ensures
            match self {
                SwitchOutcome::Done => r is Ok,
                SwitchOutcome::NotCommitted(fault) => r matches Err(e) && fault.told_by(e),
                SwitchOutcome::Committed(fault) => r matches Err(e) && fault.told_by(e),
            },
    {
        match self {
            SwitchOutcome::Done => Ok(()),
            SwitchOutcome::NotCommitted(fault) => Err(fault.into_error()),
            SwitchOutcome::Committed(fault) => Err(fault.into_error()),
        }
    }
}

/// What is asked for.
#[derive(Debug, Clone, Copy, PartialEq, Eq, Structural)]
pub enum SwitchAim {
    /// A switch to another model.
    Commit,
    /// To complete a switch that was interrupted.
    Recover,
    /// To complete a switch that was interrupted, and to hold the lock for
    /// another change of the chat or the model.
    LockMutation,
}

/// What the driver does next. `recovering` tells an intent found in the journal
/// from the one that is being switched to.
#[derive(Debug)]
#[allow(inconsistent_fields)]
pub enum SwitchStep {
    /// Open the lock file and lock it.
    Lock,
    /// Read what the journal holds.
    ReadJournal,
    /// Write the chat of the intent, durably.
    WriteChat { recovering: bool },
    /// Patch the summary, durably.
    PatchSummary { recovering: bool },
    RemoveJournal { recovering: bool },
    /// Sync the directory of the journal.
    SyncDirectory { recovering: bool },
    /// Write the intent to the journal, durably.
    WriteIntent,
    /// Look whether the journal is there after all.
    ProbeJournal { fault: SwitchFault },
    Unlock { outcome: SwitchOutcome },
    Finished(SwitchOutcome),
}

/// What the journal holds.
#[derive(Debug)]
pub enum Journal {
    Absent,
    Intent { version: u8 },
    /// Something else, with what the parser says of it.
    Malformed(String),
}

/// What happened.
#[derive(Debug)]
pub enum SwitchEvent {
    Done(Result<(), IoError>),
    JournalRead(Result<Journal, IoError>),
    JournalProbed(bool),
    Unlocked,
}

/// Whether `event` is what the step can lead to.
pub open spec fn switch_fits(step: SwitchStep, event: SwitchEvent) -> bool {
    match step {
        SwitchStep::ReadJournal => event is JournalRead,
        SwitchStep::ProbeJournal { .. } => event is JournalProbed,
        SwitchStep::Unlock { .. } => event is Unlocked,
        SwitchStep::Finished(_) => false,
        _ => event is Done,
    }
}

/// What follows once there is nothing to recover any more: the switch itself,
/// where one was asked for. Whoever is to change the chat keeps the lock.
pub open spec fn recovered(aim: SwitchAim) -> SwitchStep {
    match aim {
        SwitchAim::Commit => SwitchStep::WriteIntent,
        SwitchAim::Recover => SwitchStep::Unlock { outcome: SwitchOutcome::Done },
        SwitchAim::LockMutation => SwitchStep::Finished(SwitchOutcome::Done),
    }
}

/// What follows a failure to carry out an intent: one from the journal was
/// committed by someone before; to this switch nothing has happened yet.
pub open spec fn carrying_failed(recovering: bool, e: IoError) -> SwitchStep {
    SwitchStep::Unlock {
        outcome: if recovering {
            SwitchOutcome::NotCommitted(SwitchFault::Io(e))
        } else {
            SwitchOutcome::Committed(SwitchFault::Io(e))
        },
    }
}

/// What one event makes of a switch.
pub open spec fn switch_after(aim: SwitchAim, step: SwitchStep, event: SwitchEvent) -> SwitchStep {
    match (step, event) {
        (SwitchStep::Lock, SwitchEvent::Done(result)) => match result {
            Ok(_) => SwitchStep::ReadJournal,
            Err(e) => SwitchStep::Finished(SwitchOutcome::NotCommitted(SwitchFault::Io(e))),
        },
        (SwitchStep::ReadJournal, SwitchEvent::JournalRead(result)) => match result {
            Ok(Journal::Absent) => recovered(aim),
            Ok(Journal::Intent { version }) => if version == INTENT_VERSION {
                SwitchStep::WriteChat { recovering: true }
            } else {
                SwitchStep::Unlock {
                    outcome: SwitchOutcome::NotCommitted(SwitchFault::Version(version)),
                }
            },
            Ok(Journal::Malformed(text)) => SwitchStep::Unlock {
                outcome: SwitchOutcome::NotCommitted(SwitchFault::Malformed(text)),
            },
            Err(e) => SwitchStep::Unlock {
                outcome: SwitchOutcome::NotCommitted(SwitchFault::Io(e)),
            },
        },
        (SwitchStep::WriteChat { recovering }, SwitchEvent::Done(result)) => match result {
            Ok(_) => SwitchStep::PatchSummary { recovering },
            Err(e) => carrying_failed(recovering, e),
        },
        (SwitchStep::PatchSummary { recovering }, SwitchEvent::Done(result)) => match result {
            Ok(_) => SwitchStep::RemoveJournal { recovering },
            Err(e) => carrying_failed(recovering, e),
        },
        (SwitchStep::RemoveJournal { recovering }, SwitchEvent::Done(result)) => match result {
            Ok(_) => SwitchStep::SyncDirectory { recovering },
            Err(e) => carrying_failed(recovering, e),
        },
        (SwitchStep::SyncDirectory { recovering }, SwitchEvent::Done(result)) => match result {
            Ok(_) => if recovering {
                recovered(aim)
            } else {
                SwitchStep::Unlock { outcome: SwitchOutcome::Done }
            },
            Err(e) => carrying_failed(recovering, e),
        },
        (SwitchStep::WriteIntent, SwitchEvent::Done(result)) => match result {
            Ok(_) => SwitchStep::WriteChat { recovering: false },
            Err(e) => SwitchStep::ProbeJournal { fault: SwitchFault::Io(e) },
        },
        (SwitchStep::ProbeJournal { fault }, SwitchEvent::JournalProbed(there)) =>
            SwitchStep::Unlock {
            outcome: if there {
                SwitchOutcome::Committed(fault)
            } else {
                SwitchOutcome::NotCommitted(fault)
            },
        },
        (SwitchStep::Unlock { outcome }, SwitchEvent::Unlocked) => SwitchStep::Finished(outcome),
        (step, _) => step,
    }
}

/// A switch, or only a recovery, in progress.
#[derive(Debug)]
pub struct ModelSwitch {
    pub aim: SwitchAim,
    pub step: SwitchStep,
}

fn after_recovery(aim: SwitchAim) -> (r: SwitchStep)
    ensures
        r == recovered(aim),
{
    match aim {
        SwitchAim::Commit => SwitchStep::WriteIntent,
        SwitchAim::Recover => SwitchStep::Unlock { outcome: SwitchOutcome::Done },
        SwitchAim::LockMutation => SwitchStep::Finished(SwitchOutcome::Done),
    }
}

fn after_failure(recovering: bool, e: IoError) -> (r: SwitchStep)
    ensures
        r == carrying_failed(recovering, e),
{
    SwitchStep::Unlock {
        outcome: if recovering {
            SwitchOutcome::NotCommitted(SwitchFault::Io(e))
        } else {
            SwitchOutcome::Committed(SwitchFault::Io(e))
        },
    }
}

impl ModelSwitch {
    /// A switch to another model.
    pub fn commit() -> (r: ModelSwitch)
        ensures
            r.aim == SwitchAim::Commit,
            r.step is Lock,
    {
        ModelSwitch { aim: SwitchAim::Commit, step: SwitchStep::Lock }
    }

    /// A recovery of a switch that was interrupted.
    pub fn recover() -> (r: ModelSwitch)
        ensures
            r.aim == SwitchAim::Recover,
            r.step is Lock,
    {
        ModelSwitch { aim: SwitchAim::Recover, step: SwitchStep::Lock }
    }

    /// A change of the chat or the model that is not a switch: it comes after
    /// the recovery of one, and under the same lock.
    pub fn lock_mutation() -> (r: ModelSwitch)
        ensures
            r.aim == SwitchAim::LockMutation,
            r.step is Lock,
    {
        ModelSwitch { aim: SwitchAim::LockMutation, step: SwitchStep::Lock }
    }

    /// Takes in what happened.
    pub fn step(self, event: SwitchEvent) -> (r: ModelSwitch)
        requires
            switch_fits(self.step, event),
        ensures
            r.aim == self.aim,
            r.step == switch_after(self.aim, self.step, event),
    {
        let aim = self.aim;
        let step = match (self.step, event) {
            (SwitchStep::Lock, SwitchEvent::Done(result)) => match result {
                Ok(_) => SwitchStep::ReadJournal,
                Err(e) => SwitchStep::Finished(SwitchOutcome::NotCommitted(SwitchFault::Io(e))),
            },
            (SwitchStep::ReadJournal, SwitchEvent::JournalRead(result)) => match result {
                Ok(Journal::Absent) => after_recovery(aim),
                Ok(Journal::Intent { version }) => if version == INTENT_VERSION {
                    SwitchStep::WriteChat { recovering: true }
                } else {
                    SwitchStep::Unlock {
                        outcome: SwitchOutcome::NotCommitted(SwitchFault::Version(version)),
                    }
                },
                Ok(Journal::Malformed(text)) => SwitchStep::Unlock {
                    outcome: SwitchOutcome::NotCommitted(SwitchFault::Malformed(text)),
                },
                Err(e) => SwitchStep::Unlock {
                    outcome: SwitchOutcome::NotCommitted(SwitchFault::Io(e)),
                },
            },
            (SwitchStep::WriteChat { recovering }, SwitchEvent::Done(result)) => match result {
                Ok(_) => SwitchStep::PatchSummary { recovering },
                Err(e) => after_failure(recovering, e),
            },
            (SwitchStep::PatchSummary { recovering }, SwitchEvent::Done(result)) => match result {
                Ok(_) => SwitchStep::RemoveJournal { recovering },
                Err(e) => after_failure(recovering, e),
            },
            (SwitchStep::RemoveJournal { recovering }, SwitchEvent::Done(result)) => match result {
                Ok(_) => SwitchStep::SyncDirectory { recovering },
                Err(e) => after_failure(recovering, e),
            },
            (SwitchStep::SyncDirectory { recovering }, SwitchEvent::Done(result)) => match result {
                Ok(_) => if recovering {
                    after_recovery(aim)
                } else {
                    SwitchStep::Unlock { outcome: SwitchOutcome::Done }
                },
                Err(e) => after_failure(recovering, e),
            },
            (SwitchStep::WriteIntent, SwitchEvent::Done(result)) => match result {
                Ok(_) => SwitchStep::WriteChat { recovering: false },
                Err(e) => SwitchStep::ProbeJournal { fault: SwitchFault::Io(e) },
            },
            (SwitchStep::ProbeJournal { fault }, SwitchEvent::JournalProbed(there)) =>
                SwitchStep::Unlock {
                outcome: if there {
                    SwitchOutcome::Committed(fault)
                } else {
                    SwitchOutcome::NotCommitted(fault)
                },
            },
            (SwitchStep::Unlock { outcome }, SwitchEvent::Unlocked) => SwitchStep::Finished(
                outcome,
            ),
            (step, _) => step,
        };
        ModelSwitch { aim, step }
    }
}

/// Whether the intent of this switch is in the journal, or has been.
pub open spec fn intent_written(step: SwitchStep) -> bool {
    match step {
        SwitchStep::WriteChat { recovering } => !recovering,
        SwitchStep::PatchSummary { recovering } => !recovering,
        SwitchStep::RemoveJournal { recovering } => !recovering,
        SwitchStep::SyncDirectory { recovering } => !recovering,
        _ => false,
    }
}

/// A switch is reported as committed exactly where its intent got into the
/// journal: any failure after it was written is a committed one, any failure
/// before is not, and where writing it failed the journal itself decides.
pub proof fn outcome_tells_commitment(aim: SwitchAim, step: SwitchStep, event: SwitchEvent)
    requires
        switch_fits(step, event),
        !(step is Unlock),
    ensures
        ({
            let next = switch_after(aim, step, event);
            &&& next matches SwitchStep::Unlock { outcome } ==> {
                &&& outcome is Committed ==> intent_written(step) || event
                    == SwitchEvent::JournalProbed(true)
                &&& outcome is NotCommitted ==> !intent_written(step) && event
                    != SwitchEvent::JournalProbed(true)
                &&& outcome is Done ==> intent_written(step) || aim == SwitchAim::Recover
            }
            &&& next matches SwitchStep::Finished(outcome) ==> if outcome is Done {
                aim == SwitchAim::LockMutation
            } else {
                step is Lock && outcome is NotCommitted
            }
        }),
{
}

/// An intent found in the journal is carried out before a new one is written.
pub proof fn recovery_comes_first(aim: SwitchAim, step: SwitchStep, event: SwitchEvent)
    requires
        switch_fits(step, event),
        switch_after(aim, step, event) is WriteIntent,
    ensures
        aim == SwitchAim::Commit,
        event == SwitchEvent::JournalRead(Ok(Journal::Absent)) || (step
            == (SwitchStep::SyncDirectory { recovering: true }) && (event matches SwitchEvent::Done(
            Ok(_),
        ))),
{
}

/// Whether a step has nothing to do with an intent of this switch's own.
pub open spec fn makes_no_switch(step: SwitchStep) -> bool {
    !intent_written(step) && !(step is WriteIntent) && !(step is ProbeJournal)
}

/// Whoever is to change the chat holds the lock exactly where recovery went
/// well: the lock is given up with a failure, and with nothing else. No switch
/// is made on that way.
pub proof fn mutation_lock_is_kept(step: SwitchStep, event: SwitchEvent)
    requires
        switch_fits(step, event),
        !(step is Unlock),
        makes_no_switch(step),
    ensures
        ({
            let next = switch_after(SwitchAim::LockMutation, step, event);
            &&& makes_no_switch(next)
            &&& next matches SwitchStep::Unlock { outcome } ==> !(outcome is Done)
            &&& next matches SwitchStep::Finished(outcome) ==> (outcome is Done <==> !(step
                is Lock))
        }),
{
}

// What a switch leaves in storage.

/// What a switch changes to: the chat, and the model of the summary.
#[verifier::ext_equal]
pub struct SwitchGoal<M> {
    pub messages: Seq<M>,
    pub model_id: Seq<char>,
}

/// What a session directory holds of a switch: the chat, the model and the
/// message count of the summary, and the intent in the journal.
#[verifier::ext_equal]
pub struct SwitchDisk<M> {
    pub chat: Seq<M>,
    pub model_id: Seq<char>,
    pub num_chat_messages: nat,
    pub journal: Option<SwitchGoal<M>>,
}

impl<M> SwitchDisk<M> {
    pub open spec fn with_chat(self, goal: SwitchGoal<M>) -> SwitchDisk<M> {
        SwitchDisk { chat: goal.messages, ..self }
    }

    pub open spec fn with_summary(self, goal: SwitchGoal<M>) -> SwitchDisk<M> {
        SwitchDisk {
            model_id: goal.model_id,
            num_chat_messages: goal.messages.len(),
            ..self
        }
    }

    /// The switch has been made, and its journal is gone.
    pub open spec fn settled(self, goal: SwitchGoal<M>) -> bool {
        &&& self.chat == goal.messages
        &&& self.model_id == goal.model_id
        &&& self.num_chat_messages == goal.messages.len()
        &&& self.journal is None
    }

    /// The switch has been made, or the journal holds what it takes.
    pub open spec fn recoverable(self, goal: SwitchGoal<M>) -> bool {
        self.journal == Some(goal) || self.settled(goal)
    }
}

/// The intent that a step carries out: the one in the journal, or the goal of
/// this switch.
pub open spec fn carried<M>(recovering: bool, goal: SwitchGoal<M>, disk: SwitchDisk<M>) -> SwitchGoal<M> {
    if recovering {
        disk.journal->0
    } else {
        goal
    }
}

/// What storage may hold after a step whose work turns `before` into `done`: one
/// that fails may have done it or not.
pub open spec fn left_by<M>(
    event: SwitchEvent,
    before: SwitchDisk<M>,
    done: SwitchDisk<M>,
    after: SwitchDisk<M>,
) -> bool {
    match event {
        SwitchEvent::Done(Ok(_)) => after == done,
        _ => after == before || after == done,
    }
}

/// What storage may hold after a step that ended so, where nobody else writes to
/// the session directory and the journal holds nothing but intents. What is
/// reported of the journal is true.
pub open spec fn stored_by<M>(
    goal: SwitchGoal<M>,
    step: SwitchStep,
    event: SwitchEvent,
    before: SwitchDisk<M>,
    after: SwitchDisk<M>,
) -> bool {
    match step {
        SwitchStep::WriteChat { recovering } => left_by(
            event,
            before,
            before.with_chat(carried(recovering, goal, before)),
            after,
        ),
        SwitchStep::PatchSummary { recovering } => left_by(
            event,
            before,
            before.with_summary(carried(recovering, goal, before)),
            after,
        ),
        SwitchStep::RemoveJournal { .. } => left_by(
            event,
            before,
            SwitchDisk { journal: None, ..before },
            after,
        ),
        SwitchStep::WriteIntent => left_by(
            event,
            before,
            SwitchDisk { journal: Some(goal), ..before },
            after,
        ),
        _ => after == before && match event {
            SwitchEvent::JournalRead(Ok(Journal::Absent)) => before.journal is None,
            SwitchEvent::JournalRead(Ok(Journal::Intent { version })) => before.journal is Some
                && version == INTENT_VERSION,
            SwitchEvent::JournalRead(Ok(Journal::Malformed(_))) => false,
            SwitchEvent::JournalProbed(there) => there == before.journal is Some,
            _ => true,
        },
    }
}

/// A moment of a switch: its step, and what storage holds.
pub struct SwitchMoment<M> {
    pub step: SwitchStep,
    pub disk: SwitchDisk<M>,
}

/// Whether `moments` are those of a switch to which `events` happened.
pub open spec fn switch_run<M>(
    aim: SwitchAim,
    goal: SwitchGoal<M>,
    moments: Seq<SwitchMoment<M>>,
    events: Seq<SwitchEvent>,
) -> bool {
    &&& moments.len() == events.len() + 1
    &&& moments[0].step is Lock
    &&& forall|i: int| #![trigger events[i]]
        0 <= i < events.len() ==> {
            &&& switch_fits(moments[i].step, events[i])
            &&& moments[i + 1].step == switch_after(aim, moments[i].step, events[i])
            &&& stored_by(goal, moments[i].step, events[i], moments[i].disk, moments[i + 1].disk)
        }
}

/// Whether no event reports a failure.
pub open spec fn nothing_failed(events: Seq<SwitchEvent>) -> bool {
    forall|i: int|
        0 <= i < events.len() ==> !((#[trigger] events[i]) matches SwitchEvent::Done(Err(_))) && !(
        events[i] matches SwitchEvent::JournalRead(Err(_)))
}

/// What holds of storage in a moment of a switch.
pub open spec fn commit_so_far<M>(goal: SwitchGoal<M>, m: SwitchMoment<M>) -> bool {
    match m.step {
        SwitchStep::WriteChat { recovering } => if recovering {
            m.disk.journal is Some
        } else {
            m.disk.journal == Some(goal)
        },
        SwitchStep::PatchSummary { recovering } => if recovering {
            m.disk.journal is Some
        } else {
            m.disk.journal == Some(goal) && m.disk.chat == goal.messages
        },
        SwitchStep::RemoveJournal { recovering } => !recovering ==> m.disk.journal == Some(goal)
            && SwitchDisk { journal: None, ..m.disk }.settled(goal),
        SwitchStep::SyncDirectory { recovering } => if recovering {
            m.disk.journal is None
        } else {
            m.disk.settled(goal)
        },
        SwitchStep::WriteIntent => m.disk.journal is None,
        SwitchStep::ProbeJournal { .. } => m.disk.journal is None || m.disk.journal == Some(goal),
        SwitchStep::Unlock { outcome } => commit_ended(goal, outcome, m.disk),
        SwitchStep::Finished(outcome) => commit_ended(goal, outcome, m.disk),
        _ => true,
    }
}

pub open spec fn commit_ended<M>(goal: SwitchGoal<M>, outcome: SwitchOutcome, disk: SwitchDisk<M>) -> bool {
    &&& outcome is Done ==> disk.settled(goal)
    &&& outcome is Committed ==> disk.recoverable(goal)
}

proof fn commit_goes_on<M>(
    goal: SwitchGoal<M>,
    m: SwitchMoment<M>,
    event: SwitchEvent,
    next: SwitchMoment<M>,
)
    requires
        commit_so_far(goal, m),
        switch_fits(m.step, event),
        next.step == switch_after(SwitchAim::Commit, m.step, event),
        stored_by(goal, m.step, event, m.disk, next.disk),
    ensures
        commit_so_far(goal, next),
{
}

/// A switch that succeeds has been made and leaves no journal, and one that is
/// reported as committed has been made or can be completed by a recovery.
pub proof fn committed_switch_can_be_recovered<M>(
    goal: SwitchGoal<M>,
    moments: Seq<SwitchMoment<M>>,
    events: Seq<SwitchEvent>,
)
    requires
        switch_run(SwitchAim::Commit, goal, moments, events),
    ensures
        moments.last().step matches SwitchStep::Finished(outcome) ==> {
            &&& outcome is Done ==> moments.last().disk.settled(goal)
            &&& outcome is Committed ==> moments.last().disk.recoverable(goal)
        },
{
    commit_reaches(goal, moments, events, events.len());
}

proof fn commit_reaches<M>(
    goal: SwitchGoal<M>,
    moments: Seq<SwitchMoment<M>>,
    events: Seq<SwitchEvent>,
    n: nat,
)
    requires
        switch_run(SwitchAim::Commit, goal, moments, events),
        n <= events.len(),
    ensures
        commit_so_far(goal, moments[n as int]),
    decreases n,
{
    if n > 0 {
        let i = n - 1;
        commit_reaches(goal, moments, events, i as nat);
        commit_goes_on(goal, moments[i], events[i], moments[i + 1]);
    }
}

/// What holds of storage in a moment of a recovery.
pub open spec fn recovery_so_far<M>(goal: SwitchGoal<M>, m: SwitchMoment<M>) -> bool {
    &&& m.disk.recoverable(goal)
    &&& match m.step {
        SwitchStep::Lock => true,
        SwitchStep::ReadJournal => true,
        SwitchStep::WriteChat { recovering } => recovering && m.disk.journal == Some(goal),
        SwitchStep::PatchSummary { recovering } => recovering && m.disk.journal == Some(goal)
            && m.disk.chat == goal.messages,
        SwitchStep::RemoveJournal { recovering } => recovering && m.disk.journal == Some(goal)
            && SwitchDisk { journal: None, ..m.disk }.settled(goal),
        SwitchStep::SyncDirectory { recovering } => recovering && m.disk.settled(goal),
        SwitchStep::Unlock { outcome } => outcome is Done ==> m.disk.settled(goal),
        SwitchStep::Finished(outcome) => outcome is Done ==> m.disk.settled(goal),
        _ => false,
    }
}

proof fn recovery_goes_on<M>(
    goal: SwitchGoal<M>,
    other: SwitchGoal<M>,
    m: SwitchMoment<M>,
    event: SwitchEvent,
    next: SwitchMoment<M>,
)
    requires
        recovery_so_far(goal, m),
        switch_fits(m.step, event),
        next.step == switch_after(SwitchAim::Recover, m.step, event),
        stored_by(other, m.step, event, m.disk, next.disk),
    ensures
        recovery_so_far(goal, next),
        m.disk.settled(goal) && !(m.step is RemoveJournal) ==> next.disk == m.disk,
        (!(event matches SwitchEvent::Done(Err(_))) && !(event matches SwitchEvent::JournalRead(
            Err(_),
        )) && (m.step matches SwitchStep::Unlock { outcome } ==> outcome is Done)) ==> {
            &&& next.step matches SwitchStep::Unlock { outcome } ==> outcome is Done
            &&& next.step matches SwitchStep::Finished(outcome) ==> outcome is Done
        },
{
}

proof fn recovery_reaches<M>(
    goal: SwitchGoal<M>,
    other: SwitchGoal<M>,
    moments: Seq<SwitchMoment<M>>,
    events: Seq<SwitchEvent>,
    n: nat,
)
    requires
        switch_run(SwitchAim::Recover, other, moments, events),
        moments[0].disk.recoverable(goal),
        n <= events.len(),
    ensures
        recovery_so_far(goal, moments[n as int]),
        nothing_failed(events) ==> {
            &&& moments[n as int].step matches SwitchStep::Unlock { outcome } ==> outcome is Done
            &&& moments[n as int].step matches SwitchStep::Finished(outcome) ==> outcome is Done
        },
    decreases n,
{
    if n > 0 {
        let i = n - 1;
        recovery_reaches(goal, other, moments, events, i as nat);
        recovery_goes_on(goal, other, moments[i], events[i], moments[i + 1]);
    }
}

/// A recovery completes a switch that was committed: where it succeeds, the
/// chat, the model and the message count are those of the switch, and the
/// journal is gone, as after a switch that succeeded. It succeeds unless a step
/// of it fails, and where one does the switch can still be recovered.
pub proof fn recovery_completes_committed_switch<M>(
    goal: SwitchGoal<M>,
    other: SwitchGoal<M>,
    moments: Seq<SwitchMoment<M>>,
    events: Seq<SwitchEvent>,
)
    requires
        switch_run(SwitchAim::Recover, other, moments, events),
        moments[0].disk.recoverable(goal),
    ensures
        moments.last().disk.recoverable(goal),
        moments.last().step matches SwitchStep::Finished(outcome) ==> {
            &&& outcome is Done ==> moments.last().disk.settled(goal)
            &&& nothing_failed(events) ==> outcome is Done
        },
{
    recovery_reaches(goal, other, moments, events, events.len());
}

/// A recovery of a switch that has been made changes nothing, and succeeds
/// unless a step of it fails.
pub proof fn second_recovery_changes_nothing<M>(
    goal: SwitchGoal<M>,
    other: SwitchGoal<M>,
    moments: Seq<SwitchMoment<M>>,
    events: Seq<SwitchEvent>,
    n: nat,
)
    requires
        switch_run(SwitchAim::Recover, other, moments, events),
        moments[0].disk.settled(goal),
        n <= events.len(),
    ensures
        moments[n as int].disk == moments[0].disk,
        moments[n as int].step matches SwitchStep::Finished(outcome) ==> (nothing_failed(events)
            ==> outcome is Done),
    decreases n,
{
    recovery_reaches(goal, other, moments, events, n);
    if n > 0 {
        let i = n - 1;
        second_recovery_changes_nothing(goal, other, moments, events, i as nat);
        recovery_reaches(goal, other, moments, events, i as nat);
        recovery_goes_on(goal, other, moments[i], events[i], moments[i + 1]);
    }
}

} // verus!
