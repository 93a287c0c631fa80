//! What a copy of a session says of itself, and what a switch of the model comes
//! to.

use vstd::prelude::*;

use crate::copy_data::{
    ChatFacts, CopyData, CopyDataEvent, CopyDataStep, CopySessionResult, OrchestrationDir, Sidecar,
};
use crate::io_error::{ErrorKind, IoError};
use crate::model_switch::{
    switch_after, Journal, SwitchAim, SwitchEvent, SwitchFault, SwitchOutcome, SwitchStep,
};

verus! {

// Copies.

/// What there is to copy: the chat as it was read, the lines of the transcript,
/// which optional files there are, and the files of the two archives.
pub struct Copied {
    pub chat: ChatFacts,
    pub updates: usize,
    pub plan: bool,
    pub signals: bool,
    pub plan_mode: bool,
    pub tool: bool,
    pub announcement: bool,
    pub segments: usize,
    pub checkpoints: usize,
}

/// How far a copy has come.
pub open spec fn stage(step: CopyDataStep) -> int {
    match step {
        CopyDataStep::BeginPublication => 0,
        CopyDataStep::CreateTargetDir => 0,
        CopyDataStep::ReadSummary => 1,
        CopyDataStep::ReadChat => 2,
        CopyDataStep::RemoveDir(OrchestrationDir::Workflows) => 3,
        CopyDataStep::RemoveDir(OrchestrationDir::Goal) => 4,
        CopyDataStep::WriteChat => 5,
        CopyDataStep::WriteEmptyTranscript => 6,
        CopyDataStep::CopyTranscript => 6,
        CopyDataStep::WriteSummary(_) => 7,
        CopyDataStep::CopySidecar(Sidecar::Plan) => 8,
        CopyDataStep::CopySidecar(Sidecar::Signals) => 9,
        CopyDataStep::CopySidecar(Sidecar::PlanModeState) => 10,
        CopyDataStep::CopySidecar(Sidecar::ToolState) => 11,
        CopyDataStep::CopySidecar(Sidecar::AnnouncementState) => 12,
        CopyDataStep::CopySegments => 13,
        CopyDataStep::CopyCheckpoints => 14,
        CopyDataStep::Publish => 15,
        CopyDataStep::Finished(_) => 16,
    }
}

/// Whether a copy has failed.
pub open spec fn failed(c: CopyData) -> bool {
    c.step is Finished && c.step->Finished_0 is Err
}

/// Whether an event tells of what there is.
pub open spec fn tells_of(w: Copied, step: CopyDataStep, event: CopyDataEvent) -> bool {
    match event {
        CopyDataEvent::ChatRead(Ok(chat)) => chat == w.chat,
        CopyDataEvent::TranscriptCopied(Ok((copied, _))) => copied.count == w.updates,
        CopyDataEvent::SidecarCopied(Ok(there)) => match step {
            CopyDataStep::CopySidecar(Sidecar::Plan) => there == w.plan,
            CopyDataStep::CopySidecar(Sidecar::Signals) => there == w.signals,
            CopyDataStep::CopySidecar(Sidecar::PlanModeState) => there == w.plan_mode,
            CopyDataStep::CopySidecar(Sidecar::ToolState) => there == w.tool,
            CopyDataStep::CopySidecar(Sidecar::AnnouncementState) => there == w.announcement,
            _ => true,
        },
        CopyDataEvent::Counted(Ok(n)) => if step is CopySegments {
            n == w.segments
        } else {
            n == w.checkpoints
        },
        _ => true,
    }
}

/// Whether a flag says what there is: set once the file's turn has passed, if
/// and only if the file was asked for and is there.
pub open spec fn flag_is_true(flag: bool, turn: int, at: int, asked: bool, there: bool) -> bool {
    flag == (at > turn && asked && there)
}

/// Whether a copy says of itself what there was to copy, as far as it has come.
pub open spec fn true_so_far(c: CopyData, w: Copied) -> bool {
    let at = stage(c.step);
    let o = c.options;
    let r = c.result;
    &&& at > 2 ==> c.chat == w.chat && r.chat_messages_copied == w.chat.len
    &&& r.updates_copied == if at > 6 && !o.fork_filter {
        w.updates
    } else {
        0
    }
    &&& flag_is_true(r.plan_state_copied, 8, at, o.copy_plan_state, w.plan)
    &&& flag_is_true(r.signals_copied, 9, at, o.copy_signals, w.signals)
    &&& flag_is_true(r.plan_mode_state_copied, 10, at, o.copy_plan_mode_state, w.plan_mode)
    &&& flag_is_true(r.tool_state_copied, 11, at, o.copy_tool_state, w.tool)
    &&& flag_is_true(
        r.announcement_state_copied,
        12,
        at,
        o.copy_announcement_state,
        w.announcement,
    )
    &&& r.compaction_segments_copied == if at > 13 && o.copy_compaction_segments {
        w.segments
    } else {
        0
    }
    &&& at > 14 ==> r.compaction_checkpoints_copied == w.checkpoints
    &&& c.step matches CopyDataStep::Finished(Ok(told)) ==> told == r
}

/// A copy that succeeds tells the truth of itself: of each thing whether it was
/// asked for and there, and how many messages, lines and archive files were
/// copied. What holds so far goes on to hold with every event that tells of what
/// there is, unless the copy fails.
pub proof fn copy_tells_what_was_copied(c: CopyData, w: Copied, event: CopyDataEvent, new: CopyData)
    requires
        c.wf(),
        c.fits(event),
        c.leads_to(event, new),
        tells_of(w, c.step, event),
        true_so_far(c, w),
    ensures
        !failed(new) ==> true_so_far(new, w),
        new.options == c.options && new.target_info == c.target_info && new.from_root
            == c.from_root,
{
    copy_leaves_nothing_out(c, event, new);
}

/// A copy that has only begun has copied nothing, and says so.
pub proof fn copy_begins_with_nothing(c: CopyData, w: Copied)
    requires
        stage(c.step) == 0,
        c.result == (CopySessionResult {
            chat_messages_copied: 0,
            updates_copied: 0,
            plan_state_copied: false,
            plan_mode_state_copied: false,
            signals_copied: false,
            tool_state_copied: false,
            announcement_state_copied: false,
            compaction_segments_copied: 0,
            compaction_checkpoints_copied: 0,
        }),
    ensures
        true_so_far(c, w),
{
}

/// A copy gets on with every event, and leaves out none of its parts but the
/// optional ones that were not asked for. One found through the sessions root
/// is published before it ends.
pub proof fn copy_leaves_nothing_out(c: CopyData, event: CopyDataEvent, new: CopyData)
    requires
        c.wf(),
        c.fits(event),
        c.leads_to(event, new),
    ensures
        stage(new.step) > stage(c.step),
        !failed(new) ==> {
            let was = stage(c.step);
            let now = stage(new.step);
            let o = c.options;
            &&& was < 7 ==> now == was + 1
            &&& was < 8 && o.copy_plan_state ==> now <= 8
            &&& was < 9 && o.copy_signals ==> now <= 9
            &&& was < 10 && o.copy_plan_mode_state ==> now <= 10
            &&& was < 11 && o.copy_tool_state ==> now <= 11
            &&& was < 12 && o.copy_announcement_state ==> now <= 12
            &&& was < 13 && o.copy_compaction_segments ==> now <= 13
            &&& was < 14 ==> now <= 14
            &&& was < 15 && c.from_root ==> now <= 15
        },
        new.step is WriteEmptyTranscript ==> c.options.fork_filter,
        new.step is CopyTranscript ==> !c.options.fork_filter,
{
}

/// A failure ends the copy, and is what the copy fails with; but a directory to
/// be removed may be missing, and a publication that is committed has succeeded,
/// though its durability is in doubt.
pub proof fn copy_failure_is_told(c: CopyData, event: CopyDataEvent, new: CopyData, e: IoError)
    requires
        c.wf(),
        c.fits(event),
        c.leads_to(event, new),
    ensures
        event == CopyDataEvent::Done(Err(e)) ==> if e.kind == ErrorKind::NotFound && c.step
            is RemoveDir {
            !failed(new)
        } else {
            new.step == CopyDataStep::Finished(Err(e))
        },
        event == CopyDataEvent::SummaryRead(Err(e)) ==> new.step == CopyDataStep::Finished(Err(e)),
        event == CopyDataEvent::ChatRead(Err(e)) ==> new.step == CopyDataStep::Finished(Err(e)),
        event == CopyDataEvent::EmptyTranscriptWritten(Err(e)) ==> new.step
            == CopyDataStep::Finished(Err(e)),
        event == CopyDataEvent::TranscriptCopied(Err(e)) ==> new.step == CopyDataStep::Finished(
            Err(e),
        ),
        event == CopyDataEvent::SidecarCopied(Err(e)) ==> new.step == CopyDataStep::Finished(
            Err(e),
        ),
        event == CopyDataEvent::Counted(Err(e)) ==> new.step == CopyDataStep::Finished(Err(e)),
        event matches CopyDataEvent::Published { outcome, .. } ==> (failed(new) <==> outcome is Err
            && !(outcome->Err_0 is CommittedDurability)),
{
}

/// The summary that a copy writes is that of its own target, counts what this
/// copy has copied, and goes on with the source's title, model and text as it
/// read them.
pub proof fn copy_writes_its_own_summary(c: CopyData, event: CopyDataEvent, new: CopyData)
    requires
        c.wf(),
        c.fits(event),
        c.leads_to(event, new),
        new.step is WriteSummary,
    ensures
        c.source_summary is Some,
        ({
            let s = new.step->WriteSummary_0;
            let source = c.source_summary->0;
            &&& s.info == c.target_info
            &&& s.num_chat_messages == c.chat.len
            &&& s.cwd_switch_bookkeeping_generation == c.chat.generation
            &&& s.num_messages == new.result.updates_copied
            &&& s.parent_session_id == c.options.parent_session_id
            &&& s.generated_title == source.generated_title
            &&& s.session_summary == source.session_summary
            &&& s.current_model_id == match c.options.new_model_id {
                Some(model) => model,
                None => source.current_model_id,
            }
            &&& s.inherited_prefix_len == if c.options.fork_filter {
                Some(c.chat.selected_len)
            } else {
                c.options.inherited_prefix_len
            }
        }),
        event matches CopyDataEvent::TranscriptCopied(Ok((copied, stamp))) ==> {
            &&& new.result.updates_copied == copied.count
            &&& new.checkpoint_files == copied.checkpoint_files
            &&& new.step->WriteSummary_0.created_at == stamp.created_at
        },
        event matches CopyDataEvent::EmptyTranscriptWritten(Ok(stamp)) ==> {
            &&& new.result.updates_copied == 0
            &&& new.checkpoint_files@.len() == 0
            &&& new.step->WriteSummary_0.created_at == stamp.created_at
        },
{
}

/// What was read stays at hand until it is used: the source's summary, the chat
/// and the checkpoints that the transcript names.
pub proof fn copy_remembers_what_it_read(c: CopyData, event: CopyDataEvent, new: CopyData)
    requires
        c.wf(),
        c.fits(event),
        c.leads_to(event, new),
    ensures
        event matches CopyDataEvent::SummaryRead(Ok(s)) ==> new.source_summary == Some(s),
        stage(c.step) > 1 && stage(new.step) < 7 ==> new.source_summary == c.source_summary,
        stage(c.step) > 2 ==> new.chat == c.chat,
        stage(c.step) > 6 ==> new.checkpoint_files == c.checkpoint_files,
{
}

// Switching the model.

/// How the world answers a switch: of the intent found in the journal, and of
/// the one that is switched to, how each part of it went.
pub struct SwitchWorld {
    pub locked: Result<(), IoError>,
    pub journal: Result<Journal, IoError>,
    pub old: Carrying,
    pub intent: Result<(), IoError>,
    /// Whether the journal is there where the intent failed to be written.
    pub there: bool,
    pub new: Carrying,
}

/// How the parts of an intent went.
pub struct Carrying {
    pub chat: Result<(), IoError>,
    pub summary: Result<(), IoError>,
    pub removal: Result<(), IoError>,
    pub sync: Result<(), IoError>,
}

impl Carrying {
    /// The first part that failed.
    pub open spec fn failure(self) -> Option<IoError> {
        if self.chat is Err {
            Some(self.chat->Err_0)
        } else if self.summary is Err {
            Some(self.summary->Err_0)
        } else if self.removal is Err {
            Some(self.removal->Err_0)
        } else if self.sync is Err {
            Some(self.sync->Err_0)
        } else {
            None
        }
    }

    pub open spec fn of(w: SwitchWorld, recovering: bool) -> Carrying {
        if recovering {
            w.old
        } else {
            w.new
        }
    }
}

pub open spec fn switch_answer(w: SwitchWorld, step: SwitchStep) -> SwitchEvent {
    match step {
        SwitchStep::Lock => SwitchEvent::Done(w.locked),
        SwitchStep::ReadJournal => SwitchEvent::JournalRead(w.journal),
        SwitchStep::WriteChat { recovering } => SwitchEvent::Done(
            Carrying::of(w, recovering).chat,
        ),
        SwitchStep::PatchSummary { recovering } => SwitchEvent::Done(
            Carrying::of(w, recovering).summary,
        ),
        SwitchStep::RemoveJournal { recovering } => SwitchEvent::Done(
            Carrying::of(w, recovering).removal,
        ),
        SwitchStep::SyncDirectory { recovering } => SwitchEvent::Done(
            Carrying::of(w, recovering).sync,
        ),
        SwitchStep::WriteIntent => SwitchEvent::Done(w.intent),
        SwitchStep::ProbeJournal { .. } => SwitchEvent::JournalProbed(w.there),
        SwitchStep::Unlock { .. } => SwitchEvent::Unlocked,
        SwitchStep::Finished(_) => SwitchEvent::Unlocked,
    }
}

/// Where a switch is `n` steps after `step`.
pub open spec fn switch_run(aim: SwitchAim, w: SwitchWorld, step: SwitchStep, n: nat) -> SwitchStep
    decreases n,
{
    if n == 0 {
        step
    } else {
        switch_run(aim, w, switch_after(aim, step, switch_answer(w, step)), (n - 1) as nat)
    }
}

proof fn finished_switch_stays(aim: SwitchAim, w: SwitchWorld, outcome: SwitchOutcome, n: nat)
    ensures
        switch_run(aim, w, SwitchStep::Finished(outcome), n) == SwitchStep::Finished(outcome),
    decreases n,
{
    if n > 0 {
        finished_switch_stays(aim, w, outcome, (n - 1) as nat);
    }
}

proof fn unlocking_ends(aim: SwitchAim, w: SwitchWorld, outcome: SwitchOutcome, n: nat)
    requires
        n > 0,
    ensures
        switch_run(aim, w, SwitchStep::Unlock { outcome }, n) == SwitchStep::Finished(outcome),
{
    finished_switch_stays(aim, w, outcome, (n - 1) as nat);
}

/// How a switch ends that has its intent still to write.
pub open spec fn switched(w: SwitchWorld) -> SwitchOutcome {
    match w.intent {
        Err(e) => if w.there {
            SwitchOutcome::Committed(SwitchFault::Io(e))
        } else {
            SwitchOutcome::NotCommitted(SwitchFault::Io(e))
        },
        Ok(_) => match w.new.failure() {
            Some(e) => SwitchOutcome::Committed(SwitchFault::Io(e)),
            None => SwitchOutcome::Done,
        },
    }
}

proof fn new_intent_is_carried_out(aim: SwitchAim, w: SwitchWorld, n: nat)
    requires
        n >= 6,
    ensures
        switch_run(aim, w, SwitchStep::WriteIntent, n) == SwitchStep::Finished(switched(w)),
{
    reveal_with_fuel(switch_run, 6);
    unlocking_ends(aim, w, switched(w), (n - 2) as nat);
    unlocking_ends(aim, w, switched(w), (n - 3) as nat);
    unlocking_ends(aim, w, switched(w), (n - 4) as nat);
    unlocking_ends(aim, w, switched(w), (n - 5) as nat);
}

/// How a switch ends that has nothing to recover any more.
pub open spec fn ended(aim: SwitchAim, w: SwitchWorld) -> SwitchOutcome {
    if aim is Commit {
        switched(w)
    } else {
        SwitchOutcome::Done
    }
}

proof fn recovered_switch_ends(aim: SwitchAim, w: SwitchWorld, n: nat)
    requires
        n >= 6,
    ensures
        switch_run(aim, w, crate::model_switch::recovered(aim), n) == SwitchStep::Finished(
            ended(aim, w),
        ),
{
    match aim {
        SwitchAim::Commit => new_intent_is_carried_out(aim, w, n),
        SwitchAim::Recover => unlocking_ends(aim, w, SwitchOutcome::Done, n),
        SwitchAim::LockMutation => finished_switch_stays(aim, w, SwitchOutcome::Done, n),
    }
}

/// What a switch comes to. It waits for the lock, and completes first what the
/// journal holds: an intent of the known version is carried out whole, and
/// anything else there is refused, with nothing committed by this switch. Only
/// then is its own intent written: from there on the switch is committed, and
/// what fails afterwards says so. A recovery has nothing of its own to do.
pub proof fn switch_completes_the_journal_first(aim: SwitchAim, w: SwitchWorld)
    ensures
        switch_run(aim, w, SwitchStep::Lock, 12) == SwitchStep::Finished(
            match (w.locked, w.journal) {
                (Err(e), _) => SwitchOutcome::NotCommitted(SwitchFault::Io(e)),
                (Ok(_), Err(e)) => SwitchOutcome::NotCommitted(SwitchFault::Io(e)),
                (Ok(_), Ok(Journal::Malformed(text))) => SwitchOutcome::NotCommitted(
                    SwitchFault::Malformed(text),
                ),
                (Ok(_), Ok(Journal::Absent)) => ended(aim, w),
                (Ok(_), Ok(Journal::Intent { version })) => if version != 1 {
                    SwitchOutcome::NotCommitted(SwitchFault::Version(version))
                } else {
                    match w.old.failure() {
                        Some(e) => SwitchOutcome::NotCommitted(SwitchFault::Io(e)),
                        None => ended(aim, w),
                    }
                },
            },
        ),
{
    let read = switch_run(aim, w, SwitchStep::ReadJournal, 11);
    assert(w.locked is Ok ==> switch_run(aim, w, SwitchStep::Lock, 12) == read);
    match w.locked {
        Err(e) => finished_switch_stays(aim, w, SwitchOutcome::NotCommitted(SwitchFault::Io(e)), 11),
        Ok(_) => match w.journal {
            Err(e) => unlocking_ends(aim, w, SwitchOutcome::NotCommitted(SwitchFault::Io(e)), 10),
            Ok(Journal::Malformed(text)) => unlocking_ends(
                aim,
                w,
                SwitchOutcome::NotCommitted(SwitchFault::Malformed(text)),
                10,
            ),
            Ok(Journal::Absent) => recovered_switch_ends(aim, w, 10),
            Ok(Journal::Intent { version }) => if version != 1 {
                unlocking_ends(
                    aim,
                    w,
                    SwitchOutcome::NotCommitted(SwitchFault::Version(version)),
                    10,
                );
            } else {
                old_intent_is_carried_out(aim, w);
            },
        },
    }
}

proof fn old_intent_is_carried_out(aim: SwitchAim, w: SwitchWorld)
    ensures
        switch_run(aim, w, SwitchStep::WriteChat { recovering: true }, 10) == SwitchStep::Finished(
            match w.old.failure() {
                Some(e) => SwitchOutcome::NotCommitted(SwitchFault::Io(e)),
                None => ended(aim, w),
            },
        ),
{
    reveal_with_fuel(switch_run, 5);
    recovered_switch_ends(aim, w, 6);
    if let Some(e) = w.old.failure() {
        let outcome = SwitchOutcome::NotCommitted(SwitchFault::Io(e));
        unlocking_ends(aim, w, outcome, 9);
        unlocking_ends(aim, w, outcome, 8);
        unlocking_ends(aim, w, outcome, 7);
        unlocking_ends(aim, w, outcome, 6);
    }
}

} // verus!
