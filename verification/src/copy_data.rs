//! Copying the data of a session into a fork, from the first read to the
//! result.
//!
//! The driver reads and writes; this decides what comes next. A copy from the
//! sessions root goes into a private stage and is published at its end; a copy
//! into a directory of the caller's own is written there at once.

use vstd::prelude::*;

use crate::copy_publish::{CopyFinalizeError, reconcile_copy_publication};
use crate::fork::{
    CopySessionOptions, ForkCounters, ForkStamp, fork_summary, inherited_prefix_len,
};
use crate::fork::{inherited, is_fork_summary};
use crate::io_error::{ErrorKind, IoError};
use crate::jsonl::CopiedUpdates;
use crate::summary::{Info, Summary};

verus! {

/// What a copy has taken over.
#[derive(Debug, Clone, Copy, PartialEq, Eq, Structural)]
pub struct CopySessionResult {
    pub chat_messages_copied: usize,
    pub updates_copied: usize,
    pub plan_state_copied: bool,
    pub plan_mode_state_copied: bool,
    pub signals_copied: bool,
    pub tool_state_copied: bool,
    pub announcement_state_copied: bool,
    pub compaction_segments_copied: usize,
    pub compaction_checkpoints_copied: usize,
}

/// An optional file of a session.
#[derive(Debug, Clone, Copy, PartialEq, Eq, Structural)]
pub enum Sidecar {
    Plan,
    Signals,
    PlanModeState,
    ToolState,
    AnnouncementState,
}

/// A directory of the target that a fork must not have.
#[derive(Debug, Clone, Copy, PartialEq, Eq, Structural)]
pub enum OrchestrationDir {
    Workflows,
    Goal,
}

/// The chat of the fork once the driver has read, selected and rewritten it.
#[derive(Debug, Clone, Copy, PartialEq, Eq, Structural)]
pub struct ChatFacts {
    /// Items that were selected.
    pub selected_len: usize,
    /// Items that remain.
    pub len: usize,
    /// The latest switch of the working directory that they tell of.
    pub generation: u64,
}

/// What the driver does next.
#[derive(Debug)]
pub enum CopyDataStep {
    BeginPublication,
    CreateTargetDir,
    ReadSummary,
    ReadChat,
    RemoveDir(OrchestrationDir),
    WriteChat,
    WriteEmptyTranscript,
    CopyTranscript,
    WriteSummary(Summary),
    /// Copy this file if it is a regular file.
    CopySidecar(Sidecar),
    /// Copy each regular file of the compaction archive.
    CopySegments,
    CopyCheckpoints,
    Publish,
    Finished(Result<CopySessionResult, IoError>),
}

/// What happened.
#[derive(Debug)]
pub enum CopyDataEvent {
    Done(Result<(), IoError>),
    SummaryRead(Result<Summary, IoError>),
    ChatRead(Result<ChatFacts, IoError>),
    EmptyTranscriptWritten(Result<ForkStamp, IoError>),
    TranscriptCopied(Result<(CopiedUpdates, ForkStamp), IoError>),
    /// Whether the file was there to be copied.
    SidecarCopied(Result<bool, IoError>),
    Counted(Result<usize, IoError>),
    /// How publication ended, and the name of the cwd directory in quotes, as
    /// messages show it.
    Published { outcome: Result<(), CopyFinalizeError>, shown_parent: String },
}

/// A copy in progress.
#[derive(Debug)]
pub struct CopyData {
    pub options: CopySessionOptions,
    pub target_info: Info,
    /// Whether the target is found through the sessions root.
    pub from_root: bool,
    pub source_summary: Option<Summary>,
    pub chat: ChatFacts,
    pub checkpoint_files: Vec<String>,
    pub result: CopySessionResult,
    pub step: CopyDataStep,
}

/// What comes once the optional files before the one of number `from` are done.
pub open spec fn sidecars_from(options: CopySessionOptions, from: int) -> CopyDataStep {
    if from <= 0 && options.copy_plan_state {
        CopyDataStep::CopySidecar(Sidecar::Plan)
    } else if from <= 1 && options.copy_signals {
        CopyDataStep::CopySidecar(Sidecar::Signals)
    } else if from <= 2 && options.copy_plan_mode_state {
        CopyDataStep::CopySidecar(Sidecar::PlanModeState)
    } else if from <= 3 && options.copy_tool_state {
        CopyDataStep::CopySidecar(Sidecar::ToolState)
    } else if from <= 4 && options.copy_announcement_state {
        CopyDataStep::CopySidecar(Sidecar::AnnouncementState)
    } else if options.copy_compaction_segments {
        CopyDataStep::CopySegments
    } else {
        CopyDataStep::CopyCheckpoints
    }
}

/// The place of an optional file in the order in which they are copied.
pub open spec fn place(sidecar: Sidecar) -> int {
    match sidecar {
        Sidecar::Plan => 0,
        Sidecar::Signals => 1,
        Sidecar::PlanModeState => 2,
        Sidecar::ToolState => 3,
        Sidecar::AnnouncementState => 4,
    }
}

/// The result with it noted whether a file was copied.
pub open spec fn noted(r: CopySessionResult, sidecar: Sidecar, copied: bool) -> CopySessionResult {
    match sidecar {
        Sidecar::Plan => CopySessionResult { plan_state_copied: copied, ..r },
        Sidecar::Signals => CopySessionResult { signals_copied: copied, ..r },
        Sidecar::PlanModeState => CopySessionResult { plan_mode_state_copied: copied, ..r },
        Sidecar::ToolState => CopySessionResult { tool_state_copied: copied, ..r },
        Sidecar::AnnouncementState => CopySessionResult { announcement_state_copied: copied, ..r },
    }
}

impl CopyData {
    /// Nothing is copied that was not asked for, a subagent gets no transcript,
    /// and the source's summary is at hand until the fork's is made.
    pub open spec fn wf(&self) -> bool {
        let o = self.options;
        let r = self.result;
        &&& r.plan_state_copied ==> o.copy_plan_state
        &&& r.signals_copied ==> o.copy_signals
        &&& r.plan_mode_state_copied ==> o.copy_plan_mode_state
        &&& r.tool_state_copied ==> o.copy_tool_state
        &&& r.announcement_state_copied ==> o.copy_announcement_state
        &&& r.compaction_segments_copied > 0 ==> o.copy_compaction_segments
        &&& o.fork_filter ==> r.updates_copied == 0 && self.checkpoint_files@.len() == 0
        &&& match self.step {
            CopyDataStep::BeginPublication => self.from_root,
            CopyDataStep::CreateTargetDir => !self.from_root,
            CopyDataStep::ReadSummary => true,
            CopyDataStep::ReadChat => self.source_summary is Some,
            CopyDataStep::RemoveDir(_) => self.source_summary is Some,
            CopyDataStep::WriteChat => self.source_summary is Some,
            CopyDataStep::WriteEmptyTranscript => self.source_summary is Some && o.fork_filter,
            CopyDataStep::CopyTranscript => self.source_summary is Some && !o.fork_filter,
            CopyDataStep::WriteSummary(_) => true,
            CopyDataStep::CopySidecar(sidecar) => match sidecar {
                Sidecar::Plan => o.copy_plan_state,
                Sidecar::Signals => o.copy_signals,
                Sidecar::PlanModeState => o.copy_plan_mode_state,
                Sidecar::ToolState => o.copy_tool_state,
                Sidecar::AnnouncementState => o.copy_announcement_state,
            },
            CopyDataStep::CopySegments => o.copy_compaction_segments,
            CopyDataStep::CopyCheckpoints => true,
            CopyDataStep::Publish => self.from_root,
            CopyDataStep::Finished(result) => result matches Ok(r) ==> r == self.result,
        }
    }

    /// Whether `event` is what the step can lead to.
    pub open spec fn fits(&self, event: CopyDataEvent) -> bool {
        match self.step {
            CopyDataStep::BeginPublication => event is Done,
            CopyDataStep::CreateTargetDir => event is Done,
            CopyDataStep::ReadSummary => event is SummaryRead,
            CopyDataStep::ReadChat => event is ChatRead,
            CopyDataStep::RemoveDir(_) => event is Done,
            CopyDataStep::WriteChat => event is Done,
            CopyDataStep::WriteEmptyTranscript => event is EmptyTranscriptWritten,
            CopyDataStep::CopyTranscript => event is TranscriptCopied,
            CopyDataStep::WriteSummary(_) => event is Done,
            CopyDataStep::CopySidecar(_) => event is SidecarCopied,
            CopyDataStep::CopySegments => event is Counted,
            CopyDataStep::CopyCheckpoints => event is Counted,
            CopyDataStep::Publish => event is Published,
            CopyDataStep::Finished(_) => false,
        }
    }

    pub open spec fn at(self, step: CopyDataStep) -> CopyData {
        CopyData { step, ..self }
    }

    pub open spec fn failed(self, e: IoError) -> CopyData {
        self.at(CopyDataStep::Finished(Err(e)))
    }

    /// What the fork's summary counts.
    pub open spec fn counters(self, num_messages: usize) -> ForkCounters {
        ForkCounters {
            num_messages,
            num_chat_messages: self.chat.len,
            cwd_switch_bookkeeping_generation: self.chat.generation,
            inherited_prefix_len: inherited(self.options, self.chat.selected_len),
        }
    }

    /// Whether `new` follows once the transcript is written: the fork's summary
    /// is next.
    pub open spec fn summary_next(self, copied: CopiedUpdates, stamp: ForkStamp, new: CopyData) -> bool {
        &&& new.step is WriteSummary
        &&& is_fork_summary(
            new.step->WriteSummary_0,
            self.source_summary->0,
            self.target_info,
            self.options,
            self.counters(copied.count),
            stamp,
        )
        &&& new == CopyData {
            source_summary: None,
            checkpoint_files: copied.checkpoint_files,
            result: CopySessionResult { updates_copied: copied.count, ..self.result },
            step: new.step,
            ..self
        }
    }

    /// What comes where a step with nothing to show has succeeded.
    pub open spec fn done_next(self) -> CopyDataStep {
        match self.step {
            CopyDataStep::BeginPublication => CopyDataStep::ReadSummary,
            CopyDataStep::CreateTargetDir => CopyDataStep::ReadSummary,
            CopyDataStep::RemoveDir(OrchestrationDir::Workflows) => CopyDataStep::RemoveDir(
                OrchestrationDir::Goal,
            ),
            CopyDataStep::RemoveDir(OrchestrationDir::Goal) => CopyDataStep::WriteChat,
            CopyDataStep::WriteChat => if self.options.fork_filter {
                CopyDataStep::WriteEmptyTranscript
            } else {
                CopyDataStep::CopyTranscript
            },
            CopyDataStep::WriteSummary(_) => sidecars_from(self.options, 0),
            step => step,
        }
    }

    /// Whether `event` leads from here to `new`.
    pub open spec fn leads_to(self, event: CopyDataEvent, new: CopyData) -> bool {
        match event {
            CopyDataEvent::Done(Ok(_)) => new == self.at(self.done_next()),
            CopyDataEvent::Done(Err(e)) => if self.step is RemoveDir && e.kind
                == ErrorKind::NotFound {
                new == self.at(self.done_next())
            } else {
                new == self.failed(e)
            },
            CopyDataEvent::SummaryRead(Ok(summary)) => new == CopyData {
                source_summary: Some(summary),
                step: CopyDataStep::ReadChat,
                ..self
            },
            CopyDataEvent::SummaryRead(Err(e)) => new == self.failed(e),
            CopyDataEvent::ChatRead(Ok(chat)) => new == CopyData {
                chat,
                result: CopySessionResult { chat_messages_copied: chat.len, ..self.result },
                step: CopyDataStep::RemoveDir(OrchestrationDir::Workflows),
                ..self
            },
            CopyDataEvent::ChatRead(Err(e)) => new == self.failed(e),
            CopyDataEvent::EmptyTranscriptWritten(Ok(stamp)) => {
                let copied = CopiedUpdates { count: 0, checkpoint_files: new.checkpoint_files };
                copied.checkpoint_files@.len() == 0 && self.summary_next(copied, stamp, new)
            },
            CopyDataEvent::EmptyTranscriptWritten(Err(e)) => new == self.failed(e),
            CopyDataEvent::TranscriptCopied(Ok((copied, stamp))) => self.summary_next(
                copied,
                stamp,
                new,
            ),
            CopyDataEvent::TranscriptCopied(Err(e)) => new == self.failed(e),
            CopyDataEvent::SidecarCopied(Ok(copied)) => {
                let sidecar = self.step->CopySidecar_0;
                new == CopyData {
                    result: noted(self.result, sidecar, copied),
                    step: sidecars_from(self.options, place(sidecar) + 1),
                    ..self
                }
            },
            CopyDataEvent::SidecarCopied(Err(e)) => new == self.failed(e),
            CopyDataEvent::Counted(Ok(n)) => if self.step is CopySegments {
                new == CopyData {
                    result: CopySessionResult { compaction_segments_copied: n, ..self.result },
                    step: CopyDataStep::CopyCheckpoints,
                    ..self
                }
            } else {
                let result = CopySessionResult { compaction_checkpoints_copied: n, ..self.result };
                new == CopyData {
                    result,
                    step: if self.from_root {
                        CopyDataStep::Publish
                    } else {
                        CopyDataStep::Finished(Ok(result))
                    },
                    ..self
                }
            },
            CopyDataEvent::Counted(Err(e)) => new == self.failed(e),
            CopyDataEvent::Published { outcome, shown_parent } => {
                &&& new.step is Finished
                &&& new == self.at(new.step)
                &&& match outcome {
                    Ok(_) => new.step == CopyDataStep::Finished(Ok(self.result)),
                    Err(CopyFinalizeError::CommittedDurability(_)) => new.step
                        == CopyDataStep::Finished(Ok(self.result)),
                    Err(failure) => {
                        &&& new.step->Finished_0 is Err
                        &&& failure.fault().told_by(new.step->Finished_0->Err_0, shown_parent@)
                    },
                }
            },
        }
    }

    /// A copy into `target_info`.
    pub fn begin(options: CopySessionOptions, target_info: Info, from_root: bool) -> (r: CopyData)
        ensures
            r.wf(),
            r.options == options,
            r.target_info == target_info,
            r.from_root == from_root,
            r.step == if from_root {
                CopyDataStep::BeginPublication
            } else {
                CopyDataStep::CreateTargetDir
            },
            r.result == (CopySessionResult {
                chat_messages_copied: 0,
                updates_copied: 0,
                plan_state_copied: false,
                plan_mode_state_copied: false,
                signals_copied: false,
                tool_state_copied: false,
                announcement_state_copied: false,
                compaction_segments_copied: 0,
                compaction_checkpoints_copied: 0,
            }),
    {
        let step = if from_root {
            CopyDataStep::BeginPublication
        } else {
            CopyDataStep::CreateTargetDir
        };
        CopyData {
            options,
            target_info,
            from_root,
            source_summary: None,
            chat: ChatFacts { selected_len: 0, len: 0, generation: 0 },
            checkpoint_files: Vec::new(),
            result: CopySessionResult {
                chat_messages_copied: 0,
                updates_copied: 0,
                plan_state_copied: false,
                plan_mode_state_copied: false,
                signals_copied: false,
                tool_state_copied: false,
                announcement_state_copied: false,
                compaction_segments_copied: 0,
                compaction_checkpoints_copied: 0,
            },
            step,
        }
    }

    fn next_sidecar(&self, from: u8) -> (r: CopyDataStep)
        ensures
            r == sidecars_from(self.options, from as int),
    {
        if from == 0 && self.options.copy_plan_state {
            CopyDataStep::CopySidecar(Sidecar::Plan)
        } else if from <= 1 && self.options.copy_signals {
            CopyDataStep::CopySidecar(Sidecar::Signals)
        } else if from <= 2 && self.options.copy_plan_mode_state {
            CopyDataStep::CopySidecar(Sidecar::PlanModeState)
        } else if from <= 3 && self.options.copy_tool_state {
            CopyDataStep::CopySidecar(Sidecar::ToolState)
        } else if from <= 4 && self.options.copy_announcement_state {
            CopyDataStep::CopySidecar(Sidecar::AnnouncementState)
        } else if self.options.copy_compaction_segments {
            CopyDataStep::CopySegments
        } else {
            CopyDataStep::CopyCheckpoints
        }
    }

    fn make_summary(self, copied: CopiedUpdates, stamp: ForkStamp) -> (r: CopyData)
        requires
            self.wf(),
            self.source_summary is Some,
            self.options.fork_filter ==> copied.count == 0 && copied.checkpoint_files@.len() == 0,
        ensures
            self.summary_next(copied, stamp, r),
            r.wf(),
    {
        let mut c = self;
        let counters = ForkCounters {
            num_messages: copied.count,
            num_chat_messages: c.chat.len,
            cwd_switch_bookkeeping_generation: c.chat.generation,
            inherited_prefix_len: inherited_prefix_len(&c.options, c.chat.selected_len),
        };
        if let Some(source) = c.source_summary {
            c.step = CopyDataStep::WriteSummary(
                fork_summary(source, &c.target_info, &c.options, counters, stamp),
            );
        }
        c.source_summary = None;
        c.checkpoint_files = copied.checkpoint_files;
        c.result.updates_copied = copied.count;
        c
    }

    fn after_done(self) -> (r: CopyData)
        requires
            self.wf(),
            self.fits(CopyDataEvent::Done(Ok(()))),
        ensures
            r == self.at(self.done_next()),
            r.wf(),
    {
        let mut c = self;
        let next = match &c.step {
            CopyDataStep::BeginPublication => CopyDataStep::ReadSummary,
            CopyDataStep::CreateTargetDir => CopyDataStep::ReadSummary,
            CopyDataStep::RemoveDir(dir) => match dir {
                OrchestrationDir::Workflows => CopyDataStep::RemoveDir(OrchestrationDir::Goal),
                OrchestrationDir::Goal => CopyDataStep::WriteChat,
            },
            CopyDataStep::WriteChat => if c.options.fork_filter {
                CopyDataStep::WriteEmptyTranscript
            } else {
                CopyDataStep::CopyTranscript
            },
            _ => c.next_sidecar(0),
        };
        c.step = next;
        c
    }

    fn after_sidecar(self, copied: bool) -> (r: CopyData)
        requires
            self.wf(),
            self.step is CopySidecar,
        ensures
            self.leads_to(CopyDataEvent::SidecarCopied(Ok(copied)), r),
            r.wf(),
    {
        let mut c = self;
        if let CopyDataStep::CopySidecar(sidecar) = c.step {
            match sidecar {
                Sidecar::Plan => {
                    c.result.plan_state_copied = copied;
                    c.step = c.next_sidecar(1);
                },
                Sidecar::Signals => {
                    c.result.signals_copied = copied;
                    c.step = c.next_sidecar(2);
                },
                Sidecar::PlanModeState => {
                    c.result.plan_mode_state_copied = copied;
                    c.step = c.next_sidecar(3);
                },
                Sidecar::ToolState => {
                    c.result.tool_state_copied = copied;
                    c.step = c.next_sidecar(4);
                },
                Sidecar::AnnouncementState => {
                    c.result.announcement_state_copied = copied;
                    c.step = c.next_sidecar(5);
                },
            }
        }
        c
    }

    fn after_count(self, n: usize) -> (r: CopyData)
        requires
            self.wf(),
            self.fits(CopyDataEvent::Counted(Ok(n))),
        ensures
            self.leads_to(CopyDataEvent::Counted(Ok(n)), r),
            r.wf(),
    {
        let mut c = self;
        let segments = match &c.step {
            CopyDataStep::CopySegments => true,
            _ => false,
        };
        if segments {
            c.result.compaction_segments_copied = n;
            c.step = CopyDataStep::CopyCheckpoints;
        } else {
            c.result.compaction_checkpoints_copied = n;
            c.step = if c.from_root {
                CopyDataStep::Publish
            } else {
                CopyDataStep::Finished(Ok(c.result))
            };
        }
        c
    }

    fn fail(self, e: IoError) -> (r: CopyData)
        requires
            self.wf(),
        ensures
            r == self.failed(e),
            r.wf(),
    {
        let mut c = self;
        c.step = CopyDataStep::Finished(Err(e));
        c
    }

    fn after_failure(self, e: IoError) -> (r: CopyData)
        requires
            self.wf(),
            self.fits(CopyDataEvent::Done(Err(e))),
        ensures
            self.leads_to(CopyDataEvent::Done(Err(e)), r),
            r.wf(),
    {
        let removing = match &self.step {
            CopyDataStep::RemoveDir(_) => true,
            _ => false,
        };
        if removing && e.kind == ErrorKind::NotFound {
            self.after_done()
        } else {
            self.fail(e)
        }
    }

    fn after_summary(self, summary: Summary) -> (r: CopyData)
        requires
            self.wf(),
            self.step is ReadSummary,
        ensures
            self.leads_to(CopyDataEvent::SummaryRead(Ok(summary)), r),
            r.wf(),
    {
        let mut c = self;
        c.source_summary = Some(summary);
        c.step = CopyDataStep::ReadChat;
        c
    }

    fn after_chat(self, chat: ChatFacts) -> (r: CopyData)
        requires
            self.wf(),
            self.step is ReadChat,
        ensures
            self.leads_to(CopyDataEvent::ChatRead(Ok(chat)), r),
            r.wf(),
    {
        let mut c = self;
        c.chat = chat;
        c.result.chat_messages_copied = chat.len;
        c.step = CopyDataStep::RemoveDir(OrchestrationDir::Workflows);
        c
    }

    fn after_publication(self, outcome: Result<(), CopyFinalizeError>, shown_parent: String) -> (r:
        CopyData)
        requires
            self.wf(),
            self.step is Publish,
        ensures
            self.leads_to(CopyDataEvent::Published { outcome, shown_parent }, r),
            r.wf(),
    {
        let mut c = self;
        c.step = CopyDataStep::Finished(
            reconcile_copy_publication(c.result, outcome, shown_parent.as_str()),
        );
        c
    }

    /// Takes in what happened.
    pub fn step(self, event: CopyDataEvent) -> (r: CopyData)
        requires
            self.wf(),
            self.fits(event),
        ensures
            self.leads_to(event, r),
            r.wf(),
    {
        match event {
            CopyDataEvent::Done(Ok(_)) => self.after_done(),
            CopyDataEvent::Done(Err(e)) => self.after_failure(e),
            CopyDataEvent::SummaryRead(Ok(summary)) => self.after_summary(summary),
            CopyDataEvent::SummaryRead(Err(e)) => self.fail(e),
            CopyDataEvent::ChatRead(Ok(chat)) => self.after_chat(chat),
            CopyDataEvent::ChatRead(Err(e)) => self.fail(e),
            CopyDataEvent::EmptyTranscriptWritten(Ok(stamp)) => self.make_summary(
                CopiedUpdates { count: 0, checkpoint_files: Vec::new() },
                stamp,
            ),
            CopyDataEvent::EmptyTranscriptWritten(Err(e)) => self.fail(e),
            CopyDataEvent::TranscriptCopied(Ok((copied, stamp))) => self.make_summary(copied, stamp),
            CopyDataEvent::TranscriptCopied(Err(e)) => self.fail(e),
            CopyDataEvent::SidecarCopied(Ok(copied)) => self.after_sidecar(copied),
            CopyDataEvent::SidecarCopied(Err(e)) => self.fail(e),
            CopyDataEvent::Counted(Ok(n)) => self.after_count(n),
            CopyDataEvent::Counted(Err(e)) => self.fail(e),
            CopyDataEvent::Published { outcome, shown_parent } => self.after_publication(
                outcome,
                shown_parent,
            ),
        }
    }
}

/// A copy is published only as its last step, after everything it was asked
/// for is in the stage; and a copy through the sessions root succeeds only by
/// being published.
pub proof fn publication_comes_last(old_copy: CopyData, event: CopyDataEvent, new_copy: CopyData)
    requires
        old_copy.wf(),
        old_copy.fits(event),
        old_copy.leads_to(event, new_copy),
    ensures
        new_copy.step is Publish ==> old_copy.step is CopyCheckpoints && event matches
            CopyDataEvent::Counted(Ok(_)),
        old_copy.step is Publish ==> new_copy.step is Finished,
        old_copy.from_root && (new_copy.step matches CopyDataStep::Finished(Ok(_)))
            ==> old_copy.step is Publish,
{
}

/// Whatever fails before publication ends the copy with that failure, except
/// that a directory to be removed may be missing.
pub proof fn failure_ends_the_copy(
    old_copy: CopyData,
    e: IoError,
    event: CopyDataEvent,
    new_copy: CopyData,
)
    requires
        old_copy.wf(),
        old_copy.fits(event),
        old_copy.leads_to(event, new_copy),
        event == CopyDataEvent::Done(Err(e)) || event == CopyDataEvent::SummaryRead(Err(e)) || event
            == CopyDataEvent::ChatRead(Err(e)) || event == CopyDataEvent::EmptyTranscriptWritten(
            Err(e),
        ) || event == CopyDataEvent::TranscriptCopied(Err(e)) || event
            == CopyDataEvent::SidecarCopied(Err(e)) || event == CopyDataEvent::Counted(Err(e)),
        !(old_copy.step is RemoveDir && e.kind == ErrorKind::NotFound),
    ensures
        new_copy.step == CopyDataStep::Finished(Err(e)),
{
}

} // verus!
