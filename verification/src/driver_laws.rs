//! What a driver can report: whatever comes of a step can be told to whoever
//! asked for it, and what has ended takes nothing in any more.

use vstd::prelude::*;

use crate::actor::{action_in, expects, Action, Event, Phase, SessionPersistence};
use crate::checkpoint::{CheckpointCopy, CheckpointEvent};
use crate::cleanup::{CleanupEvent, WalkState};
use crate::copy_data::{CopyData, CopyDataEvent, CopyDataStep};
use crate::copy_publish::{suits, CopyEvent, CopyStep};
use crate::copying_laws::{switch_answer, SwitchWorld};
use crate::deletion::{delete_fits, DeleteStep};
use crate::jsonl::{LinePass, PassEvent};
use crate::lease::{access_fits, claim_fits, AccessStep, ClaimStep};
use crate::load::{load_fits, Create, CreateEvent, CreateStep, LoadStep};
use crate::locking_laws::{access_answer, claim_answer, AccessWorld, ClaimWorld};
use crate::message::StorageOp;
use crate::model_switch::{switch_fits, SwitchStep};
use crate::opening_laws::{
    delete_answer, load_answer, pull_answer, DeleteWorld, LoadWorld, PullWorld,
};
use crate::publish::{fits, PublishEvent, PublishStep};
use crate::pull::{pull_fits, PullStep};
use crate::search::{search_fits, SearchEvent, SearchStep};
use crate::segments::{SegmentCopy, SegmentEvent};
use crate::stage::{stage_fits, StageEvent, StageStep};

verus! {

/// However the world is, its answer to a step of a load, a pull, a deletion, a
/// switch, a claim or an access can be reported; and there is nothing to report
/// to one that has ended.
pub proof fn every_answer_can_be_reported<P>(
    load: LoadWorld<P>,
    load_step: LoadStep<P>,
    pull: PullWorld,
    pull_step: PullStep,
    deletion: DeleteWorld,
    delete_step: DeleteStep,
    switch: SwitchWorld,
    switch_step: SwitchStep,
)
    ensures
        load_fits(load_step, load_answer(load, load_step)) <==> !(load_step is Finished),
        pull_fits(pull_step, pull_answer(pull, pull_step)) <==> !(pull_step is Finished),
        delete_fits(delete_step, delete_answer(deletion, delete_step)) <==> !(delete_step
            is Finished),
        switch_fits(switch_step, switch_answer(switch, switch_step)) <==> !(switch_step
            is Finished),
{
}

/// The same of whoever wants to get at a session or claims one.
pub proof fn every_lock_can_be_reported<D>(
    access: AccessWorld<D>,
    access_step: AccessStep<D>,
    claim: ClaimWorld<D>,
    claim_step: ClaimStep<D>,
)
    ensures
        access_fits(access_step, access_answer(access, access_step)) <==> !(access_step
            is Finished),
        claim_fits(claim_step, claim_answer(claim, claim_step)) <==> !(claim_step is Finished),
{
}

/// What a step of a publication leads to can be reported, success or failure:
/// what was read, what was compared, or that it is done.
pub proof fn publication_takes_every_report(step: PublishStep, event: PublishEvent)
    ensures
        fits(step, event) <==> match step {
            PublishStep::Finished(_) => false,
            PublishStep::ReadSummary => event is Summary,
            PublishStep::ReadCwdFile => event is Bytes,
            PublishStep::Verify(_) => event is Identity,
            _ => event is Done,
        },
{
}

/// Whether a step of a fork's publication is a question.
pub open spec fn asks(step: CopyStep) -> bool {
    ||| step is ProbeTarget || step is ProbeParent || step is ProbeAfterOpen
    ||| step is ProbeAfterRename || step is ProbeAfterContainer || step is ProbeParentTaken
    ||| step is ProbeBeforeChild || step is ProbeAfterJoin || step is ProbeAfterJoinedRename
}

/// The same of the publication of a fork: a question is answered, a file read, a
/// directory compared, and anything else done or not.
pub proof fn fork_publication_takes_every_report(step: CopyStep, event: CopyEvent)
    ensures
        suits(step, event) <==> if step is Finished {
            false
        } else if asks(step) {
            event is Flag
        } else if step is ReadCwdFile || step is ReadJoinedCwdFile {
            event is Bytes
        } else if step is CheckRoot || step is CheckSessions || step is Verify {
            event is Compared
        } else {
            event is Done
        },
{
}

/// The same of the building of a stage.
pub proof fn stage_takes_every_report(step: StageStep, event: StageEvent)
    ensures
        stage_fits(step, event) <==> if step is Finished {
            false
        } else if step is ProbeNamespace || step is ProbeTarget {
            event is Flag
        } else {
            event is Done
        },
{
}

/// The same of the making of a session.
pub proof fn making_takes_every_report(c: Create, event: CreateEvent)
    ensures
        c.fits(event) <==> match c.step {
            CreateStep::Finished(_) => false,
            CreateStep::InitSession => event is Initialized,
            CreateStep::TouchWorktree => event is Touched,
            _ => event is Done,
        },
{
}

/// The same of a copy, of its checkpoints and of its archive.
pub proof fn copy_takes_every_report(
    c: CopyData,
    event: CopyDataEvent,
    checkpoints: CheckpointCopy,
    checkpoint_event: CheckpointEvent,
    segments: SegmentCopy,
    segment_event: SegmentEvent,
)
    ensures
        c.fits(event) <==> match c.step {
            CopyDataStep::Finished(_) => false,
            CopyDataStep::ReadSummary => event is SummaryRead,
            CopyDataStep::ReadChat => event is ChatRead,
            CopyDataStep::WriteEmptyTranscript => event is EmptyTranscriptWritten,
            CopyDataStep::CopyTranscript => event is TranscriptCopied,
            CopyDataStep::CopySidecar(_) => event is SidecarCopied,
            CopyDataStep::CopySegments => event is Counted,
            CopyDataStep::CopyCheckpoints => event is Counted,
            CopyDataStep::Publish => event is Published,
            _ => event is Done,
        },
        checkpoints.fits(checkpoint_event) <==> {
            ||| checkpoints.step is ProbeDir && checkpoint_event is Dir
            ||| checkpoints.step is ProbeFile && checkpoint_event is File
            ||| checkpoints.step is CopyFile && checkpoint_event is Copied
        },
        segments.copied < usize::MAX ==> (segments.fits(segment_event) <==> {
            ||| segments.step is ProbeDir && segment_event is Dir
            ||| segments.step is NextEntry && segment_event is Entry
            ||| (segments.step is CreateDir || segments.step is ListDir || segments.step
                is CopyEntry) && segment_event is Done
        }),
{
}

/// The same of a walk, of a pass over a transcript and of a search.
pub proof fn walk_takes_every_report<R>(
    walk: WalkState,
    event: CleanupEvent,
    pass: LinePass,
    pass_event: PassEvent,
    search: SearchStep<R>,
    search_event: SearchEvent<R>,
)
    ensures
        walk.fits(event) <==> {
            ||| walk.step is Open && event is Opened
            ||| walk.step is NextEntry && (event is Entry || event is NoMoreEntries)
            ||| walk.step is RemoveFile && event is FileRemoved
            ||| walk.step is Lease && event is Leased
            ||| walk.step is RemoveDir && event is DirRemoved
        },
        pass.reader.index < usize::MAX ==> (pass.fits(pass_event) <==> {
            ||| pass.step is Call && pass_event is Called
            ||| pass.step is Read && !(pass_event is Called)
        }),
        search is Poll ==> (search_fits(search, search_event) <==> search_event is Polled),
        search is Sleep ==> (search_fits(search, search_event) <==> search_event is Slept),
        search is Query ==> (search_fits(search, search_event) <==> search_event is Queried),
        search is RequestAgain ==> (search_fits(search, search_event) <==> search_event
            is Requested),
        search is ReadProgress ==> (search_fits(search, search_event) <==> search_event
            is Progress),
        search is Finished ==> !search_fits(search, search_event),
        search is RequestBootstrap ==> (search_event matches SearchEvent::Requested { now_ms }
            && now_ms <= u64::MAX - 5000) ==> search_fits(search, search_event),
{
}

/// What comes of what the actor asks for can be reported to it: a message or the
/// end of all messages where it listens, and else how it went.
pub proof fn actor_takes_every_report<P, R, G>(
    s: SessionPersistence<P, R, G>,
    event: Event<P, R, G>,
)
    requires
        s.wf(),
    ensures
        action_in(s.phase) is Receive ==> (expects(s.phase, event) <==> event is Message || event
            is Closed),
        action_in(s.phase) is AwaitPublished ==> (expects(s.phase, event) <==> event is Gate),
        action_in(s.phase) is ConvertClaim ==> (expects(s.phase, event) <==> event is Lease),
        action_in(s.phase) is AbortGateAndJoinThreads ==> (expects(s.phase, event) <==> event
            is ThreadsExited),
        action_in(s.phase) is ConnectRemote ==> (expects(s.phase, event) <==> event is Connected),
        action_in(s.phase) is Stop ==> !expects(s.phase, event),
        action_in(s.phase) matches Action::Perform(op) ==> (expects(s.phase, event) <==> match op {
            StorageOp::AppendUpdate => event is Appended,
            StorageOp::AppendUpdateDurable => event is Appended,
            StorageOp::LoadSession => event is Loaded,
            StorageOp::CopySessionDir => event is Payload,
            StorageOp::AppendCwdSwitch => event is Payload,
            StorageOp::SetGeneratedTitleIfAbsent => event is Title,
            StorageOp::CommitModelSwitch => event is ModelSwitch,
            _ => event is Done,
        }),
{
}

/// The actor asks for what its phase is about: it listens when it is ready or
/// sealed, waits for an armed publication to be decided, and writes what is in
/// flight.
pub proof fn actor_asks_for_what_it_needs<P, R, G>(phase: Phase<P, R, G>)
    ensures
        phase is Receiving || phase is Sealed ==> action_in(phase) is Receive,
        phase is AwaitingGate ==> action_in(phase) is AwaitPublished,
        phase is Downgrading || phase is Retaining ==> action_in(phase) is ConvertClaim,
        phase is Joining ==> action_in(phase) is AbortGateAndJoinThreads,
        phase is Deleting ==> action_in(phase) == Action::Perform(StorageOp::DeleteSession),
        phase is Writing || phase is Draining || phase is Closing ==> action_in(phase)
            == Action::Perform(StorageOp::AppendUpdate),
        phase is WritingDurably ==> action_in(phase) == Action::Perform(
            StorageOp::AppendUpdateDurable,
        ),
        phase is Syncing ==> action_in(phase) == Action::Perform(StorageOp::SyncSessionFiles),
        phase is Copying ==> action_in(phase) == Action::Perform(StorageOp::CopySessionDir),
        phase is Loading ==> action_in(phase) == Action::Perform(StorageOp::LoadSession),
        phase is Connecting ==> action_in(phase) is ConnectRemote,
        phase is Stopped ==> action_in(phase) is Stop,
{
}

} // verus!
