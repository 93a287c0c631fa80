//! What a publication has seen to before it is reported as done.
//!
//! Each step that succeeds shows something. The laws say what must have been
//! shown before a stage is built, before a rename is tried, and before a session
//! is reported as published; and that nothing but a failure keeps a publication
//! from its end.

use vstd::prelude::*;
use vstd::string::*;
use vstd::utf8::encode_utf8;

use crate::copy_publish::{
    copied_by, suits, Compared, CopyEvent, CopyFault, CopyFinalizeError, CopyPublication, CopyStep,
    Place,
};
use crate::io_error::{ErrorKind, IoError};
use crate::naming::{percent_encoded, PathStyle};
use crate::publish::{
    fits, published_by, Fault, FinalizeError, Level, Publication, PublishEvent, PublishStep,
};
use crate::stage::{
    first_step, stage_after, stage_fits, texts, Cleanup, Flow, StageEvent, StageFault, StageRequest,
    StageStep,
};

verus! {

/// Whether the name of a cwd directory does not tell its working directory.
pub open spec fn name_is_not_enough(parent_name: Seq<char>, cwd: Seq<char>) -> bool {
    parent_name != percent_encoded(encode_utf8(cwd))
}

/// The levels of the canonical path, from the root on.
pub open spec fn depth(level: Level) -> int {
    match level {
        Level::Root => 0,
        Level::Sessions => 1,
        Level::Parent => 2,
        Level::Session => 3,
    }
}

// Fresh and imported sessions.

/// What a publication has shown so far.
#[verifier::ext_equal]
pub struct Shown {
    /// The staged summary is there and valid.
    pub summary: bool,
    /// The marker of an unpublished session is gone.
    pub unmarked: bool,
    /// The stage is on disk.
    pub staged: bool,
    /// The existing cwd directory says that it stands for this directory.
    pub cwd_read: bool,
    /// The new cwd directory says which directory it stands for.
    pub cwd_written: bool,
    /// The session was renamed into an existing cwd directory.
    pub moved_in: bool,
    /// The container became the cwd directory.
    pub moved_whole: bool,
    /// The levels at which the canonical path leads to what was published.
    pub reached: Set<int>,
    /// How many of the published directories are on disk.
    pub durable: int,
}

pub open spec fn nothing_shown() -> Shown {
    Shown {
        summary: false,
        unmarked: false,
        staged: false,
        cwd_read: false,
        cwd_written: false,
        moved_in: false,
        moved_whole: false,
        reached: Set::empty(),
        durable: 0,
    }
}

/// What is shown once `event` has come of the step of `p`.
pub open spec fn shown_by(g: Shown, p: Publication, event: PublishEvent) -> Shown {
    match (p.step, event) {
        (PublishStep::ReadSummary, PublishEvent::Summary(Ok(_))) => Shown { summary: true, ..g },
        (PublishStep::RemoveMarker, PublishEvent::Done(Ok(_))) => Shown { unmarked: true, ..g },
        (PublishStep::SyncStage, PublishEvent::Done(Ok(_))) => Shown { staged: true, ..g },
        (PublishStep::ReadCwdFile, PublishEvent::Bytes(Ok(bytes))) => Shown {
            cwd_read: bytes@ == encode_utf8(p.cwd@),
            ..g
        },
        (PublishStep::WriteCwdFile, PublishEvent::Done(Ok(_))) => Shown { cwd_written: true, ..g },
        (PublishStep::RenameSession, PublishEvent::Done(Ok(_))) => Shown { moved_in: true, ..g },
        (PublishStep::RenameContainer, PublishEvent::Done(Ok(_))) => Shown {
            moved_whole: true,
            ..g
        },
        (PublishStep::Verify(level), PublishEvent::Identity(Ok(true))) => Shown {
            reached: g.reached.insert(depth(level)),
            ..g
        },
        (PublishStep::SyncPublished, PublishEvent::Done(Ok(_))) => Shown { durable: 1, ..g },
        (PublishStep::SyncSession, PublishEvent::Done(Ok(_))) => Shown {
            durable: g.durable + 1,
            ..g
        },
        (PublishStep::SyncParent, PublishEvent::Done(Ok(_))) => Shown {
            durable: g.durable + 1,
            ..g
        },
        (PublishStep::SyncSessions, PublishEvent::Done(Ok(_))) => Shown {
            durable: g.durable + 1,
            ..g
        },
        _ => g,
    }
}

/// Whether the stage is fit to be renamed.
pub open spec fn fit_to_move(g: Shown) -> bool {
    g.summary && g.unmarked && g.staged
}

/// Whether the session was moved, and stands where its cwd directory says.
pub open spec fn moved(p: Publication, g: Shown) -> bool {
    let needed = name_is_not_enough(p.parent_name@, p.cwd@);
    &&& fit_to_move(g)
    &&& (g.moved_in && (needed ==> g.cwd_read)) || (g.moved_whole && (needed ==> g.cwd_written))
}

/// Whether the canonical path was followed down to a level, that level left out.
pub open spec fn followed_to(reached: Set<int>, n: int) -> bool {
    forall|i: int| 0 <= i < n ==> #[trigger] reached.contains(i)
}

/// Whether a publication may be where it is, by what it has shown.
pub open spec fn grounded(p: Publication, g: Shown) -> bool {
    let needed = name_is_not_enough(p.parent_name@, p.cwd@);
    match p.step {
        PublishStep::ReadSummary => true,
        PublishStep::RemoveMarker => g.summary,
        PublishStep::SyncStage => g.summary && g.unmarked,
        PublishStep::RenameSession => fit_to_move(g) && (needed ==> g.cwd_read),
        PublishStep::RenameContainer => fit_to_move(g) && (needed ==> g.cwd_written),
        PublishStep::RemoveContainer => moved(p, g),
        PublishStep::OpenPublishedSession => moved(p, g),
        PublishStep::Verify(level) => moved(p, g) && followed_to(g.reached, depth(level)),
        PublishStep::SyncPublished => moved(p, g) && followed_to(g.reached, 4),
        PublishStep::SyncSession => moved(p, g) && followed_to(g.reached, 4) && g.durable == 1,
        PublishStep::SyncParent => moved(p, g) && followed_to(g.reached, 4) && g.durable == 2,
        PublishStep::SyncSessions => moved(p, g) && followed_to(g.reached, 4) && g.durable == 3,
        PublishStep::Finished(Ok(_)) => moved(p, g) && followed_to(g.reached, 4) && g.durable == 4,
        PublishStep::Finished(Err(FinalizeError::NotCommitted(_))) => true,
        PublishStep::Finished(Err(_)) => moved(p, g),
        _ => fit_to_move(g),
    }
}

/// A publication goes on only on the grounds that it has: a stage is renamed
/// only with its summary read, its marker gone and itself on disk, and only
/// where the cwd directory says what it stands for; and a session is reported
/// as published only if it was renamed, all of the canonical path leads to it,
/// and all directories on the way are on disk.
pub proof fn publication_goes_on_its_grounds(p: Publication, g: Shown, event: PublishEvent)
    requires
        p.wf(),
        fits(p.step, event),
        grounded(p, g),
    ensures
        grounded(published_by(p, event), shown_by(g, p, event)),
{
}

/// A publication begins on no grounds, and needs none.
pub proof fn publication_begins_on_no_grounds(p: Publication, fork: CopyPublication)
    requires
        p.step is ReadSummary,
        fork.step is ProbeTarget,
    ensures
        grounded(p, nothing_shown()),
        fork_grounded(fork, fork_nothing_shown()),
{
}

/// Where a publication is in the order of its steps.
pub open spec fn steps_left(step: PublishStep) -> int {
    match step {
        PublishStep::ReadSummary => 30,
        PublishStep::RemoveMarker => 29,
        PublishStep::SyncStage => 28,
        PublishStep::OpenRoot => 27,
        PublishStep::CreateSessions => 26,
        PublishStep::OpenSessions => 25,
        PublishStep::OpenParent => 24,
        PublishStep::WriteCwdFile => 23,
        PublishStep::RenameContainer => 22,
        PublishStep::ReopenStagedSession => 21,
        PublishStep::ReopenParent => 20,
        PublishStep::ReadCwdFile => 19,
        PublishStep::RenameSession => 18,
        PublishStep::RemoveContainer => 17,
        PublishStep::OpenPublishedSession => 16,
        PublishStep::Verify(level) => 15 - depth(level),
        PublishStep::SyncPublished => 10,
        PublishStep::SyncSession => 9,
        PublishStep::SyncParent => 8,
        PublishStep::SyncSessions => 7,
        PublishStep::Finished(_) => 0,
    }
}

/// Whether an event is no obstacle: a step that succeeded, a directory that is
/// there already or not there yet, a race for the cwd directory that was lost,
/// or a container that stays behind.
pub open spec fn no_obstacle(p: Publication, event: PublishEvent) -> bool {
    match event {
        PublishEvent::Summary(r) => r is Ok && p.session_held,
        PublishEvent::Done(Ok(_)) => true,
        PublishEvent::Done(Err(e)) => {
            ||| p.step is CreateSessions && e.kind == ErrorKind::AlreadyExists
            ||| p.step is OpenParent && e.kind == ErrorKind::NotFound && p.container_held
            ||| p.step is RenameContainer && e.kind == ErrorKind::AlreadyExists
            ||| p.step is RemoveContainer
        },
        PublishEvent::Bytes(r) => r matches Ok(bytes) && bytes@ == encode_utf8(p.cwd@),
        PublishEvent::Identity(r) => r matches Ok(true),
    }
}

/// Without an obstacle a publication comes closer to its end, and its end is a
/// published session.
pub proof fn publication_gets_on(p: Publication, event: PublishEvent)
    requires
        p.wf(),
        fits(p.step, event),
        no_obstacle(p, event),
    ensures
        steps_left(published_by(p, event).step) < steps_left(p.step),
        steps_left(published_by(p, event).step) >= 0,
        published_by(p, event).step is Finished ==> published_by(p, event).step
            == PublishStep::Finished(Ok(())),
{
}

/// An obstacle ends a publication, and the outcome says which it was: the
/// failure itself; another directory in the cwd file; a level at which the path
/// leads elsewhere; or a handle that is gone. Where the rename was made, a
/// failure to reach it and a failure to make it durable are told apart.
pub proof fn obstacle_is_told(p: Publication, event: PublishEvent)
    requires
        p.wf(),
        fits(p.step, event),
        !no_obstacle(p, event),
    ensures
        published_by(p, event).step matches PublishStep::Finished(Err(outcome)) && {
            &&& match event {
                PublishEvent::Summary(Ok(_)) => outcome.fault() is StageConsumed,
                PublishEvent::Summary(Err(e)) => outcome.fault() == Fault::Io(e),
                PublishEvent::Bytes(Ok(_)) => outcome.fault() is CwdMismatch,
                PublishEvent::Bytes(Err(e)) => outcome.fault() == Fault::Io(e),
                PublishEvent::Identity(Ok(_)) => outcome.fault() == Fault::Moved(p.step->Verify_0),
                PublishEvent::Identity(Err(e)) => outcome.fault() == Fault::Io(e),
                PublishEvent::Done(Err(e)) => if p.step is OpenParent && e.kind
                    == ErrorKind::NotFound {
                    outcome.fault() is ContainerConsumed
                } else {
                    outcome.fault() == Fault::Io(e)
                },
                PublishEvent::Done(Ok(_)) => false,
            }
            &&& outcome is CommittedIdentity <==> p.step is OpenPublishedSession || p.step is Verify
            &&& outcome is CommittedDurability <==> p.step is SyncPublished || p.step is SyncSession
                || p.step is SyncParent || p.step is SyncSessions
        },
{
}

// Forks.

/// What the publication of a fork has shown so far.
#[verifier::ext_equal]
pub struct ForkShown {
    /// Nothing stands at the fork's path.
    pub free: bool,
    /// The canonical root is the one held.
    pub root: bool,
    /// The canonical sessions directory is the one held.
    pub sessions: bool,
    /// The staged files are on disk.
    pub tree: bool,
    /// The cwd directory says, or was made to say, what it stands for.
    pub cwd_known: bool,
    pub unmarked: bool,
    pub staged: bool,
    pub moved: bool,
    /// The levels at which the canonical path leads to the fork.
    pub reached: Set<int>,
    /// The same, once everything is on disk.
    pub reached_again: Set<int>,
    /// How many of the directories are on disk.
    pub durable: int,
}

pub open spec fn fork_nothing_shown() -> ForkShown {
    ForkShown {
        free: false,
        root: false,
        sessions: false,
        tree: false,
        cwd_known: false,
        unmarked: false,
        staged: false,
        moved: false,
        reached: Set::empty(),
        reached_again: Set::empty(),
        durable: 0,
    }
}

/// What is shown once `event` has come of the step of `p`.
pub open spec fn fork_shown_by(g: ForkShown, p: CopyPublication, event: CopyEvent) -> ForkShown {
    match (p.step, event) {
        (CopyStep::ProbeTarget, CopyEvent::Flag(false)) => ForkShown { free: true, ..g },
        (CopyStep::CheckRoot, CopyEvent::Compared(Compared::Same(true))) => ForkShown {
            root: true,
            ..g
        },
        (CopyStep::CheckSessions, CopyEvent::Compared(Compared::Same(true))) => ForkShown {
            sessions: true,
            ..g
        },
        (CopyStep::SyncTree, CopyEvent::Done(Ok(_))) => ForkShown { tree: true, ..g },
        (CopyStep::ReadCwdFile, CopyEvent::Bytes(Ok(bytes))) => ForkShown {
            cwd_known: bytes@ == encode_utf8(p.cwd@),
            ..g
        },
        (CopyStep::ReadJoinedCwdFile, CopyEvent::Bytes(Ok(bytes))) => ForkShown {
            cwd_known: bytes@ == encode_utf8(p.cwd@),
            ..g
        },
        // Another directory than the one before is looked for from here on.
        (CopyStep::RenameContainer, CopyEvent::Done(Err(_))) => ForkShown { cwd_known: false, ..g },
        (CopyStep::WriteCwdFile, CopyEvent::Done(Ok(_))) => ForkShown { cwd_known: true, ..g },
        (CopyStep::WriteParentCwdFile, CopyEvent::Done(Ok(_))) => ForkShown {
            cwd_known: true,
            ..g
        },
        (CopyStep::RemoveMarker, CopyEvent::Done(Ok(_))) => ForkShown { unmarked: true, ..g },
        (CopyStep::RemoveMarkerInContainer, CopyEvent::Done(Ok(_))) => ForkShown {
            unmarked: true,
            ..g
        },
        (CopyStep::SyncStage, CopyEvent::Done(Ok(_))) => ForkShown { staged: true, ..g },
        (CopyStep::SyncStageInContainer, CopyEvent::Done(Ok(_))) => ForkShown { staged: true, ..g },
        (CopyStep::Rename, CopyEvent::Done(Ok(_))) => ForkShown { moved: true, ..g },
        (CopyStep::RenameContainer, CopyEvent::Done(Ok(_))) => ForkShown { moved: true, ..g },
        (CopyStep::RenameChild, CopyEvent::Done(Ok(_))) => ForkShown { moved: true, ..g },
        (CopyStep::PathPublish, CopyEvent::Done(Ok(_))) => ForkShown { moved: true, ..g },
        (CopyStep::RenameJoined, CopyEvent::Done(Ok(_))) => ForkShown { moved: true, ..g },
        (
            CopyStep::Verify { level, last: false },
            CopyEvent::Compared(Compared::Same(true)),
        ) => ForkShown { reached: g.reached.insert(depth(level)), ..g },
        (
            CopyStep::Verify { level, last: true },
            CopyEvent::Compared(Compared::Same(true)),
        ) => ForkShown { reached_again: g.reached_again.insert(depth(level)), ..g },
        (CopyStep::SyncStaging, CopyEvent::Done(Ok(_))) => ForkShown { durable: 1, ..g },
        (CopyStep::SyncParent, CopyEvent::Done(Ok(_))) => ForkShown { durable: g.durable + 1, ..g },
        (CopyStep::SyncSessions, CopyEvent::Done(Ok(_))) => ForkShown {
            durable: g.durable + 1,
            ..g
        },
        (CopyStep::SyncAfterCommit, CopyEvent::Done(Ok(_))) => ForkShown {
            durable: g.durable + 1,
            ..g
        },
        _ => g,
    }
}

/// Whether the place and the files of the fork are known to be right.
pub open spec fn fork_ready(g: ForkShown) -> bool {
    g.free && g.root && g.sessions && g.tree
}

/// Whether the stage of the fork is fit to be renamed.
pub open spec fn fork_fit_to_move(g: ForkShown) -> bool {
    fork_ready(g) && g.unmarked && g.staged
}

pub open spec fn fork_moved(p: CopyPublication, g: ForkShown) -> bool {
    &&& fork_fit_to_move(g)
    &&& g.moved
    &&& name_is_not_enough(p.parent_name@, p.cwd@) ==> g.cwd_known
}

/// Whether the publication of a fork may be where it is, by what it has shown.
pub open spec fn fork_grounded(p: CopyPublication, g: ForkShown) -> bool {
    let needed = name_is_not_enough(p.parent_name@, p.cwd@);
    match p.step {
        CopyStep::ProbeTarget => true,
        CopyStep::CheckRoot => g.free,
        CopyStep::CheckSessions => g.free && g.root,
        CopyStep::SyncTree => g.free && g.root && g.sessions,
        CopyStep::ProbeParent => fork_ready(g),
        CopyStep::OpenParent { .. } => fork_ready(g),
        CopyStep::ProbeAfterOpen { .. } => fork_ready(g),
        CopyStep::ReadCwdFile => fork_ready(g),
        CopyStep::RemoveMarker => fork_ready(g) && (needed ==> g.cwd_known),
        CopyStep::SyncStage => fork_ready(g) && g.unmarked && (needed ==> g.cwd_known),
        CopyStep::Rename => fork_fit_to_move(g) && (needed ==> g.cwd_known),
        CopyStep::WriteCwdFile => fork_ready(g),
        CopyStep::RemoveMarkerInContainer => fork_ready(g) && (needed ==> g.cwd_known),
        CopyStep::SyncStageInContainer => fork_ready(g) && g.unmarked && (needed ==> g.cwd_known),
        CopyStep::RenameContainer => fork_fit_to_move(g) && (needed ==> g.cwd_known),
        CopyStep::ProbeBeforeChild => fork_fit_to_move(g) && (needed ==> g.cwd_known),
        CopyStep::RenameChild => fork_fit_to_move(g) && (needed ==> g.cwd_known),
        CopyStep::PathPublish => fork_fit_to_move(g) && (needed ==> g.cwd_known),
        CopyStep::RenameJoined => fork_fit_to_move(g) && (needed ==> g.cwd_known),
        CopyStep::OpenPublished => fork_moved(p, g),
        CopyStep::ReopenPublished => fork_moved(p, g),
        CopyStep::Verify { level, last: false } => fork_moved(p, g) && followed_to(
            g.reached,
            depth(level),
        ),
        CopyStep::RemoveContainer => fork_moved(p, g) && followed_to(g.reached, 4),
        CopyStep::SyncStaging => fork_moved(p, g) && followed_to(g.reached, 4),
        CopyStep::SyncParent => fork_moved(p, g) && followed_to(g.reached, 4) && g.durable == 1,
        CopyStep::SyncSessions => fork_moved(p, g) && followed_to(g.reached, 4) && g.durable == 2,
        CopyStep::Verify { level, last: true } => fork_moved(p, g) && followed_to(g.reached, 4)
            && g.durable == 3 && followed_to(g.reached_again, depth(level)),
        CopyStep::SyncAfterCommit => fork_moved(p, g) && followed_to(g.reached, 4) && followed_to(
            g.reached_again,
            4,
        ) && g.durable == 3,
        CopyStep::Finished(Ok(_)) => fork_moved(p, g) && followed_to(g.reached, 4) && followed_to(
            g.reached_again,
            4,
        ) && g.durable == 4,
        CopyStep::Finished(Err(CopyFinalizeError::NotCommitted(_))) => true,
        CopyStep::Finished(Err(_)) => fork_moved(p, g),
        CopyStep::ProbeAfterRename { .. } => fork_fit_to_move(g),
        _ => fork_fit_to_move(g),
    }
}

/// The publication of a fork goes on only on the grounds that it has: it is
/// renamed only to a free place under the directories that are held, on disk
/// and without its marker, where the cwd directory says what it stands for; and
/// it is reported as published only if the canonical path leads to it, before
/// and after everything was made durable.
pub proof fn fork_publication_goes_on_its_grounds(p: CopyPublication, g: ForkShown, event: CopyEvent)
    requires
        p.wf(),
        suits(p.step, event),
        fork_grounded(p, g),
    ensures
        fork_grounded(copied_by(p, event), fork_shown_by(g, p, event)),
{
}

/// Where the publication of a fork is in the order of its steps.
pub open spec fn fork_steps_left(step: CopyStep) -> int {
    match step {
        CopyStep::ProbeTarget => 60,
        CopyStep::CheckRoot => 59,
        CopyStep::CheckSessions => 58,
        CopyStep::SyncTree => 57,
        CopyStep::ProbeParent => 56,
        CopyStep::OpenParent { .. } => 55,
        CopyStep::ProbeAfterOpen { .. } => 54,
        CopyStep::ReadCwdFile => 53,
        CopyStep::RemoveMarker => 52,
        CopyStep::SyncStage => 51,
        CopyStep::Rename => 50,
        CopyStep::ProbeAfterRename { .. } => 49,
        CopyStep::WriteCwdFile => 48,
        CopyStep::RemoveMarkerInContainer => 47,
        CopyStep::SyncStageInContainer => 46,
        CopyStep::RenameContainer => 45,
        CopyStep::ProbeAfterContainer => 44,
        CopyStep::ProbeParentTaken => 43,
        CopyStep::ReopenStaged { .. } => 42,
        CopyStep::CreateParent => 41,
        CopyStep::OpenCreatedParent => 40,
        CopyStep::CreateDirAll => 39,
        CopyStep::OpenParentByPath => 38,
        CopyStep::WriteParentCwdFile => 37,
        CopyStep::ProbeBeforeChild => 36,
        CopyStep::RenameChild => 35,
        CopyStep::PathPublish => 34,
        CopyStep::ReopenPublished => 33,
        CopyStep::JoinParent => 32,
        CopyStep::ProbeAfterJoin { .. } => 31,
        CopyStep::ReadJoinedCwdFile => 30,
        CopyStep::RenameJoined => 29,
        CopyStep::ProbeAfterJoinedRename { .. } => 28,
        CopyStep::OpenPublished => 27,
        CopyStep::Verify { level, last: false } => 26 - depth(level),
        CopyStep::RemoveContainer => 20,
        CopyStep::SyncStaging => 19,
        CopyStep::SyncParent => 18,
        CopyStep::SyncSessions => 17,
        CopyStep::Verify { level, last: true } => 16 - depth(level),
        CopyStep::SyncAfterCommit => 5,
        CopyStep::Finished(_) => 0,
    }
}

/// Whether an event is no obstacle to the publication of a fork: a step that
/// succeeded, a free place, a cwd directory that is not there yet, a container
/// that cannot become it, or a way of creating it for which there is another.
pub open spec fn fork_no_obstacle(p: CopyPublication, event: CopyEvent) -> bool {
    &&& p.step is OpenParent ==> p.session_held && p.container_held
    &&& p.step is WriteCwdFile || p.step is ReadCwdFile ==> p.session_held
    &&& match event {
        CopyEvent::Flag(yes) => match p.step {
            CopyStep::ProbeTarget => !yes,
            CopyStep::ProbeParent => true,
            CopyStep::ProbeAfterContainer => !yes,
            CopyStep::ProbeParentTaken => true,
            CopyStep::ProbeBeforeChild => !yes,
            _ => false,
        },
        CopyEvent::Done(Ok(_)) => true,
        CopyEvent::Done(Err(e)) => {
            ||| p.step matches CopyStep::OpenParent { exists } && (e.kind == ErrorKind::NotFound
                || !exists)
            ||| p.step is RenameContainer
            ||| p.step is CreateParent
            ||| p.step is RenameChild
        },
        CopyEvent::Bytes(r) => r matches Ok(bytes) && bytes@ == encode_utf8(p.cwd@),
        CopyEvent::Compared(c) => c matches Compared::Same(true),
    }
}

/// Without an obstacle the publication of a fork comes closer to its end, and
/// its end is a published fork.
pub proof fn fork_publication_gets_on(p: CopyPublication, event: CopyEvent)
    requires
        p.wf(),
        suits(p.step, event),
        fork_no_obstacle(p, event),
    ensures
        fork_steps_left(copied_by(p, event).step) < fork_steps_left(p.step),
        fork_steps_left(copied_by(p, event).step) >= 0,
        copied_by(p, event).step is Finished ==> copied_by(p, event).step == CopyStep::Finished(
            Ok(()),
        ),
{
}

/// A fork never takes a place where something stands: whenever something is
/// found at its path before it was renamed, it is refused as a collision.
pub proof fn fork_replaces_nothing(p: CopyPublication)
    requires
        p.wf(),
        suits(p.step, CopyEvent::Flag(true)),
        !(p.step is ProbeParent) && !(p.step is ProbeParentTaken),
    ensures
        copied_by(p, CopyEvent::Flag(true)).step == CopyStep::Finished(
            Err(CopyFinalizeError::NotCommitted(CopyFault::Collision)),
        ),
{
}

/// What a failed publication of a fork tells: where the path leads elsewhere,
/// at which level, before or after the rename; and a failure to make a fork
/// durable is told from one to reach it.
pub proof fn fork_obstacle_is_told(p: CopyPublication, event: CopyEvent)
    requires
        p.wf(),
        suits(p.step, event),
    ensures
        event matches CopyEvent::Compared(Compared::Same(false)) ==> match p.step {
            CopyStep::CheckRoot => copied_by(p, event).step == CopyStep::Finished(
                Err(CopyFinalizeError::NotCommitted(CopyFault::ChangedBefore(Level::Root))),
            ),
            CopyStep::CheckSessions => copied_by(p, event).step == CopyStep::Finished(
                Err(CopyFinalizeError::NotCommitted(CopyFault::ChangedBefore(Level::Sessions))),
            ),
            CopyStep::Verify { level, .. } => copied_by(p, event).step == CopyStep::Finished(
                Err(CopyFinalizeError::CommittedUnreachable(CopyFault::ChangedAfter(level))),
            ),
            _ => false,
        },
        event matches CopyEvent::Done(Err(e)) ==> (p.step is RemoveContainer || p.step
            is SyncStaging || p.step is SyncParent || p.step is SyncSessions || p.step
            is SyncAfterCommit ==> copied_by(p, event).step == CopyStep::Finished(
            Err(CopyFinalizeError::CommittedDurability(CopyFault::Io(e))),
        )),
        event matches CopyEvent::Bytes(Ok(bytes)) ==> bytes@ != encode_utf8(p.cwd@) ==> {
            &&& copied_by(p, event).step matches CopyStep::Finished(
                Err(CopyFinalizeError::NotCommitted(CopyFault::CwdMismatch { .. })),
            )
        },
        copied_by(p, event).step matches CopyStep::Finished(
            Err(CopyFinalizeError::CommittedDurability(_)),
        ) ==> event matches CopyEvent::Done(Err(_)) && !(p.step is OpenPublished || p.step
            is ReopenPublished),
{
}

// Stages.

/// What the building of a stage has shown so far.
#[verifier::ext_equal]
pub struct StageShown {
    pub locked: bool,
    pub reclaimed: bool,
    pub sessions_open: bool,
    pub staging_open: bool,
    /// The session id is taken nowhere.
    pub namespace_free: bool,
    /// Nothing stands at the target.
    pub target_free: bool,
    /// How much of the stage stands: its container, that private, the session in
    /// it, that private, and the marker.
    pub built: int,
}

pub open spec fn stage_nothing_shown() -> StageShown {
    StageShown {
        locked: false,
        reclaimed: false,
        sessions_open: false,
        staging_open: false,
        namespace_free: false,
        target_free: false,
        built: 0,
    }
}

pub open spec fn stage_shown_by(g: StageShown, step: StageStep, event: StageEvent) -> StageShown {
    match (step, event) {
        (StageStep::LockTarget, StageEvent::Done(Ok(_))) => StageShown { locked: true, ..g },
        (StageStep::LockForCopy(_), StageEvent::Done(Ok(_))) => StageShown { locked: true, ..g },
        (StageStep::Reclaim, StageEvent::Done(Ok(_))) => StageShown { reclaimed: true, ..g },
        (StageStep::OpenSessions, StageEvent::Done(Ok(_))) => StageShown {
            sessions_open: true,
            ..g
        },
        (StageStep::OpenStaging, StageEvent::Done(Ok(_))) => StageShown { staging_open: true, ..g },
        (StageStep::ProbeNamespace, StageEvent::Flag(Ok(false))) => StageShown {
            namespace_free: true,
            ..g
        },
        (StageStep::ProbeTarget, StageEvent::Flag(Ok(false))) => StageShown {
            target_free: true,
            ..g
        },
        (StageStep::CreateContainer, StageEvent::Done(Ok(_))) => StageShown { built: 1, ..g },
        (StageStep::RestrictContainer, StageEvent::Done(Ok(_))) => StageShown {
            built: g.built + 1,
            ..g
        },
        (StageStep::CreateSession, StageEvent::Done(Ok(_))) => StageShown {
            built: g.built + 1,
            ..g
        },
        (StageStep::RestrictSession, StageEvent::Done(Ok(_))) => StageShown {
            built: g.built + 1,
            ..g
        },
        (StageStep::CreateMarker, StageEvent::Done(Ok(_))) => StageShown {
            built: g.built + 1,
            ..g
        },
        _ => g,
    }
}

/// Whether the target of a request lies two levels below the sessions root.
pub open spec fn lies_below_sessions(req: StageRequest) -> bool {
    let n = req.target@.len();
    &&& n == req.sessions_root@.len() + 2
    &&& forall|i: int|
        0 <= i < req.sessions_root@.len() ==> (#[trigger] req.target@[i])@
            == req.sessions_root@[i]@
}

/// Whether a request is in order: the target is a session directory of that
/// session below the sessions root. A fork has two different sessions, and goes
/// to the directory of its working directory.
pub open spec fn in_order(req: StageRequest) -> bool {
    let n = req.target@.len();
    &&& lies_below_sessions(req)
    &&& match req.flow {
        Flow::Fresh => req.target@[n - 1]@ == req.session_id@,
        Flow::Import => req.target@[n - 1]@ == req.session_id@ && !req.writer_busy,
        Flow::Copy => {
            &&& req.source_id@ != req.session_id@
            &&& req.source_id@.len() > 0 && req.session_id@.len() > 0
            &&& !req.session_id@.contains('/') && !req.source_id@.contains('/')
            &&& req.session_id@ != ".."@ && req.source_id@ != ".."@
            &&& req.target@[n - 2]@ == req.expected_parent@
        },
    }
}

proof fn placement(req: StageRequest)
    ensures
        crate::stage::below_sessions(req) == lies_below_sessions(req),
{
    let n = req.target@.len();
    if n >= 2 {
        let a = texts(req.target@.take(n - 2));
        let b = texts(req.sessions_root@);
        if lies_below_sessions(req) {
            assert forall|i: int| 0 <= i < b.len() implies a[i] == b[i] by {
                assert(req.target@.take(n - 2)[i] == req.target@[i]);
            }
            assert(a =~= b);
        }
        if a == b {
            assert(a.len() == b.len());
            assert forall|i: int| 0 <= i < req.sessions_root@.len() implies (
            #[trigger] req.target@[i])@ == req.sessions_root@[i]@ by {
                assert(req.target@.take(n - 2)[i] == req.target@[i]);
                assert(a[i] == req.target@[i]@);
                assert(b[i] == req.sessions_root@[i]@);
            }
        }
    }
}

/// Whether the building of a stage may be where it is, by what it has shown.
pub open spec fn stage_grounded(req: StageRequest, step: StageStep, g: StageShown) -> bool {
    let free = match req.flow {
        Flow::Fresh => g.locked && g.namespace_free,
        Flow::Import => g.namespace_free && g.target_free,
        Flow::Copy => g.locked && g.sessions_open && g.namespace_free && g.target_free,
    };
    let ready = free && g.reclaimed && g.staging_open && in_order(req);
    match step {
        StageStep::LockTarget => req.flow == Flow::Fresh,
        StageStep::LockForCopy(_) => req.flow == Flow::Copy && ids_in_order(req),
        StageStep::OpenStaging => match req.flow {
            Flow::Fresh => g.locked,
            Flow::Import => free && in_order(req),
            Flow::Copy => free && g.reclaimed && in_order(req),
        },
        StageStep::Reclaim => match req.flow {
            Flow::Fresh => g.locked && g.staging_open,
            Flow::Import => free && g.staging_open && in_order(req),
            Flow::Copy => g.locked && ids_in_order(req),
        },
        StageStep::OpenSessions => req.flow == Flow::Copy && g.locked && g.reclaimed
            && ids_in_order(req),
        StageStep::ProbeNamespace => match req.flow {
            Flow::Fresh => g.locked && g.staging_open && g.reclaimed,
            Flow::Import => in_order(req),
            Flow::Copy => g.locked && g.reclaimed && g.sessions_open && ids_in_order(req)
                && lies_below_sessions(req),
        },
        StageStep::ProbeTarget => match req.flow {
            Flow::Fresh => false,
            Flow::Import => in_order(req) && g.namespace_free,
            Flow::Copy => g.locked && g.reclaimed && g.sessions_open && g.namespace_free
                && ids_in_order(req) && lies_below_sessions(req),
        },
        StageStep::CreateContainer => ready,
        StageStep::RestrictContainer => ready && g.built == 1,
        StageStep::CreateSession => ready && g.built == 2,
        StageStep::RestrictSession => ready && g.built == 3,
        StageStep::CreateMarker => ready && g.built == 4,
        StageStep::Finished(Ok(_)) => ready && g.built == 5,
        StageStep::CleanUp(_, _) => ready && 1 <= g.built <= 4,
        StageStep::Finished(Err(_)) => true,
    }
}

/// Whether the ids of a fork are in order.
pub open spec fn ids_in_order(req: StageRequest) -> bool {
    &&& req.source_id@ != req.session_id@
    &&& req.source_id@.len() > 0 && req.session_id@.len() > 0
    &&& !req.session_id@.contains('/') && !req.source_id@.contains('/')
    &&& req.session_id@ != ".."@ && req.source_id@ != ".."@
}

/// A request starts on its grounds: a fork with ids that are in order, an import
/// with a target that is.
pub proof fn stage_starts_on_its_grounds(req: StageRequest)
    ensures
        stage_grounded(req, first_step(req), stage_nothing_shown()),
{
    placement(req);
}

/// A stage is built only where everything was seen to: the request is in order,
/// the session id and the target are free, the locks are held, and abandoned
/// stages are gone. It is reported as built only if all of it stands: a private
/// container, in it a private session, and in that the marker.
pub proof fn stage_is_built_on_its_grounds(
    req: StageRequest,
    step: StageStep,
    g: StageShown,
    event: StageEvent,
)
    requires
        stage_fits(step, event),
        stage_grounded(req, step, g),
    ensures
        stage_grounded(req, stage_after(req, step, event), stage_shown_by(g, step, event)),
{
    placement(req);
}

/// Where the building of a stage is in the order of its steps.
pub open spec fn stage_steps_left(flow: Flow, step: StageStep) -> int {
    match step {
        StageStep::LockTarget => 20,
        StageStep::LockForCopy(_) => 20,
        StageStep::OpenStaging => if flow == Flow::Fresh {
            19
        } else {
            13
        },
        StageStep::Reclaim => match flow {
            Flow::Fresh => 18,
            Flow::Import => 12,
            Flow::Copy => 18,
        },
        StageStep::OpenSessions => 17,
        StageStep::ProbeNamespace => 16,
        StageStep::ProbeTarget => 15,
        StageStep::CreateContainer => 10,
        StageStep::RestrictContainer => 9,
        StageStep::CreateSession => 8,
        StageStep::RestrictSession => 7,
        StageStep::CreateMarker => 6,
        StageStep::CleanUp(_, _) => 1,
        StageStep::Finished(_) => 0,
    }
}

/// A request that is in order, whose steps succeed and whose place is free, is
/// never refused: each step brings it closer to a stage that stands.
pub proof fn stage_gets_on(req: StageRequest, step: StageStep, g: StageShown, event: StageEvent)
    requires
        stage_fits(step, event),
        stage_grounded(req, step, g),
        in_order(req),
        !(step is CleanUp),
        event matches StageEvent::Done(Ok(_)) || event matches StageEvent::Flag(Ok(false)),
    ensures
        stage_steps_left(req.flow, stage_after(req, step, event)) < stage_steps_left(
            req.flow,
            step,
        ),
        stage_after(req, step, event) is Finished ==> stage_after(req, step, event)
            == StageStep::Finished(Ok(())),
{
    placement(req);
}

/// A failure is what a request fails with, and a taken place is told as such.
/// What a failed construction made is removed first, all that there is of it.
pub proof fn stage_failure_is_told(req: StageRequest, step: StageStep, g: StageShown, event: StageEvent)
    requires
        stage_fits(step, event),
        stage_grounded(req, step, g),
    ensures
        event matches StageEvent::Flag(Ok(true)) ==> stage_after(req, step, event)
            == StageStep::Finished(Err(StageFault::Taken)),
        event matches StageEvent::Flag(Err(e)) ==> stage_after(req, step, event)
            == StageStep::Finished(Err(StageFault::Io(e))),
        event matches StageEvent::Done(Err(e)) ==> !(step is CleanUp) ==> {
            let next = stage_after(req, step, event);
            if !(step is RestrictContainer || step is CreateSession || step is RestrictSession || step
                is CreateMarker) {
                next == StageStep::Finished(Err(StageFault::Io(e)))
            } else {
                next matches StageStep::CleanUp(how, cause) && cause == e && (match req.flow {
                    Flow::Copy => how == (if g.built <= 2 {
                        Cleanup::Container
                    } else if g.built == 3 {
                        Cleanup::SessionAndContainer
                    } else {
                        Cleanup::MarkerSessionContainer
                    }),
                    _ => how == Cleanup::ContainerTree,
                })
            }
        },
        step matches StageStep::CleanUp(_, cause) ==> stage_after(req, step, event)
            == StageStep::Finished(Err(StageFault::Io(cause))),
{
}

/// Whether a text can be an id in a path.
pub open spec fn fit_for_a_path(id: Seq<char>, style: PathStyle) -> bool {
    &&& id.len() > 0 && id != "."@ && id != ".."@
    &&& !id.contains('/') && (style is Windows ==> !id.contains('\\'))
    &&& style is Windows ==> !(id.len() >= 2 && id[1] == ':' && ('a' <= id[0] <= 'z' || 'A'
        <= id[0] <= 'Z'))
}

proof fn fit_is_single(id: Seq<char>, style: PathStyle)
    ensures
        fit_for_a_path(id, style) == crate::naming::single_component(id, style),
{
    crate::writing_laws::component_stays_in_its_directory(id, style);
    reveal_strlit(".");
    reveal_strlit("..");
    assert(id == "."@ <==> id =~= "."@);
    assert(id == ".."@ <==> id =~= ".."@);
}

/// What a request is refused for before anything is done: an import into a
/// writer that is busy, a target that is no session directory of the session
/// below the sessions root, and of a fork ids that are no names or the same.
/// Any other request begins: a fresh one with its lock, a fork with both, an
/// import with the question whether the id is taken.
pub proof fn stage_begins_if_nothing_is_wrong(req: StageRequest)
    ensures
        req.flow == Flow::Fresh ==> first_step(req) is LockTarget,
        req.flow == Flow::Import ==> first_step(req) == if req.writer_busy {
            StageStep::Finished(Err(StageFault::WriterBusy))
        } else if req.target@.len() == 0 {
            StageStep::Finished(Err(StageFault::NoParent))
        } else if !lies_below_sessions(req) || req.target@[req.target@.len() - 1]@
            != req.session_id@ {
            StageStep::Finished(Err(StageFault::NotDirectChild))
        } else {
            StageStep::ProbeNamespace
        },
        req.flow == Flow::Copy ==> {
            let fit = fit_for_a_path(req.source_id@, req.style) && fit_for_a_path(
                req.session_id@,
                req.style,
            );
            &&& !fit ==> first_step(req) == StageStep::Finished(Err(StageFault::InvalidId))
            &&& fit && req.source_id@ == req.session_id@ ==> first_step(req)
                == StageStep::Finished(Err(StageFault::SameId))
            &&& fit && req.source_id@ != req.session_id@ ==> first_step(req) is LockForCopy
        },
{
    placement(req);
    fit_is_single(req.source_id@, req.style);
    fit_is_single(req.session_id@, req.style);
}

/// A fresh session is refused its place once its id is known to be free, and a
/// fork once the sessions are open or nothing stands at its target: with what is
/// wrong about it.
pub proof fn wrong_place_is_refused(req: StageRequest)
    ensures
        req.flow == Flow::Fresh ==> stage_after(
            req,
            StageStep::ProbeNamespace,
            StageEvent::Flag(Ok(false)),
        ) == if req.target@.len() == 0 {
            StageStep::Finished(Err(StageFault::NoParent))
        } else if !lies_below_sessions(req) || req.target@[req.target@.len() - 1]@
            != req.session_id@ {
            StageStep::Finished(Err(StageFault::NotDirectChild))
        } else {
            StageStep::CreateContainer
        },
        req.flow == Flow::Copy ==> stage_after(
            req,
            StageStep::OpenSessions,
            StageEvent::Done(Ok(())),
        ) == if req.target@.len() == 0 {
            StageStep::Finished(Err(StageFault::NoParent))
        } else if !lies_below_sessions(req) {
            StageStep::Finished(Err(StageFault::NotDirectChild))
        } else {
            StageStep::ProbeNamespace
        },
        req.flow == Flow::Copy ==> stage_after(
            req,
            StageStep::ProbeTarget,
            StageEvent::Flag(Ok(false)),
        ) == if req.target@[req.target@.len() - 2]@ != req.expected_parent@ {
            StageStep::Finished(Err(StageFault::ParentMismatch))
        } else {
            StageStep::OpenStaging
        },
{
    placement(req);
}

// Where and how the publication of a fork goes another way.

/// Where a step of a fork's publication is, as a failure at it says; for the
/// steps that fail for good and say so.
pub open spec fn place_of_step(step: CopyStep) -> Option<Place> {
    match step {
        CopyStep::SyncTree => Some(Place::StagedTree),
        CopyStep::RemoveMarker => Some(Place::ExistingMarker),
        CopyStep::SyncStage => Some(Place::ExistingSync),
        CopyStep::WriteCwdFile => Some(Place::StagedMetadata),
        CopyStep::RemoveMarkerInContainer => Some(Place::ContainerMarker),
        CopyStep::SyncStageInContainer => Some(Place::ContainerSync),
        CopyStep::ReopenStaged { .. } => Some(Place::ReopenStage),
        CopyStep::OpenCreatedParent => Some(Place::CreateCollision),
        CopyStep::CreateDirAll => Some(Place::CreateDirAll),
        CopyStep::OpenParentByPath => Some(Place::AfterCreateDirAll),
        CopyStep::WriteParentCwdFile => Some(Place::DestMetadata),
        CopyStep::PathPublish => Some(Place::PathPublish),
        _ => None,
    }
}

/// Whether a publication has ended without effect, for this reason.
pub open spec fn ends_without_effect(p: CopyPublication, fault: CopyFault) -> bool {
    p.step == CopyStep::Finished(Err(CopyFinalizeError::NotCommitted(fault)))
}

/// A step that fails for good says where it failed, and with what; a question
/// that follows a failure has it told where nothing stands in the way, and a
/// collision where something does.
pub proof fn fork_failure_says_where(p: CopyPublication, e: IoError)
    ensures
        place_of_step(p.step) matches Some(place) ==> ends_without_effect(
            copied_by(p, CopyEvent::Done(Err(e))),
            CopyFault::At(place, e),
        ),
        p.step is ReadCwdFile ==> ends_without_effect(
            copied_by(p, CopyEvent::Bytes(Err(e))),
            CopyFault::At(Place::ExistingMetadata, e),
        ),
        p.step is ReadJoinedCwdFile ==> ends_without_effect(
            copied_by(p, CopyEvent::Bytes(Err(e))),
            CopyFault::Io(e),
        ),
        p.step is CheckRoot ==> ends_without_effect(
            copied_by(p, CopyEvent::Compared(Compared::OpenFailed(e))),
            CopyFault::At(Place::CanonicalRoot, e),
        ),
        p.step is CheckSessions ==> ends_without_effect(
            copied_by(p, CopyEvent::Compared(Compared::OpenFailed(e))),
            CopyFault::At(Place::CanonicalSessions, e),
        ),
        p.step matches CopyStep::ProbeAfterOpen { exists, error } ==> ends_without_effect(
            copied_by(p, CopyEvent::Flag(false)),
            CopyFault::At(Place::DestParent { exists }, error),
        ),
        p.step matches CopyStep::ProbeAfterRename { error } ==> ends_without_effect(
            copied_by(p, CopyEvent::Flag(false)),
            CopyFault::At(Place::ExistingRename, error),
        ),
        p.step matches CopyStep::ProbeAfterJoin { error } ==> ends_without_effect(
            copied_by(p, CopyEvent::Flag(false)),
            CopyFault::Io(error),
        ),
        p.step matches CopyStep::ProbeAfterJoinedRename { error } ==> ends_without_effect(
            copied_by(p, CopyEvent::Flag(false)),
            CopyFault::Io(error),
        ),
        p.step is ProbeTarget || p.step is ProbeAfterOpen || p.step is ProbeAfterRename || p.step
            is ProbeAfterContainer || p.step is ProbeBeforeChild || p.step is ProbeAfterJoin
            || p.step is ProbeAfterJoinedRename ==> ends_without_effect(
            copied_by(p, CopyEvent::Flag(true)),
            CopyFault::Collision,
        ),
        p.step matches CopyStep::Verify { level, .. } ==> copied_by(
            p,
            CopyEvent::Compared(Compared::OpenFailed(e)),
        ).step == CopyStep::Finished(
            Err(
                CopyFinalizeError::CommittedUnreachable(
                    CopyFault::At(
                        match level {
                            Level::Root => Place::CanonicalRoot,
                            Level::Sessions => Place::CanonicalSessions,
                            Level::Parent => Place::CanonicalParent,
                            Level::Session => Place::CanonicalFork,
                        },
                        e,
                    ),
                ),
            ),
        ),
{
}

/// Where a step fails that can be done otherwise, it is: a missing parent is
/// made of the container, a container that cannot become it is asked about, a
/// parent that is there is joined and one that is not is made, and a child that
/// cannot be renamed by its handle is renamed by its path.
pub proof fn fork_goes_another_way(p: CopyPublication, e: IoError, yes: bool)
    ensures
        p.step is RenameContainer ==> copied_by(p, CopyEvent::Done(Err(e))).step
            is ProbeAfterContainer,
        p.step is ProbeAfterContainer ==> copied_by(p, CopyEvent::Flag(false)).step
            is ProbeParentTaken,
        p.step is ProbeParentTaken ==> copied_by(p, CopyEvent::Flag(yes)).step == (
        CopyStep::ReopenStaged { taken: yes }),
        p.step matches CopyStep::ReopenStaged { taken } ==> {
            let next = copied_by(p, CopyEvent::Done(Ok(())));
            &&& next.session_held
            &&& taken ==> next.step is JoinParent
            &&& !taken ==> next.step is CreateParent
        },
        p.step is CreateParent ==> {
            let next = copied_by(p, CopyEvent::Done(Err(e)));
            if e.kind == ErrorKind::AlreadyExists {
                next.step is OpenCreatedParent
            } else {
                next.step is CreateDirAll
            }
        },
        p.step is RenameChild ==> copied_by(p, CopyEvent::Done(Err(e))).step is PathPublish,
        p.step is JoinParent ==> copied_by(p, CopyEvent::Done(Err(e))).step == (
        CopyStep::ProbeAfterJoin { error: e }),
        p.step is Rename ==> {
            let next = copied_by(p, CopyEvent::Done(Err(e)));
            if e.kind == ErrorKind::AlreadyExists {
                ends_without_effect(next, CopyFault::Collision)
            } else {
                next.step == CopyStep::ProbeAfterRename { error: e }
            }
        },
        p.step is RenameJoined ==> {
            let next = copied_by(p, CopyEvent::Done(Err(e)));
            if e.kind == ErrorKind::AlreadyExists {
                ends_without_effect(next, CopyFault::Collision)
            } else {
                next.step == CopyStep::ProbeAfterJoinedRename { error: e }
            }
        },
        p.step matches CopyStep::OpenParent { exists } ==> {
            let next = copied_by(p, CopyEvent::Done(Err(e)));
            if exists && e.kind != ErrorKind::NotFound {
                next.step == CopyStep::ProbeAfterOpen { exists, error: e }
            } else if !p.container_held {
                ends_without_effect(next, CopyFault::ContainerUnavailable)
            } else if name_is_not_enough(p.parent_name@, p.cwd@) {
                next.step is WriteCwdFile
            } else if p.session_held {
                next.step is RemoveMarkerInContainer
            } else {
                ends_without_effect(next, CopyFault::StageUnavailable)
            }
        },
        p.step is ProbeParent ==> copied_by(p, CopyEvent::Flag(yes)).step == (
        CopyStep::OpenParent { exists: yes }),
{
}

/// What is taken from the stage is there to be taken: the marker is removed only
/// while the staged session is held, and a publication without it is refused.
pub proof fn fork_is_published_from_its_stage(p: CopyPublication, event: CopyEvent)
    requires
        suits(p.step, event),
    ensures
        copied_by(p, event).step is RemoveMarker || copied_by(p, event).step
            is RemoveMarkerInContainer ==> p.session_held,
        (p.step is OpenParent && event == CopyEvent::Done(Ok(())) && !name_is_not_enough(
            p.parent_name@,
            p.cwd@,
        ) || p.step is ReadCwdFile && (event matches CopyEvent::Bytes(Ok(bytes)) && bytes@
            == encode_utf8(p.cwd@)) || p.step is WriteCwdFile && event == CopyEvent::Done(Ok(())))
            && !p.session_held ==> ends_without_effect(
            copied_by(p, event),
            CopyFault::StageUnavailable,
        ),
{
}

/// Once a fork is public nothing of it is cleaned up. The container that it left
/// behind is removed where it was not the container that was published, and only
/// there, after the path was seen to lead to the fork.
pub proof fn public_fork_leaves_nothing_behind(p: CopyPublication, event: CopyEvent)
    requires
        suits(p.step, event),
    ensures
        ({
            let new = copied_by(p, event);
            &&& new.step is Verify && !(p.step is Verify) && !(p.step is SyncSessions)
                ==> !new.cleanup_armed && new.committed && new.step == (CopyStep::Verify {
                level: Level::Root,
                last: false,
            }) && new.whole == (p.step is OpenPublished)
            &&& p.step is Verify || p.step is SyncSessions ==> new.cleanup_armed == p.cleanup_armed
                && new.whole == p.whole && new.container_held == p.container_held
            &&& new.step is RemoveContainer ==> p.step == (CopyStep::Verify {
                level: Level::Session,
                last: false,
            }) && !p.whole && p.container_held
            &&& p.step == (CopyStep::Verify { level: Level::Session, last: false }) && event
                == CopyEvent::Compared(Compared::Same(true)) ==> {
                &&& !p.whole && p.container_held ==> new.step is RemoveContainer
                &&& p.whole || !p.container_held ==> new.step is SyncStaging
            }
            &&& p.step is RemoveContainer && event == CopyEvent::Done(Ok(())) ==> !new.container_held
        }),
{
}

/// Where a step of a publication fails that can be done otherwise, it is: a
/// sessions directory that is there is opened, a missing parent is made of the
/// container, one that appeared meanwhile is joined with the session opened
/// anew, and a container that cannot be removed stays behind.
pub proof fn publication_goes_another_way(p: Publication, e: IoError)
    ensures
        p.step is CreateSessions && e.kind == ErrorKind::AlreadyExists ==> published_by(
            p,
            PublishEvent::Done(Err(e)),
        ).step is OpenSessions,
        p.step is OpenParent && e.kind == ErrorKind::NotFound ==> {
            let next = published_by(p, PublishEvent::Done(Err(e)));
            if !p.container_held {
                next.step == PublishStep::Finished(
                    Err(FinalizeError::NotCommitted(Fault::ContainerConsumed)),
                )
            } else if name_is_not_enough(p.parent_name@, p.cwd@) {
                next.step is WriteCwdFile && next.session_held == p.session_held
            } else {
                next.step is RenameContainer && !next.session_held
            }
        },
        p.step is RenameContainer && e.kind == ErrorKind::AlreadyExists ==> published_by(
            p,
            PublishEvent::Done(Err(e)),
        ).step is ReopenStagedSession,
        p.step is ReopenStagedSession ==> {
            let next = published_by(p, PublishEvent::Done(Ok(())));
            next.session_held && next.step is ReopenParent
        },
        p.step is RemoveContainer ==> {
            let next = published_by(p, PublishEvent::Done(Err(e)));
            &&& next.step == PublishStep::Verify(Level::Root)
            &&& next.committed && !next.container_held
        },
{
}

/// What a publication holds it gives up where it uses it: the session with the
/// rename that moves it, the container with that which makes it the parent, or
/// once it is empty. It is committed with the rename and never before, and a
/// session whose handle is gone is not published.
pub proof fn publication_gives_up_its_handles(p: Publication, cwd: String)
    ensures
        p.step is ReadSummary ==> {
            let next = published_by(p, PublishEvent::Summary(Ok(cwd)));
            &&& next.cwd == cwd
            &&& p.session_held ==> next.step is RemoveMarker
            &&& !p.session_held ==> next.step == PublishStep::Finished(
                Err(FinalizeError::NotCommitted(Fault::StageConsumed)),
            )
        },
        ({
            let next = published_by(p, PublishEvent::Done(Ok(())));
            &&& p.step is RenameSession ==> !next.session_held && if p.container_held {
                next.step is RemoveContainer && next.committed == p.committed
            } else {
                next.step == PublishStep::Verify(Level::Root) && next.committed
            }
            &&& p.step is RemoveContainer ==> next.committed && !next.container_held && next.step
                == PublishStep::Verify(Level::Root)
            &&& p.step is WriteCwdFile ==> next.step is RenameContainer && !next.session_held
            &&& p.step is RenameContainer ==> next.committed && !next.container_held && next.step
                is OpenPublishedSession
            &&& p.step is OpenPublishedSession ==> next.committed && next.step
                == PublishStep::Verify(Level::Root)
            &&& !(p.step is RenameSession || p.step is RemoveContainer || p.step is WriteCwdFile
                || p.step is RenameContainer || p.step is OpenPublishedSession || p.step
                is ReopenStagedSession) && fits(p.step, PublishEvent::Done(Ok(()))) ==> {
                &&& next.session_held == p.session_held
                &&& next.container_held == p.container_held
                &&& next.committed == p.committed
                &&& next.cwd == p.cwd && next.parent_name == p.parent_name
            }
        }),
{
}

} // verus!
