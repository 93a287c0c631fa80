//! What failures are told as.

use vstd::prelude::*;

use crate::actor::{AppendUpdateError, Refusal};
use crate::copy_publish::{place_text, CopyFault, CopyFinalizeError, Place};
use crate::deletion::DeleteSessionError;
use crate::entries::refusal;
use crate::handle::{reported, DurableAppendError};
use crate::io_error::{ErrorKind, IoError};
use crate::model_switch::SwitchFault;
use crate::publish::{Fault, FinalizeError, Level};
use crate::pull::{PullError, PullFault};
use crate::stage::{stage_fault_kind, stage_fault_text, Flow, StageFault, StageRequest};
use crate::text::decimal_text;

verus! {

/// A failure of no system call: its kind and its text, without a code.
pub open spec fn made_here(e: IoError, kind: ErrorKind, text: Seq<char>) -> bool {
    e.kind == kind && e.message@ == text && e.raw_os_error is None
}

/// A publication tells a failure of the system as it came, with its code. What
/// it finds itself it tells by kind: what is gone, what contradicts, and what is
/// no longer where it was.
pub proof fn publication_failure_is_told(fault: Fault, e: IoError)
    requires
        fault.told_by(e),
    ensures
        fault matches Fault::Io(cause) ==> e == cause,
        fault is StageConsumed ==> made_here(
            e,
            ErrorKind::NotFound,
            "fresh publication stage was already consumed"@,
        ),
        fault is ContainerConsumed ==> made_here(
            e,
            ErrorKind::NotFound,
            "fresh publication container was already consumed"@,
        ),
        fault is CwdMismatch ==> made_here(
            e,
            ErrorKind::InvalidData,
            "published cwd metadata does not exactly match the session cwd"@,
        ),
        fault matches Fault::Moved(level) ==> made_here(
            e,
            ErrorKind::PermissionDenied,
            match level {
                Level::Root => "publication root identity is no longer canonically reachable"@,
                Level::Sessions => "published sessions anchor is no longer canonically reachable"@,
                Level::Parent => "published cwd parent identity is not canonically reachable"@,
                Level::Session => "published session identity is not canonically reachable"@,
            },
        ),
{
}

/// What is shown of a failed publication says first whether it took effect, and
/// the fault in it is the one it failed with.
pub proof fn failed_publication_says_what_it_did(fault: Fault, fork_fault: CopyFault)
    ensures
        FinalizeError::NotCommitted(fault).heading() == "publication not committed: "@,
        FinalizeError::CommittedDurability(fault).heading()
            == "publication committed with durability failure: "@,
        FinalizeError::CommittedIdentity(fault).heading()
            == "publication committed but canonical identity is unverified: "@,
        FinalizeError::NotCommitted(fault).fault() == fault,
        FinalizeError::CommittedDurability(fault).fault() == fault,
        FinalizeError::CommittedIdentity(fault).fault() == fault,
        CopyFinalizeError::NotCommitted(fork_fault).heading() == "fork publication not committed: "@,
        CopyFinalizeError::CommittedUnreachable(fork_fault).heading()
            == "committed fork is not canonically reachable: "@,
        CopyFinalizeError::CommittedDurability(fork_fault).heading()
            == "fork committed with durability acknowledgement failure: "@,
        CopyFinalizeError::NotCommitted(fork_fault).fault() == fork_fault,
        CopyFinalizeError::CommittedUnreachable(fork_fault).fault() == fork_fault,
        CopyFinalizeError::CommittedDurability(fork_fault).fault() == fork_fault,
{
}

/// The publication of a fork tells a failure of the system as it came, or, where
/// its place is to be said, with the place before its text and the kind that it
/// has. A collision is told as one, and what changed under it as bad data.
pub proof fn fork_failure_is_told(fault: CopyFault, e: IoError, shown: Seq<char>)
    requires
        fault.told_by(e, shown),
    ensures
        fault matches CopyFault::Io(cause) ==> e == cause,
        fault matches CopyFault::At(place, cause) ==> made_here(
            e,
            cause.kind,
            place_text(place, shown) + ": "@ + cause.message@,
        ),
        fault is Collision ==> made_here(
            e,
            ErrorKind::AlreadyExists,
            "no-replace publication collided"@,
        ),
        fault is ChangedBefore || fault is ChangedAfter || fault is CwdMismatch ==> e.kind
            == ErrorKind::InvalidData && e.raw_os_error is None,
        fault is StageUnavailable ==> made_here(
            e,
            ErrorKind::Other,
            "fork stage anchor is unavailable"@,
        ),
        fault is ContainerUnavailable ==> made_here(
            e,
            ErrorKind::Other,
            "fork stage container anchor is unavailable"@,
        ),
        fault == (CopyFault::CwdMismatch { stated: false }) ==> e.message@
            == "published cwd metadata does not exactly match the session cwd"@,
        fault == CopyFault::ChangedBefore(Level::Root) ==> e.message@
            == "fork root identity changed before publication"@,
        fault == CopyFault::ChangedAfter(Level::Root) ==> e.message@
            == "fork root identity changed after publication"@,
        fault == CopyFault::ChangedBefore(Level::Sessions) ==> e.message@
            == "sessions root identity changed before fork publication"@,
        fault == CopyFault::ChangedAfter(Level::Sessions) ==> e.message@
            == "sessions root identity changed after fork publication"@,
        fault == CopyFault::ChangedAfter(Level::Parent) ==> e.message@
            == "fork target parent identity changed after publication"@,
        fault == CopyFault::ChangedAfter(Level::Session) ==> e.message@
            == "published fork identity does not match the committed stage"@,
{
}

/// The place of a failure names the directory it is about where that is the
/// fork's parent, and says whether it was there.
pub proof fn parent_is_named(shown: Seq<char>)
    ensures
        place_text(Place::DestParent { exists: true }, shown)
            == "open dest parent exists=true name="@ + shown,
        place_text(Place::DestParent { exists: false }, shown)
            == "open dest parent exists=false name="@ + shown,
{
}

/// A pull tells a failure of the system as it came. An answer that contradicts
/// what was asked is bad data, and says what was asked and what was found.
pub proof fn pull_failure_is_told(fault: PullFault, e: IoError)
    requires
        fault.told_by(e),
    ensures
        fault matches PullFault::Io(cause) ==> e == cause,
        fault matches PullFault::Publication(Fault::Io(cause)) ==> e == cause,
        fault is NotAuthenticated ==> made_here(
            e,
            ErrorKind::PermissionDenied,
            "remote pull requires an authenticated backend client"@,
        ),
        fault matches PullFault::Fetch(PullError::Backend(text)) ==> made_here(
            e,
            ErrorKind::Other,
            text@,
        ),
        fault matches PullFault::Fetch(PullError::SessionIdMismatch(text)) ==> made_here(
            e,
            ErrorKind::InvalidData,
            text@,
        ),
        fault matches PullFault::Fetch(PullError::MalformedSession(text)) ==> made_here(
            e,
            ErrorKind::InvalidData,
            text@,
        ),
        fault matches PullFault::Hydration(text) ==> made_here(e, ErrorKind::Other, text@),
        fault matches PullFault::InvalidSummary(cause) ==> made_here(
            e,
            ErrorKind::InvalidData,
            "canonical pulled session has invalid summary: "@ + cause.message@,
        ),
        fault matches PullFault::IdMismatch { requested, found } ==> made_here(
            e,
            ErrorKind::InvalidData,
            "canonical pulled session id mismatch: requested "@ + requested@ + ", found "@ + found@,
        ),
        fault matches PullFault::PathMismatch { requested, expected, found } ==> made_here(
            e,
            ErrorKind::InvalidData,
            "canonical pulled session path mismatch for "@ + requested@ + ": expected "@ + expected@
                + ", found "@ + found@,
        ),
{
}

/// A switch tells a failure of the system as it came, and what it cannot read in
/// the journal as bad data.
pub proof fn switch_failure_is_told(fault: SwitchFault, e: IoError)
    requires
        fault.told_by(e),
    ensures
        fault matches SwitchFault::Io(cause) ==> e == cause,
        fault matches SwitchFault::Malformed(text) ==> made_here(e, ErrorKind::InvalidData, text@),
        fault matches SwitchFault::Version(version) ==> made_here(
            e,
            ErrorKind::InvalidData,
            "unsupported model-switch intent version "@ + decimal_text(version as nat),
        ),
{
}

/// A failed deletion says which copy it failed at.
pub proof fn deletion_failure_is_told(fault: DeleteSessionError, backend: Seq<char>)
    ensures
        fault matches DeleteSessionError::List(e) ==> fault.text(backend)
            == "failed to resolve local session: "@ + e.message@,
        fault is Remote ==> fault.text(backend) == "failed to delete remote session data: "@
            + backend,
        fault matches DeleteSessionError::Local(e) ==> fault.text(backend)
            == "failed to delete session: "@ + e.message@,
{
}

/// The actor refuses what does not make sense of the session as it is, and a
/// second publication as one that is there already.
pub proof fn refusal_is_told(why: Refusal)
    ensures
        why.kind() == if why is AlreadyArmed {
            ErrorKind::AlreadyExists
        } else {
            ErrorKind::InvalidInput
        },
        why.text() == match why {
            Refusal::NotProvisional =>
                "refusing to delete a published or resumed session through provisional abort"@,
            Refusal::NotPublishable =>
                "fresh session is published, aborted, or has no publication claim"@,
            Refusal::AlreadyArmed => "fresh session publication is already armed"@,
        },
{
}

/// A stage that cannot be built is refused as existing where an id or a place is
/// taken, and as bad input where the request makes no sense.
pub proof fn stage_failure_kind_tells_taken_from_wrong(fault: StageFault)
    ensures
        fault is SameId || fault is WriterBusy || fault is Taken ==> stage_fault_kind(fault)
            == ErrorKind::AlreadyExists,
        fault is InvalidId || fault is NoParent || fault is NotDirectChild || fault
            is ParentMismatch ==> stage_fault_kind(fault) == ErrorKind::InvalidInput,
        fault matches StageFault::Io(e) ==> stage_fault_kind(fault) == e.kind,
{
}

/// Who is refused an id that is taken is told which id, or at import which
/// place; and every other refusal is in words of what was asked for.
pub proof fn stage_refusal_is_told(req: StageRequest)
    ensures
        stage_fault_text(req, StageFault::Taken) == match req.flow {
            Flow::Fresh => "a persisted session with id "@ + req.session_id@ + " already exists"@,
            Flow::Import => "public session target already exists: "@ + req.shown_target@,
            Flow::Copy => "a session with id "@ + req.session_id@ + " already exists"@,
        },
        stage_fault_text(req, StageFault::InvalidId)
            == "session id must be a single path component"@,
        stage_fault_text(req, StageFault::SameId)
            == "fork target session id must differ from source session id"@,
        stage_fault_text(req, StageFault::WriterBusy) == "session id is already present"@,
        stage_fault_text(req, StageFault::ParentMismatch)
            == "fork target parent does not match the target cwd"@,
        stage_fault_text(req, StageFault::NoParent) == match req.flow {
            Flow::Fresh => "published session has no parent"@,
            Flow::Import => "session directory has no parent"@,
            Flow::Copy => "fork target has no parent directory"@,
        },
        stage_fault_text(req, StageFault::NotDirectChild) == match req.flow {
            Flow::Fresh => "published session is not a direct session-id child"@,
            Flow::Import => "session directory does not match the locked session id"@,
            Flow::Copy => "fork target parent is not a direct child of the sessions root"@,
        },
{
}

/// Who asked for a durable line is told whether it is there as storage told it,
/// with the failure itself.
pub proof fn durable_line_failure_is_told(e: IoError)
    ensures
        reported(AppendUpdateError::NotCommitted(e)) == DurableAppendError::NotCommitted(e),
        reported(AppendUpdateError::Committed(e)) == DurableAppendError::Committed(e),
        DurableAppendError::NotCommitted(e).error() == e,
        DurableAppendError::Committed(e).error() == e,
        DurableAppendError::AcknowledgementLost(e).error() == e,
        AppendUpdateError::NotCommitted(e).io_error() == e,
        AppendUpdateError::Committed(e).io_error() == e,
{
}

/// An entry that is refused is named where its path is to be shown.
pub proof fn refused_entry_is_named(what: Seq<char>, path: Seq<char>)
    ensures
        refusal(what, Some(path)) == what + ": "@ + path,
        refusal(what, None) == what,
{
}

} // verus!
