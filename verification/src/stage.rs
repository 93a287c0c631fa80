//! The building of a private stage for a session, as a machine from step and
//! event to the next step.
//!
//! A fresh session, an imported one and a fork are each built in a private
//! container named after the session id. What may stand in the way is checked
//! before anything is created, and what was created is removed again when a
//! later step fails.

use vstd::prelude::*;
use vstd::string::*;

use crate::io_error::{ErrorKind, IoError};
use crate::naming::{
    copy_order, ordered_copy_locks, session_stage_container_name, single_component,
    stage_container_name, validate_session_path_component, CopyLockOrder, PathStyle,
};
use crate::text::{owned, same_text};

verus! {

/// Who builds a stage.
#[derive(Debug, Clone, Copy, PartialEq, Eq, Structural)]
pub enum Flow {
    /// A session that is being created.
    Fresh,
    /// An import or a repair, under a lock that is held already.
    Import,
    /// A fork of another session.
    Copy,
}

/// An absolute path, as its components below the root.
pub type Components = Vec<String>;

/// The components of a path as texts.
pub open spec fn texts(path: Seq<String>) -> Seq<Seq<char>> {
    path.map_values(|s: String| s@)
}

/// A request to build a stage.
#[derive(Debug)]
pub struct StageRequest {
    pub flow: Flow,
    pub session_id: String,
    /// The session that is forked; read by a copy only.
    pub source_id: String,
    /// The directory that holds the cwd directories.
    pub sessions_root: Components,
    /// Where the session is to become public.
    pub target: Components,
    /// The target as messages show it.
    pub shown_target: String,
    /// How the platform writes paths.
    pub style: PathStyle,
    /// The name that the cwd directory must have; read by a copy only.
    pub expected_parent: String,
    /// Whether the writer has a session or a stage already; read by an import only.
    pub writer_busy: bool,
}

/// Why a stage could not be built.
#[derive(Debug)]
pub enum StageFault {
    Io(IoError),
    /// An id is not a single path component.
    InvalidId,
    /// Source and target of a fork are the same.
    SameId,
    /// The writer has a session or a stage already.
    WriterBusy,
    NoParent,
    /// The target is not a session directory below the sessions root.
    NotDirectChild,
    /// The cwd directory has not the name of the fork's working directory.
    ParentMismatch,
    /// The session id is taken in the public namespace.
    Taken,
}

/// What a failed construction removes again.
#[derive(Debug, Clone, Copy, PartialEq, Eq, Structural)]
pub enum Cleanup {
    /// The container with everything in it.
    ContainerTree,
    /// The empty container.
    Container,
    /// The empty session directory, then the container.
    SessionAndContainer,
    /// The marker, then the session directory, and if that worked the container.
    MarkerSessionContainer,
}

/// What the driver does next.
#[derive(Debug)]
pub enum StageStep {
    /// Take the namespace and the mutation lock of the session exclusively.
    LockTarget,
    /// Take the source's locks shared and the target's exclusively, in order.
    LockForCopy(CopyLockOrder),
    OpenSessions,
    /// Open the private staging directory, creating it for its owner only.
    OpenStaging,
    /// Remove abandoned stages of this session.
    Reclaim,
    /// Ask whether the session id is taken anywhere in the public namespace.
    ProbeNamespace,
    /// Ask whether anything stands at the target.
    ProbeTarget,
    CreateContainer,
    RestrictContainer,
    CreateSession,
    RestrictSession,
    CreateMarker,
    /// Remove what was created; failures of that are ignored.
    CleanUp(Cleanup, IoError),
    Finished(Result<(), StageFault>),
}

/// What happened.
#[derive(Debug)]
pub enum StageEvent {
    Done(Result<(), IoError>),
    Flag(Result<bool, IoError>),
}

/// Whether the grandparent of the target is the sessions root.
pub open spec fn below_sessions(req: StageRequest) -> bool {
    &&& req.target@.len() >= 2
    &&& texts(req.target@.take(req.target@.len() - 2)) == texts(req.sessions_root@)
}

pub open spec fn target_name(req: StageRequest) -> Seq<char> {
    req.target@.last()@
}

pub open spec fn parent_name(req: StageRequest) -> Seq<char> {
    req.target@[req.target@.len() - 2]@
}

/// What is wrong with the target of a fresh or an imported session.
pub open spec fn target_fault(req: StageRequest) -> Option<StageFault> {
    if req.target@.len() == 0 {
        Some(StageFault::NoParent)
    } else if !below_sessions(req) || target_name(req) != req.session_id@ {
        Some(StageFault::NotDirectChild)
    } else {
        None
    }
}

/// What is wrong with the place of a fork's cwd directory.
pub open spec fn fork_place_fault(req: StageRequest) -> Option<StageFault> {
    if req.target@.len() == 0 {
        Some(StageFault::NoParent)
    } else if !below_sessions(req) {
        Some(StageFault::NotDirectChild)
    } else {
        None
    }
}

/// Whether everything that a flow checks by itself is right.
pub open spec fn checks_pass(req: StageRequest) -> bool {
    match req.flow {
        Flow::Fresh => target_fault(req) is None,
        Flow::Import => !req.writer_busy && target_fault(req) is None,
        Flow::Copy => {
            &&& single_component(req.source_id@, req.style)
            &&& single_component(req.session_id@, req.style)
            &&& req.source_id@ != req.session_id@
            &&& fork_place_fault(req) is None
            &&& parent_name(req) == req.expected_parent@
        },
    }
}

/// The first step, or what stands in the way of any.
pub open spec fn first_step(req: StageRequest) -> StageStep {
    match req.flow {
        Flow::Fresh => StageStep::LockTarget,
        Flow::Import => if req.writer_busy {
            StageStep::Finished(Err(StageFault::WriterBusy))
        } else {
            match target_fault(req) {
                Some(f) => StageStep::Finished(Err(f)),
                None => StageStep::ProbeNamespace,
            }
        },
        Flow::Copy => if !single_component(req.source_id@, req.style) || !single_component(
            req.session_id@,
            req.style,
        ) {
            StageStep::Finished(Err(StageFault::InvalidId))
        } else if req.source_id@ == req.session_id@ {
            StageStep::Finished(Err(StageFault::SameId))
        } else {
            StageStep::LockForCopy(copy_order(req.source_id@, req.session_id@))
        },
    }
}

/// The step after one that succeeded.
pub open spec fn next_step(req: StageRequest, step: StageStep) -> StageStep {
    match step {
        StageStep::LockTarget => StageStep::OpenStaging,
        StageStep::LockForCopy(_) => StageStep::Reclaim,
        StageStep::OpenStaging => if req.flow == Flow::Copy {
            StageStep::CreateContainer
        } else {
            StageStep::Reclaim
        },
        StageStep::Reclaim => match req.flow {
            Flow::Fresh => StageStep::ProbeNamespace,
            Flow::Import => StageStep::CreateContainer,
            Flow::Copy => StageStep::OpenSessions,
        },
        StageStep::OpenSessions => match fork_place_fault(req) {
            Some(f) => StageStep::Finished(Err(f)),
            None => StageStep::ProbeNamespace,
        },
        StageStep::CreateContainer => StageStep::RestrictContainer,
        StageStep::RestrictContainer => StageStep::CreateSession,
        StageStep::CreateSession => StageStep::RestrictSession,
        StageStep::RestrictSession => StageStep::CreateMarker,
        StageStep::CreateMarker => StageStep::Finished(Ok(())),
        step => step,
    }
}

/// The step after an answer that the place is free.
pub open spec fn next_if_free(req: StageRequest, step: StageStep) -> StageStep {
    match step {
        StageStep::ProbeNamespace => if req.flow == Flow::Fresh {
            match target_fault(req) {
                Some(f) => StageStep::Finished(Err(f)),
                None => StageStep::CreateContainer,
            }
        } else {
            StageStep::ProbeTarget
        },
        StageStep::ProbeTarget => if req.flow == Flow::Copy {
            if parent_name(req) == req.expected_parent@ {
                StageStep::OpenStaging
            } else {
                StageStep::Finished(Err(StageFault::ParentMismatch))
            }
        } else {
            StageStep::OpenStaging
        },
        step => step,
    }
}

/// What is removed when a step fails.
pub open spec fn cleanup_of(flow: Flow, step: StageStep) -> Option<Cleanup> {
    match step {
        StageStep::RestrictContainer => Some(
            if flow == Flow::Copy {
                Cleanup::Container
            } else {
                Cleanup::ContainerTree
            },
        ),
        StageStep::CreateSession => Some(
            if flow == Flow::Copy {
                Cleanup::Container
            } else {
                Cleanup::ContainerTree
            },
        ),
        StageStep::RestrictSession => Some(
            if flow == Flow::Copy {
                Cleanup::SessionAndContainer
            } else {
                Cleanup::ContainerTree
            },
        ),
        StageStep::CreateMarker => Some(
            if flow == Flow::Copy {
                Cleanup::MarkerSessionContainer
            } else {
                Cleanup::ContainerTree
            },
        ),
        _ => None,
    }
}

/// What one event makes of a step.
pub open spec fn stage_after(req: StageRequest, step: StageStep, event: StageEvent) -> StageStep {
    match (step, event) {
        (StageStep::CleanUp(_, e), _) => StageStep::Finished(Err(StageFault::Io(e))),
        (step, StageEvent::Done(Ok(_))) => next_step(req, step),
        (step, StageEvent::Done(Err(e))) => match cleanup_of(req.flow, step) {
            Some(how) => StageStep::CleanUp(how, e),
            None => StageStep::Finished(Err(StageFault::Io(e))),
        },
        (step, StageEvent::Flag(Ok(taken))) => if taken {
            StageStep::Finished(Err(StageFault::Taken))
        } else {
            next_if_free(req, step)
        },
        (_, StageEvent::Flag(Err(e))) => StageStep::Finished(Err(StageFault::Io(e))),
    }
}

/// Whether `event` is what the step can lead to.
pub open spec fn stage_fits(step: StageStep, event: StageEvent) -> bool {
    match step {
        StageStep::ProbeNamespace => event is Flag,
        StageStep::ProbeTarget => event is Flag,
        StageStep::Finished(_) => false,
        _ => event is Done,
    }
}

/// The steps that come after the creation of the container was asked for.
pub open spec fn creating(step: StageStep) -> bool {
    match step {
        StageStep::CreateContainer => true,
        StageStep::RestrictContainer => true,
        StageStep::CreateSession => true,
        StageStep::RestrictSession => true,
        StageStep::CreateMarker => true,
        StageStep::CleanUp(_, _) => true,
        StageStep::Finished(Ok(_)) => true,
        _ => false,
    }
}

/// Whether a flow can be at a step: the container is created only once every
/// check has passed.
pub open spec fn reachable(req: StageRequest, step: StageStep) -> bool {
    &&& creating(step) ==> checks_pass(req)
    &&& match req.flow {
        Flow::Fresh => !(step is LockForCopy) && !(step is OpenSessions) && !(step is ProbeTarget),
        Flow::Import => {
            &&& !(step is LockForCopy) && !(step is OpenSessions) && !(step is LockTarget)
            &&& step is ProbeNamespace || step is ProbeTarget || step is OpenStaging
                || step is Reclaim ==> checks_pass(req)
        },
        Flow::Copy => {
            &&& !(step is LockTarget)
            &&& step is LockForCopy || step is Reclaim || step is OpenSessions
                || step is ProbeNamespace || step is ProbeTarget || step is OpenStaging ==> {
                &&& single_component(req.source_id@, req.style)
                &&& single_component(req.session_id@, req.style)
                &&& req.source_id@ != req.session_id@
            }
            &&& step is ProbeNamespace || step is ProbeTarget || step is OpenStaging
                ==> fork_place_fault(req) is None
            &&& step is OpenStaging ==> checks_pass(req)
        },
    }
}

fn same_components(a: &Components, from: usize, to: usize, b: &Components) -> (r: bool)
    requires
        from <= to <= a@.len(),
    ensures
        r == (texts(a@.subrange(from as int, to as int)) == texts(b@)),
{
    let ghost x = texts(a@.subrange(from as int, to as int));
    let ghost y = texts(b@);
    if to - from != b.len() {
        assert(x.len() != y.len());
        return false;
    }
    let mut i: usize = 0;
    while i < b.len()
        invariant
            from <= to <= a@.len(),
            to - from == b@.len(),
            x == texts(a@.subrange(from as int, to as int)),
            y == texts(b@),
            i <= b@.len(),
            forall|j: int| 0 <= j < i ==> x[j] == y[j],
        decreases b@.len() - i,
    {
        assert(x[i as int] == a@[from + i]@);
        assert(y[i as int] == b@[i as int]@);
        if !same_text(a[from + i].as_str(), b[i].as_str()) {
            return false;
        }
        i += 1;
    }
    assert(x =~= y);
    true
}

impl StageRequest {
    fn is_below_sessions(&self) -> (r: bool)
        ensures
            r == below_sessions(*self),
    {
        let n: usize = self.target.len();
        if n < 2 {
            return false;
        }
        assert(self.target@.subrange(0, n - 2) =~= self.target@.take(n - 2));
        same_components(&self.target, 0, n - 2, &self.sessions_root)
    }

    fn find_target_fault(&self) -> (r: Option<StageFault>)
        ensures
            r == target_fault(*self),
    {
        if self.target.len() == 0 {
            Some(StageFault::NoParent)
        } else if !self.is_below_sessions() || !same_text(
            self.target[self.target.len() - 1].as_str(),
            self.session_id.as_str(),
        ) {
            Some(StageFault::NotDirectChild)
        } else {
            None
        }
    }

    fn find_fork_place_fault(&self) -> (r: Option<StageFault>)
        ensures
            r == fork_place_fault(*self),
    {
        if self.target.len() == 0 {
            Some(StageFault::NoParent)
        } else if !self.is_below_sessions() {
            Some(StageFault::NotDirectChild)
        } else {
            None
        }
    }

    fn is_copy(&self) -> (r: bool)
        ensures
            r == (self.flow == Flow::Copy),
    {
        match self.flow {
            Flow::Copy => true,
            _ => false,
        }
    }

    /// The first step, or what stands in the way of any.
    pub fn begin(&self) -> (r: StageStep)
        ensures
            r == first_step(*self),
            reachable(*self, r),
    {
        match self.flow {
            Flow::Fresh => StageStep::LockTarget,
            Flow::Import => {
                if self.writer_busy {
                    return StageStep::Finished(Err(StageFault::WriterBusy));
                }
                match self.find_target_fault() {
                    Some(f) => StageStep::Finished(Err(f)),
                    None => StageStep::ProbeNamespace,
                }
            },
            Flow::Copy => {
                if validate_session_path_component(self.source_id.as_str(), self.style).is_err()
                    || validate_session_path_component(
                    self.session_id.as_str(),
                    self.style,
                ).is_err() {
                    return StageStep::Finished(Err(StageFault::InvalidId));
                }
                match ordered_copy_locks(self.source_id.as_str(), self.session_id.as_str()) {
                    Ok(order) => StageStep::LockForCopy(order),
                    Err(_) => StageStep::Finished(Err(StageFault::SameId)),
                }
            },
        }
    }

    fn after_success(&self, step: StageStep) -> (r: StageStep)
        ensures
            r == next_step(*self, step),
    {
        match step {
            StageStep::LockTarget => StageStep::OpenStaging,
            StageStep::LockForCopy(_) => StageStep::Reclaim,
            StageStep::OpenStaging => if self.is_copy() {
                StageStep::CreateContainer
            } else {
                StageStep::Reclaim
            },
            StageStep::Reclaim => match self.flow {
                Flow::Fresh => StageStep::ProbeNamespace,
                Flow::Import => StageStep::CreateContainer,
                Flow::Copy => StageStep::OpenSessions,
            },
            StageStep::OpenSessions => match self.find_fork_place_fault() {
                Some(f) => StageStep::Finished(Err(f)),
                None => StageStep::ProbeNamespace,
            },
            StageStep::CreateContainer => StageStep::RestrictContainer,
            StageStep::RestrictContainer => StageStep::CreateSession,
            StageStep::CreateSession => StageStep::RestrictSession,
            StageStep::RestrictSession => StageStep::CreateMarker,
            StageStep::CreateMarker => StageStep::Finished(Ok(())),
            step => step,
        }
    }

    fn after_free(&self, step: StageStep) -> (r: StageStep)
        requires
            step is ProbeTarget && self.flow == Flow::Copy ==> below_sessions(*self),
        ensures
            r == next_if_free(*self, step),
    {
        match step {
            StageStep::ProbeNamespace => match self.flow {
                Flow::Fresh => match self.find_target_fault() {
                    Some(f) => StageStep::Finished(Err(f)),
                    None => StageStep::CreateContainer,
                },
                _ => StageStep::ProbeTarget,
            },
            StageStep::ProbeTarget => if self.is_copy() {
                let parent = &self.target[self.target.len() - 2];
                if same_text(parent.as_str(), self.expected_parent.as_str()) {
                    StageStep::OpenStaging
                } else {
                    StageStep::Finished(Err(StageFault::ParentMismatch))
                }
            } else {
                StageStep::OpenStaging
            },
            step => step,
        }
    }

    fn find_cleanup(&self, step: &StageStep) -> (r: Option<Cleanup>)
        ensures
            r == cleanup_of(self.flow, *step),
    {
        let copy = self.is_copy();
        match step {
            StageStep::RestrictContainer => Some(
                if copy {
                    Cleanup::Container
                } else {
                    Cleanup::ContainerTree
                },
            ),
            StageStep::CreateSession => Some(
                if copy {
                    Cleanup::Container
                } else {
                    Cleanup::ContainerTree
                },
            ),
            StageStep::RestrictSession => Some(
                if copy {
                    Cleanup::SessionAndContainer
                } else {
                    Cleanup::ContainerTree
                },
            ),
            StageStep::CreateMarker => Some(
                if copy {
                    Cleanup::MarkerSessionContainer
                } else {
                    Cleanup::ContainerTree
                },
            ),
            _ => None,
        }
    }

    /// Takes in what happened at a step.
    pub fn advance(&self, step: StageStep, event: StageEvent) -> (r: StageStep)
        requires
            reachable(*self, step),
            stage_fits(step, event),
        ensures
            r == stage_after(*self, step, event),
            reachable(*self, r),
    {
        match (step, event) {
            (StageStep::CleanUp(_, e), _) => StageStep::Finished(Err(StageFault::Io(e))),
            (step, StageEvent::Done(Ok(_))) => self.after_success(step),
            (step, StageEvent::Done(Err(e))) => match self.find_cleanup(&step) {
                Some(how) => StageStep::CleanUp(how, e),
                None => StageStep::Finished(Err(StageFault::Io(e))),
            },
            (step, StageEvent::Flag(Ok(taken))) => if taken {
                StageStep::Finished(Err(StageFault::Taken))
            } else {
                self.after_free(step)
            },
            (_, StageEvent::Flag(Err(e))) => StageStep::Finished(Err(StageFault::Io(e))),
        }
    }
}

/// Nothing is created for a request that a check refuses: the container is
/// created only once everything was found right.
pub proof fn refused_request_creates_nothing(req: StageRequest, step: StageStep, event: StageEvent)
    requires
        reachable(req, step),
        stage_fits(step, event),
        !checks_pass(req),
    ensures
        !creating(stage_after(req, step, event)),
{
}

/// A construction that fails after its container was created removes it before
/// it reports the failure.
pub proof fn failed_construction_cleans_up(req: StageRequest, step: StageStep, e: IoError)
    requires
        creating(step),
        !(step is CreateContainer) && !(step is CleanUp) && !(step is Finished),
    ensures
        stage_after(req, step, StageEvent::Done(Err(e))) matches StageStep::CleanUp(_, cause)
            && cause == e,
{
}

/// The kind of the failure that a fault stands for.
pub open spec fn stage_fault_kind(fault: StageFault) -> ErrorKind {
    match fault {
        StageFault::Io(e) => e.kind,
        StageFault::InvalidId => ErrorKind::InvalidInput,
        StageFault::SameId => ErrorKind::AlreadyExists,
        StageFault::WriterBusy => ErrorKind::AlreadyExists,
        StageFault::NoParent => ErrorKind::InvalidInput,
        StageFault::NotDirectChild => ErrorKind::InvalidInput,
        StageFault::ParentMismatch => ErrorKind::InvalidInput,
        StageFault::Taken => ErrorKind::AlreadyExists,
    }
}

/// The text of the failure that a fault stands for.
pub open spec fn stage_fault_text(req: StageRequest, fault: StageFault) -> Seq<char> {
    match (fault, req.flow) {
        (StageFault::Io(e), _) => e.message@,
        (StageFault::InvalidId, _) => "session id must be a single path component"@,
        (StageFault::SameId, _) => "fork target session id must differ from source session id"@,
        (StageFault::WriterBusy, _) => "session id is already present"@,
        (StageFault::NoParent, Flow::Fresh) => "published session has no parent"@,
        (StageFault::NoParent, Flow::Import) => "session directory has no parent"@,
        (StageFault::NoParent, Flow::Copy) => "fork target has no parent directory"@,
        (StageFault::NotDirectChild, Flow::Fresh) =>
            "published session is not a direct session-id child"@,
        (StageFault::NotDirectChild, Flow::Import) =>
            "session directory does not match the locked session id"@,
        (StageFault::NotDirectChild, Flow::Copy) =>
            "fork target parent is not a direct child of the sessions root"@,
        (StageFault::ParentMismatch, _) => "fork target parent does not match the target cwd"@,
        (StageFault::Taken, Flow::Fresh) => "a persisted session with id "@ + req.session_id@
            + " already exists"@,
        (StageFault::Taken, Flow::Import) => "public session target already exists: "@
            + req.shown_target@,
        (StageFault::Taken, Flow::Copy) => "a session with id "@ + req.session_id@
            + " already exists"@,
    }
}

impl StageRequest {
    fn taken_text(&self) -> (r: String)
        ensures
            r@ == stage_fault_text(*self, StageFault::Taken),
    {
        match self.flow {
            Flow::Fresh => {
                let mut text = owned("a persisted session with id ");
                text.append(self.session_id.as_str());
                text.append(" already exists");
                text
            },
            Flow::Import => {
                let mut text = owned("public session target already exists: ");
                text.append(self.shown_target.as_str());
                text
            },
            Flow::Copy => {
                let mut text = owned("a session with id ");
                text.append(self.session_id.as_str());
                text.append(" already exists");
                text
            },
        }
    }

    /// The failure that the requester sees.
    pub fn error(&self, fault: StageFault) -> (r: IoError)
        ensures
            match fault {
                StageFault::Io(e) => r == e,
                _ => r.says(stage_fault_kind(fault), stage_fault_text(*self, fault)),
            },
    {
        match fault {
            StageFault::Io(e) => e,
            StageFault::InvalidId => IoError::new(
                ErrorKind::InvalidInput,
                "session id must be a single path component",
            ),
            StageFault::SameId => IoError::new(
                ErrorKind::AlreadyExists,
                "fork target session id must differ from source session id",
            ),
            StageFault::WriterBusy => IoError::new(
                ErrorKind::AlreadyExists,
                "session id is already present",
            ),
            StageFault::NoParent => IoError::new(
                ErrorKind::InvalidInput,
                match self.flow {
                    Flow::Fresh => "published session has no parent",
                    Flow::Import => "session directory has no parent",
                    Flow::Copy => "fork target has no parent directory",
                },
            ),
            StageFault::NotDirectChild => IoError::new(
                ErrorKind::InvalidInput,
                match self.flow {
                    Flow::Fresh => "published session is not a direct session-id child",
                    Flow::Import => "session directory does not match the locked session id",
                    Flow::Copy => "fork target parent is not a direct child of the sessions root",
                },
            ),
            StageFault::ParentMismatch => IoError::new(
                ErrorKind::InvalidInput,
                "fork target parent does not match the target cwd",
            ),
            StageFault::Taken => IoError {
                kind: ErrorKind::AlreadyExists,
                raw_os_error: None,
                message: self.taken_text(),
            },
        }
    }
}

// Abandoned stages.

/// What is seen of one entry of the private staging directory that opens as a
/// directory.
#[derive(Debug)]
pub struct ContainerProbe {
    pub name: String,
    /// Whether the session directory in it belongs to its owner only; none
    /// where no directory of that name opens.
    pub session_private: Option<bool>,
    /// The names in it; none where they could not be listed.
    pub children: Option<Vec<String>>,
    /// Whether `.cwd` opens as a regular file.
    pub cwd_file_opens: bool,
    /// Whether the container belongs to its owner only.
    pub private: bool,
}

pub open spec fn lists(children: Seq<String>, name: Seq<char>) -> bool {
    exists|i: int| 0 <= i < children.len() && (#[trigger] children[i])@ == name
}

/// Whether a container is an abandoned stage of the session: it holds nothing
/// but the session directory and a `.cwd` file, and only its owner can reach
/// it. One without the session directory counts only under the name that is
/// derived from the session id.
pub open spec fn reclaimable(probe: ContainerProbe, session_id: Seq<char>) -> bool {
    &&& probe.session_private is Some || probe.name@ == stage_container_name(session_id)
    &&& probe.children matches Some(children)
    &&& lists(children@, session_id) ==> probe.session_private is Some
    &&& forall|i: int|
        0 <= i < children@.len() ==> (#[trigger] children@[i])@ == session_id || children@[i]@
            == ".cwd"@
    &&& lists(children@, ".cwd"@) ==> probe.cwd_file_opens
    &&& probe.private
    &&& probe.session_private != Some(false)
}

fn contains_name(children: &Vec<String>, name: &str) -> (r: bool)
    ensures
        r == lists(children@, name@),
{
    let mut i: usize = 0;
    while i < children.len()
        invariant
            i <= children@.len(),
            forall|j: int| 0 <= j < i ==> (#[trigger] children@[j])@ != name@,
        decreases children@.len() - i,
    {
        if same_text(children[i].as_str(), name) {
            return true;
        }
        i += 1;
    }
    false
}

/// Whether a container is an abandoned stage of the session.
pub fn is_reclaimable_stage(probe: &ContainerProbe, session_id: &str) -> (r: bool)
    ensures
        r == reclaimable(*probe, session_id@),
{
    let expected = session_stage_container_name(session_id);
    if probe.session_private.is_none() && !same_text(probe.name.as_str(), expected.as_str()) {
        return false;
    }
    let children = match &probe.children {
        Some(children) => children,
        None => {
            return false;
        },
    };
    if contains_name(children, session_id) && probe.session_private.is_none() {
        return false;
    }
    let mut i: usize = 0;
    while i < children.len()
        invariant
            probe.children == Some(*children),
            i <= children@.len(),
            forall|j: int|
                0 <= j < i ==> (#[trigger] children@[j])@ == session_id@ || children@[j]@
                    == ".cwd"@,
        decreases children@.len() - i,
    {
        if !same_text(children[i].as_str(), session_id) && !same_text(
            children[i].as_str(),
            ".cwd",
        ) {
            return false;
        }
        i += 1;
    }
    if contains_name(children, ".cwd") && !probe.cwd_file_opens {
        return false;
    }
    let session_ok = match probe.session_private {
        Some(private) => private,
        None => true,
    };
    probe.private && session_ok
}

/// Which of the containers are abandoned stages of the session, in order.
pub fn reclaim_abandoned_session_stages(
    probes: &Vec<ContainerProbe>,
    session_id: &str,
) -> (r: Vec<usize>)
    ensures
        forall|k: int| 0 <= k < r@.len() ==> (#[trigger] r@[k]) < probes@.len() && reclaimable(
            probes@[r@[k] as int],
            session_id@,
        ),
        forall|i: int|
            0 <= i < probes@.len() && reclaimable(#[trigger] probes@[i], session_id@) ==> exists|
                k: int,
            |
                0 <= k < r@.len() && #[trigger] r@[k] == i,
        forall|j: int, k: int| 0 <= j < k < r@.len() ==> r@[j] < r@[k],
{
    let mut out: Vec<usize> = Vec::new();
    let mut i: usize = 0;
    while i < probes.len()
        invariant
            i <= probes@.len(),
            forall|k: int| 0 <= k < out@.len() ==> (#[trigger] out@[k]) < i && reclaimable(
                probes@[out@[k] as int],
                session_id@,
            ),
            forall|j: int|
                0 <= j < i && reclaimable(#[trigger] probes@[j], session_id@) ==> exists|k: int|
                    0 <= k < out@.len() && #[trigger] out@[k] == j,
            forall|j: int, k: int| 0 <= j < k < out@.len() ==> out@[j] < out@[k],
        decreases probes@.len() - i,
    {
        if is_reclaimable_stage(&probes[i], session_id) {
            let ghost old_out = out@;
            out.push(i);
            assert forall|j: int|
                0 <= j < i + 1 && reclaimable(#[trigger] probes@[j], session_id@) implies exists|
                k: int,
            |
                0 <= k < out@.len() && #[trigger] out@[k] == j by {
                if j < i {
                    let k = choose|k: int| 0 <= k < old_out.len() && #[trigger] old_out[k] == j;
                    assert(out@[k] == j);
                } else {
                    assert(out@[old_out.len() as int] == j);
                }
            }
        }
        i += 1;
    }
    out
}

// The public namespace.

/// What is seen of one entry of the sessions root.
#[derive(Debug)]
pub struct CwdProbe {
    pub is_dir: bool,
    pub is_symlink: bool,
    /// Whether something with the session's id stands in it, whatever it is.
    pub holds_id: Result<bool, IoError>,
}

/// The first entry, from `i` on, that decides whether an id is taken: an entry
/// that could not be read, or a real directory that holds the id or could not
/// be asked. Unreadable places in a directory count as free unless `strict`.
pub open spec fn taken_from(entries: Seq<Result<CwdProbe, IoError>>, i: int, strict: bool) -> Result<
    bool,
    IoError,
>
    decreases entries.len() - i,
{
    if i < 0 || i >= entries.len() {
        Ok(false)
    } else {
        match entries[i] {
            Err(e) => Err(e),
            Ok(p) => if !p.is_dir || (p.is_symlink && !strict) {
                taken_from(entries, i + 1, strict)
            } else {
                match p.holds_id {
                    Ok(true) => Ok(true),
                    Ok(false) => taken_from(entries, i + 1, strict),
                    Err(e) => if strict {
                        Err(e)
                    } else {
                        taken_from(entries, i + 1, strict)
                    },
                }
            },
        }
    }
}

/// Whether an id is taken, given the listing of the sessions root: a missing
/// root holds nothing.
pub open spec fn namespace_taken(
    listing: Result<Vec<Result<CwdProbe, IoError>>, IoError>,
    strict: bool,
) -> Result<bool, IoError> {
    match listing {
        Err(e) => if e.kind == ErrorKind::NotFound {
            Ok(false)
        } else {
            Err(e)
        },
        Ok(entries) => taken_from(entries@, 0, strict),
    }
}

fn scan_namespace(
    listing: Result<Vec<Result<CwdProbe, IoError>>, IoError>,
    strict: bool,
) -> (r: Result<bool, IoError>)
    ensures
        r == namespace_taken(listing, strict),
{
    let entries = match listing {
        Err(e) => {
            if e.kind == ErrorKind::NotFound {
                return Ok(false);
            }
            return Err(e);
        },
        Ok(entries) => entries,
    };
    let ghost all = entries@;
    for entry in it: entries
        invariant
            it.seq() == all,
            namespace_taken(listing, strict) == taken_from(all, it.index() as int, strict),
    {
        match entry {
            Err(e) => {
                return Err(e);
            },
            Ok(p) => {
                if p.is_dir && (!p.is_symlink || strict) {
                    match p.holds_id {
                        Ok(true) => {
                            return Ok(true);
                        },
                        Ok(false) => {},
                        Err(e) => {
                            if strict {
                                return Err(e);
                            }
                        },
                    }
                }
            },
        }
    }
    Ok(false)
}

/// Whether a session id is taken in the public namespace, as creation and
/// import ask: links are passed over, and what cannot be asked counts as free.
pub fn public_session_id_namespace_present(
    listing: Result<Vec<Result<CwdProbe, IoError>>, IoError>,
) -> (r: Result<bool, IoError>)
    ensures
        r == namespace_taken(listing, false),
{
    scan_namespace(listing, false)
}

/// Whether a session id is taken in the public namespace, as a fork asks:
/// whatever cannot be asked is a failure, first of all a sessions root that is
/// no directory of its own.
pub fn persisted_session_id_present(
    root: Result<(), IoError>,
    listing: Result<Vec<Result<CwdProbe, IoError>>, IoError>,
) -> (r: Result<bool, IoError>)
    ensures
        r == (match root {
            Ok(_) => namespace_taken(listing, true),
            Err(e) => Err(e),
        }),
{
    match root {
        Ok(_) => scan_namespace(listing, true),
        Err(e) => Err(e),
    }
}

} // verus!
