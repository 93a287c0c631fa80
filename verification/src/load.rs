//! Opening a session: making a new one, or loading one from disk or from the
//! backend.

use vstd::prelude::*;
use vstd::string::*;

use crate::io_error::{ErrorKind, IoError};
use crate::lease::SessionIdLock;
use crate::pull::{PulledSession, map_pull_on_miss_result};
use crate::summary::{Info, Summary, title_text};
use crate::text::{owned, same_text};

verus! {

/// Where sessions are kept.
#[derive(Debug, Clone, Copy, PartialEq, Eq, Structural)]
pub enum StorageMode {
    Local,
    /// On disk, and written back to the backend.
    Writeback,
}

/// What is known of the user's authentication.
#[derive(Debug, Clone, Copy, PartialEq, Eq, Structural)]
pub enum Auth {
    /// There is nobody to ask.
    Absent,
    /// Nothing is loaded yet; the backend enforces its own rules.
    NotLoaded,
    Loaded { zero_data_retention: bool },
}

/// Whether a session is written back to the backend: in writeback mode, unless
/// the team retains no data there. `login_program` names the program to log in
/// with, if there is one.
pub fn init_remote_sync(mode: StorageMode, auth: Auth, login_program: Option<&str>) -> (r: Result<
    bool,
    IoError,
>)
    ensures
        r is Err <==> mode == StorageMode::Writeback && auth == Auth::Absent,
        r matches Err(e) ==> e.says(
            ErrorKind::PermissionDenied,
            match login_program {
                Some(program) => "Writeback storage mode requires authentication. Run `"@ + program@
                    + " login` first."@,
                None => "Writeback storage mode requires authentication. Sign in first."@,
            },
        ),
        r matches Ok(synced) ==> synced == (mode == StorageMode::Writeback && auth != (Auth::Loaded {
            zero_data_retention: true,
        })),
{
    match mode {
        StorageMode::Local => Ok(false),
        StorageMode::Writeback => match auth {
            Auth::Absent => Err(
                match login_program {
                    Some(program) => {
                        let mut text = owned(
                            "Writeback storage mode requires authentication. Run `",
                        );
                        text.append(program);
                        text.append(" login` first.");
                        IoError::new(ErrorKind::PermissionDenied, text.as_str())
                    },
                    None => IoError::new(
                        ErrorKind::PermissionDenied,
                        "Writeback storage mode requires authentication. Sign in first.",
                    ),
                },
            ),
            Auth::NotLoaded => Ok(true),
            Auth::Loaded { zero_data_retention } => Ok(!zero_data_retention),
        },
    }
}

/// Whether a loaded session has a title, so that none is made for it.
pub fn has_title(summary: &Summary) -> (r: bool)
    ensures
        r == (title_text(*summary).len() > 0),
{
    summary.display_title().as_str().unicode_len() > 0
}

// Loading.

/// What a load yields. `P` stands for the content of the session.
#[derive(Debug)]
pub struct Loaded<P> {
    pub persisted: P,
    pub info: Info,
    pub lifetime_lease: SessionIdLock,
}

/// What the driver does next.
#[derive(Debug)]
#[allow(inconsistent_fields)]
pub enum LoadStep<P> {
    /// Take the session's locks shared.
    Lock,
    LoadLocal,
    /// Keep the shared lock for the session's lifetime.
    RetainLease { persisted: P },
    /// Give the locks up and ask the backend.
    Pull { miss: IoError },
    /// Load what was pulled.
    LoadPulled { pulled: PulledSession },
    /// Touch the record of the session's worktree, and wait for a while until
    /// that is done.
    TouchWorktree { loaded: Loaded<P> },
    /// Decide on writing back to the backend.
    InitRemoteSync { loaded: Loaded<P> },
    Finished(Result<Loaded<P>, IoError>),
}

/// What happened.
#[derive(Debug)]
pub enum LoadEvent<P> {
    Locked(Result<(), IoError>),
    Content(Result<P, IoError>),
    Retained(Result<SessionIdLock, IoError>),
    Pulled(Result<Option<PulledSession>, IoError>),
    /// The record of the worktree is touched, or that takes too long.
    Touched,
    RemoteSync(Result<(), IoError>),
}

/// A load in progress.
#[derive(Debug)]
pub struct Load<P> {
    pub info: Info,
    /// Whether there is a backend to ask.
    pub backend: bool,
    pub step: LoadStep<P>,
}

/// Whether `event` is what the step can lead to.
pub open spec fn load_fits<P>(step: LoadStep<P>, event: LoadEvent<P>) -> bool {
    match step {
        LoadStep::Lock => event is Locked,
        LoadStep::LoadLocal => event is Content,
        LoadStep::RetainLease { .. } => event is Retained,
        LoadStep::Pull { .. } => event is Pulled,
        LoadStep::LoadPulled { .. } => event is Content,
        LoadStep::TouchWorktree { .. } => event is Touched,
        LoadStep::InitRemoteSync { .. } => event is RemoteSync,
        LoadStep::Finished(_) => false,
    }
}

/// What one event makes of a load.
pub open spec fn load_after<P>(
    info: Info,
    backend: bool,
    step: LoadStep<P>,
    event: LoadEvent<P>,
) -> LoadStep<P> {
    match (step, event) {
        (LoadStep::Lock, LoadEvent::Locked(result)) => match result {
            Ok(_) => LoadStep::LoadLocal,
            Err(e) => LoadStep::Finished(Err(e)),
        },
        (LoadStep::LoadLocal, LoadEvent::Content(result)) => match result {
            Ok(persisted) => LoadStep::RetainLease { persisted },
            Err(e) => if backend && e.kind == ErrorKind::NotFound {
                LoadStep::Pull { miss: e }
            } else {
                LoadStep::Finished(Err(e))
            },
        },
        (LoadStep::RetainLease { persisted }, LoadEvent::Retained(result)) => match result {
            Ok(lease) => LoadStep::TouchWorktree {
                loaded: Loaded { persisted, info, lifetime_lease: lease },
            },
            Err(e) => LoadStep::Finished(Err(e)),
        },
        (LoadStep::Pull { miss }, LoadEvent::Pulled(result)) => match result {
            Ok(Some(pulled)) => LoadStep::LoadPulled { pulled },
            Ok(None) => LoadStep::Finished(Err(miss)),
            Err(e) => LoadStep::Finished(Err(e)),
        },
        (LoadStep::LoadPulled { pulled }, LoadEvent::Content(result)) => match result {
            Ok(persisted) => LoadStep::TouchWorktree {
                loaded: Loaded {
                    persisted,
                    info: pulled.info,
                    lifetime_lease: pulled.lifetime_lease,
                },
            },
            Err(e) => LoadStep::Finished(Err(e)),
        },
        (LoadStep::TouchWorktree { loaded }, LoadEvent::Touched) => LoadStep::InitRemoteSync {
            loaded,
        },
        (LoadStep::InitRemoteSync { loaded }, LoadEvent::RemoteSync(result)) => match result {
            Ok(_) => LoadStep::Finished(Ok(loaded)),
            Err(e) => LoadStep::Finished(Err(e)),
        },
        (step, _) => step,
    }
}

impl<P> Load<P> {
    /// A load of the session that `info` names.
    pub fn begin(info: Info, backend: bool) -> (r: Load<P>)
        ensures
            r.info == info,
            r.backend == backend,
            r.step is Lock,
    {
        Load { info, backend, step: LoadStep::Lock }
    }

    /// Takes in what happened.
    pub fn step(self, event: LoadEvent<P>) -> (r: Load<P>)
        requires
            load_fits(self.step, event),
        ensures
            r.info == self.info,
            r.backend == self.backend,
            r.step == load_after(self.info, self.backend, self.step, event),
    {
        let info = self.info.clone();
        let backend = self.backend;
        let step = match (self.step, event) {
            (LoadStep::Lock, LoadEvent::Locked(result)) => match result {
                Ok(_) => LoadStep::LoadLocal,
                Err(e) => LoadStep::Finished(Err(e)),
            },
            (LoadStep::LoadLocal, LoadEvent::Content(result)) => match result {
                Ok(persisted) => LoadStep::RetainLease { persisted },
                Err(e) => if backend && e.kind == ErrorKind::NotFound {
                    LoadStep::Pull { miss: e }
                } else {
                    LoadStep::Finished(Err(e))
                },
            },
            (LoadStep::RetainLease { persisted }, LoadEvent::Retained(result)) => match result {
                Ok(lease) => LoadStep::TouchWorktree {
                    loaded: Loaded { persisted, info: self.info, lifetime_lease: lease },
                },
                Err(e) => LoadStep::Finished(Err(e)),
            },
            (LoadStep::Pull { miss }, LoadEvent::Pulled(result)) => match map_pull_on_miss_result(
                miss,
                result,
            ) {
                Ok(pulled) => LoadStep::LoadPulled { pulled },
                Err(e) => LoadStep::Finished(Err(e)),
            },
            (LoadStep::LoadPulled { pulled }, LoadEvent::Content(result)) => match result {
                Ok(persisted) => LoadStep::TouchWorktree {
                    loaded: Loaded {
                        persisted,
                        info: pulled.info,
                        lifetime_lease: pulled.lifetime_lease,
                    },
                },
                Err(e) => LoadStep::Finished(Err(e)),
            },
            (LoadStep::TouchWorktree { loaded }, LoadEvent::Touched) => LoadStep::InitRemoteSync {
                loaded,
            },
            (LoadStep::InitRemoteSync { loaded }, LoadEvent::RemoteSync(result)) => match result {
                Ok(_) => LoadStep::Finished(Ok(loaded)),
                Err(e) => LoadStep::Finished(Err(e)),
            },
            (step, _) => step,
        };
        Load { info, backend, step }
    }
}

/// The backend is asked only after a session was not found here, and a session
/// that it has not either is reported as the miss that it was.
pub proof fn backend_is_asked_on_miss_only<P>(
    info: Info,
    backend: bool,
    step: LoadStep<P>,
    event: LoadEvent<P>,
)
    requires
        load_fits(step, event),
    ensures
        load_after(info, backend, step, event) is Pull ==> {
            &&& backend
            &&& step is LoadLocal
            &&& event matches LoadEvent::Content(Err(e)) && e.kind == ErrorKind::NotFound
        },
        step is Pull && event == LoadEvent::<P>::Pulled(Ok(None)) ==> load_after(
            info,
            backend,
            step,
            event,
        ) == LoadStep::<P>::Finished(Err(step->miss)),
{
}

/// A load succeeds only with a session whose worktree was touched after its
/// content was read and its lease taken, so that nobody clears the worktree away
/// while the session is being opened.
pub proof fn worktree_is_touched_before_load_ends<P>(
    info: Info,
    backend: bool,
    step: LoadStep<P>,
    event: LoadEvent<P>,
)
    requires
        load_fits(step, event),
    ensures
        load_after(info, backend, step, event) matches LoadStep::Finished(Ok(loaded)) ==> step
            == (LoadStep::InitRemoteSync { loaded }),
        load_after(info, backend, step, event) matches LoadStep::InitRemoteSync { loaded } ==> step
            == (LoadStep::TouchWorktree { loaded }),
{
}

// Making a session.

/// What the driver does next.
#[derive(Debug)]
pub enum CreateStep {
    /// Claim a fresh session and its private stage.
    Claim,
    InitSession,
    /// Touch the record of the worktree, and wait for a while until that is
    /// done.
    TouchWorktree,
    /// Write the summary to the directory of the caller's own.
    WriteSummary,
    UpdateModel,
    /// Decide on writing back to the backend.
    InitRemoteSync,
    Finished(Result<(), IoError>),
}

/// What happened.
#[derive(Debug)]
pub enum CreateEvent {
    Done(Result<(), IoError>),
    Initialized(Result<Summary, IoError>),
    /// The record of the worktree is touched, or that takes too long.
    Touched,
}

/// The making of a session. One in a directory of the caller's own belongs to
/// a subagent: it is neither claimed nor written back.
#[derive(Debug)]
pub struct Create {
    pub explicit_dir: bool,
    pub model_id: String,
    pub summary: Option<Summary>,
    pub step: CreateStep,
}

impl Create {
    pub open spec fn wf(&self) -> bool {
        &&& self.step is TouchWorktree || self.step is WriteSummary || self.step is UpdateModel
            || self.step is InitRemoteSync ==> self.summary is Some
        &&& self.step is TouchWorktree || self.step is WriteSummary ==> self.explicit_dir
        &&& self.step is Claim || self.step is InitRemoteSync ==> !self.explicit_dir
    }

    /// Whether `event` is what the step can lead to.
    pub open spec fn fits(&self, event: CreateEvent) -> bool {
        match self.step {
            CreateStep::InitSession => event is Initialized,
            CreateStep::TouchWorktree => event is Touched,
            CreateStep::Finished(_) => false,
            _ => event is Done,
        }
    }

    /// What comes once the stored model is the wanted one.
    pub open spec fn after_model(self) -> CreateStep {
        if self.explicit_dir {
            CreateStep::Finished(Ok(()))
        } else {
            CreateStep::InitRemoteSync
        }
    }

    /// What comes once the summary is stored.
    pub open spec fn after_stored(self) -> CreateStep {
        if self.summary->0.current_model_id@ != self.model_id@ {
            CreateStep::UpdateModel
        } else {
            self.after_model()
        }
    }

    /// Whether `event` leads from here to `new`.
    pub open spec fn leads_to(self, event: CreateEvent, new: Create) -> bool {
        match event {
            CreateEvent::Done(Err(e)) => new == Create {
                step: CreateStep::Finished(Err(e)),
                ..self
            },
            CreateEvent::Initialized(Err(e)) => new == Create {
                step: CreateStep::Finished(Err(e)),
                ..self
            },
            CreateEvent::Initialized(Ok(summary)) => if self.explicit_dir {
                &&& new.summary is Some
                &&& new.summary->0 == Summary {
                    session_kind: new.summary->0.session_kind,
                    ..summary
                }
                &&& match summary.session_kind {
                    Some(kind) => new.summary->0.session_kind == Some(kind),
                    None => new.summary->0.session_kind is Some
                        && new.summary->0.session_kind->0@ == "subagent"@,
                }
                &&& new == Create {
                    summary: new.summary,
                    step: CreateStep::TouchWorktree,
                    ..self
                }
            } else {
                new == Create {
                    summary: Some(summary),
                    step: Create { summary: Some(summary), ..self }.after_stored(),
                    ..self
                }
            },
            CreateEvent::Touched => new == Create { step: CreateStep::WriteSummary, ..self },
            CreateEvent::Done(Ok(_)) => match self.step {
                CreateStep::Claim => new == Create { step: CreateStep::InitSession, ..self },
                CreateStep::WriteSummary => new == Create { step: self.after_stored(), ..self },
                CreateStep::UpdateModel => {
                    &&& new.summary is Some
                    &&& new.summary->0 == Summary {
                        current_model_id: self.model_id,
                        ..self.summary->0
                    }
                    &&& new == Create {
                        summary: new.summary,
                        step: self.after_model(),
                        ..self
                    }
                },
                CreateStep::InitRemoteSync => new == Create {
                    step: CreateStep::Finished(Ok(())),
                    ..self
                },
                _ => new == self,
            },
        }
    }

    pub fn begin(explicit_dir: bool, model_id: String) -> (r: Create)
        ensures
            r.wf(),
            r == (Create {
                explicit_dir,
                model_id,
                summary: None,
                step: if explicit_dir {
                    CreateStep::InitSession
                } else {
                    CreateStep::Claim
                },
            }),
    {
        let step = if explicit_dir {
            CreateStep::InitSession
        } else {
            CreateStep::Claim
        };
        Create { explicit_dir, model_id, summary: None, step }
    }

    fn next_after_model(&self) -> (r: CreateStep)
        ensures
            r == self.after_model(),
    {
        if self.explicit_dir {
            CreateStep::Finished(Ok(()))
        } else {
            CreateStep::InitRemoteSync
        }
    }

    fn next_after_stored(&self) -> (r: CreateStep)
        requires
            self.summary is Some,
        ensures
            r == self.after_stored(),
    {
        if let Some(summary) = &self.summary {
            if !same_text(summary.current_model_id.as_str(), self.model_id.as_str()) {
                return CreateStep::UpdateModel;
            }
        }
        self.next_after_model()
    }

    fn after_init(self, summary: Summary) -> (r: Create)
        requires
            self.step is InitSession,
        ensures
            self.leads_to(CreateEvent::Initialized(Ok(summary)), r),
            r.wf(),
    {
        let mut c = self;
        let mut summary = summary;
        if c.explicit_dir {
            if summary.session_kind.is_none() {
                summary.session_kind = Some(owned("subagent"));
            }
            c.summary = Some(summary);
            c.step = CreateStep::TouchWorktree;
        } else {
            c.summary = Some(summary);
            c.step = c.next_after_stored();
        }
        c
    }

    fn after_done(self) -> (r: Create)
        requires
            self.wf(),
            self.fits(CreateEvent::Done(Ok(()))),
        ensures
            self.leads_to(CreateEvent::Done(Ok(())), r),
            r.wf(),
    {
        let mut c = self;
        match c.step {
            CreateStep::Claim => {
                c.step = CreateStep::InitSession;
            },
            CreateStep::WriteSummary => {
                c.step = c.next_after_stored();
            },
            CreateStep::UpdateModel => {
                if let Some(s) = c.summary {
                    let mut summary = s;
                    summary.current_model_id = c.model_id.clone();
                    c.summary = Some(summary);
                }
                c.step = c.next_after_model();
            },
            _ => {
                c.step = CreateStep::Finished(Ok(()));
            },
        }
        c
    }

    /// Takes in what happened.
    pub fn step(self, event: CreateEvent) -> (r: Create)
        requires
            self.wf(),
            self.fits(event),
        ensures
            self.leads_to(event, r),
            r.wf(),
    {
        match event {
            CreateEvent::Initialized(Ok(summary)) => self.after_init(summary),
            CreateEvent::Touched => {
                let mut c = self;
                c.step = CreateStep::WriteSummary;
                c
            },
            CreateEvent::Done(Ok(_)) => self.after_done(),
            CreateEvent::Done(Err(e)) => {
                let mut c = self;
                c.step = CreateStep::Finished(Err(e));
                c
            },
            CreateEvent::Initialized(Err(e)) => {
                let mut c = self;
                c.step = CreateStep::Finished(Err(e));
                c
            },
        }
    }
}

/// A session in a directory of the caller's own is made only once its worktree
/// was touched.
pub proof fn worktree_is_touched_before_creation_ends(c: Create, event: CreateEvent, new: Create)
    requires
        c.wf(),
        c.fits(event),
        c.leads_to(event, new),
        c.explicit_dir,
    ensures
        new.step is WriteSummary ==> c.step is TouchWorktree,
        new.step is UpdateModel ==> c.step is WriteSummary,
        new.step matches CreateStep::Finished(Ok(_)) ==> c.step is WriteSummary || c.step
            is UpdateModel,
{
}

} // verus!
