//! Finding sessions over all working directories.
//!
//! A view lists the sessions of all working directories as relocations under
//! way leave them, in the order in which they are looked at.

use vstd::prelude::*;
use vstd::string::*;

use crate::io_error::{ErrorKind, IoError};
use crate::resolve::{
    SessionsRoot, StoredSession, SummaryRead, find_local_child_for_remote, local_child,
    session_exists_for_cwd, stored_under,
};
use crate::summary::{Info, Summary};
use crate::text::{before, copy_opt, owned, same_text, text_before, text_order, text_order_transitive};
use crate::timestamp::Timestamp;

verus! {

/// A session in a view.
#[derive(Debug)]
pub struct ViewedSession {
    /// The name of the directory of its working directory.
    pub dirname: String,
    /// The working directory that this name stands for, where it can be told.
    pub cwd: Option<String>,
    pub session: StoredSession,
}

impl ViewedSession {
    /// Whether this is a resumable session of this id.
    pub open spec fn resumable(&self, id: Seq<char>) -> bool {
        self.session.is_named(id) && self.session.persisted()
    }

    /// Whether this is a resumable session under this directory name.
    pub open spec fn lies_in(&self, dirname: Seq<char>) -> bool {
        self.dirname@ == dirname && self.session.persisted()
    }

    fn is_resumable(&self, id: &str) -> (r: bool)
        ensures
            r == self.resumable(id@),
    {
        self.session.bears_name(id) && self.session.is_persisted_session_dir()
    }

    fn is_in(&self, dirname: &str) -> (r: bool)
        ensures
            r == self.lies_in(dirname@),
    {
        same_text(self.dirname.as_str(), dirname) && self.session.is_persisted_session_dir()
    }
}

/// The sessions of all working directories.
#[derive(Debug)]
pub struct SessionsView {
    pub sessions: Vec<ViewedSession>,
}

/// The first resumable session of an id at or after `from`.
pub open spec fn resumable_from(sessions: Seq<ViewedSession>, id: Seq<char>, from: nat) -> nat
    decreases sessions.len() - from,
{
    if from >= sessions.len() || sessions[from as int].resumable(id) {
        from
    } else {
        resumable_from(sessions, id, from + 1)
    }
}

/// The first directory of an id at or after `from`, resumable or not.
pub open spec fn directory_from(sessions: Seq<ViewedSession>, id: Seq<char>, from: nat) -> nat
    decreases sessions.len() - from,
{
    if from >= sessions.len() || (sessions[from as int].session.is_named(id)
        && sessions[from as int].session.is_dir) {
        from
    } else {
        directory_from(sessions, id, from + 1)
    }
}

impl SessionsView {
    /// The first resumable session of an id.
    pub open spec fn first_resumable(&self, id: Seq<char>) -> Option<ViewedSession> {
        let i = resumable_from(self.sessions@, id, 0);
        if i < self.sessions@.len() {
            Some(self.sessions@[i as int])
        } else {
            None
        }
    }

    /// The first directory of an id.
    pub open spec fn first_directory(&self, id: Seq<char>) -> Option<ViewedSession> {
        let i = directory_from(self.sessions@, id, 0);
        if i < self.sessions@.len() {
            Some(self.sessions@[i as int])
        } else {
            None
        }
    }

    /// The summary of the first resumable session of an id, where it can be
    /// read.
    pub open spec fn summary_of(&self, id: Seq<char>) -> Option<Summary> {
        match self.first_resumable(id) {
            Some(found) => match found.session.summary {
                SummaryRead::Read(summary) => Some(summary),
                _ => None,
            },
            None => None,
        }
    }

    /// The first resumable session of an id.
    pub fn find_persisted_session_dir(&self, session_id: &str) -> (r: Option<&ViewedSession>)
        ensures
            match r {
                Some(found) => self.first_resumable(session_id@) == Some(*found),
                None => self.first_resumable(session_id@) is None,
            },
    {
        let mut i: usize = 0;
        while i < self.sessions.len()
            invariant
                i <= self.sessions.len(),
                resumable_from(self.sessions@, session_id@, 0) == resumable_from(
                    self.sessions@,
                    session_id@,
                    i as nat,
                ),
            decreases self.sessions.len() - i,
        {
            if self.sessions[i].is_resumable(session_id) {
                return Some(&self.sessions[i]);
            }
            i = i + 1;
        }
        None
    }
}

/// Whether a resumable session of this id is stored anywhere.
pub fn session_exists_in_root(session_id: &str, view: &SessionsView) -> (r: bool)
    ensures
        r == view.first_resumable(session_id@) is Some,
{
    view.find_persisted_session_dir(session_id).is_some()
}

/// The first resumable session of an id is one, and nothing before it is.
pub proof fn first_resumable_is_first(view: SessionsView, id: Seq<char>)
    ensures
        view.first_resumable(id) is Some <==> (exists|i: int|
            0 <= i < view.sessions@.len() && (#[trigger] view.sessions@[i]).resumable(id)),
        view.first_resumable(id) matches Some(found) ==> found.resumable(id),
{
    resumable_is_first(view.sessions@, id, 0);
}

proof fn resumable_is_first(sessions: Seq<ViewedSession>, id: Seq<char>, from: nat)
    requires
        from <= sessions.len(),
    ensures
        from <= resumable_from(sessions, id, from) <= sessions.len(),
        resumable_from(sessions, id, from) < sessions.len() ==> sessions[resumable_from(
            sessions,
            id,
            from,
        ) as int].resumable(id),
        forall|i: int|
            from <= i < resumable_from(sessions, id, from) ==> !(
            #[trigger] sessions[i]).resumable(id),
    decreases sessions.len() - from,
{
    if from < sessions.len() && !sessions[from as int].resumable(id) {
        resumable_is_first(sessions, id, from + 1);
    }
}

/// The working directory of a session, whichever it is.
pub fn resolve_local_session_any_cwd(session_id: &str, view: &SessionsView) -> (r: Option<String>)
    ensures
        r == (match view.first_resumable(session_id@) {
            Some(found) => found.cwd,
            None => None,
        }),
{
    match view.find_persisted_session_dir(session_id) {
        Some(found) => copy_opt(&found.cwd),
        None => None,
    }
}

/// The directory of a session, whether or not it can be resumed.
pub fn find_session_dir_by_id<'a>(session_id: &str, view: &'a SessionsView) -> (r: Option<
    &'a ViewedSession,
>)
    ensures
        match r {
            Some(found) => view.first_directory(session_id@) == Some(*found),
            None => view.first_directory(session_id@) is None,
        },
{
    let mut i: usize = 0;
    while i < view.sessions.len()
        invariant
            i <= view.sessions.len(),
            directory_from(view.sessions@, session_id@, 0) == directory_from(
                view.sessions@,
                session_id@,
                i as nat,
            ),
        decreases view.sessions.len() - i,
    {
        if view.sessions[i].session.bears_name(session_id) && view.sessions[i].session.is_dir {
            return Some(&view.sessions[i]);
        }
        i = i + 1;
    }
    None
}

/// The summary of a session, whichever its working directory is.
pub fn find_summary_by_session_id<'a>(session_id: &str, view: &'a SessionsView) -> (r: Option<
    &'a Summary,
>)
    ensures
        match r {
            Some(summary) => view.summary_of(session_id@) == Some(*summary),
            None => view.summary_of(session_id@) is None,
        },
{
    match view.find_persisted_session_dir(session_id) {
        Some(found) => match &found.session.summary {
            SummaryRead::Read(summary) => Some(summary),
            _ => None,
        },
        None => None,
    }
}

/// The name of the directory under which a session is published: the preferred
/// one where the session lies there, else the one that the view shows.
pub open spec fn published_under(
    session_id: Seq<char>,
    preferred: Option<Seq<char>>,
    root: SessionsRoot,
    view: SessionsView,
) -> Option<Seq<char>> {
    if preferred is Some && stored_under(root, preferred->0, session_id) {
        preferred
    } else {
        match view.first_resumable(session_id) {
            Some(found) => Some(found.dirname@),
            None => None,
        }
    }
}

/// Where a session is published, looked up while its id is locked.
pub fn resolve_published_session_dir_locked(
    session_id: &str,
    preferred: Option<&str>,
    root: &SessionsRoot,
    view: &SessionsView,
) -> (r: Option<String>)
    ensures
        match r {
            Some(dirname) => published_under(session_id@, text_of(preferred), *root, *view) == Some(
                dirname@,
            ),
            None => published_under(session_id@, text_of(preferred), *root, *view) is None,
        },
{
    if let Some(dirname) = preferred {
        if session_exists_for_cwd(session_id, dirname, root) {
            return Some(owned(dirname));
        }
    }
    match view.find_persisted_session_dir(session_id) {
        Some(found) => Some(found.dirname.clone()),
        None => None,
    }
}

// The sessions of one working directory.

/// Whether reading failed in a way that is not passed over: a malformed summary
/// and one that has gone meanwhile are.
pub open spec fn is_fatal(read: SummaryRead) -> bool {
    read matches SummaryRead::Failed(e) && e.kind != ErrorKind::NotFound
}

/// Whether a session is listed under a directory name.
pub open spec fn is_listed(v: ViewedSession, dirname: Seq<char>) -> bool {
    v.lies_in(dirname) && (v.session.summary matches SummaryRead::Read(s)
        && !s.hidden_from_listings())
}

/// Whether `a` was used after `b`; of two used at the same time, whether its id
/// is the smaller.
pub open spec fn used_after(a: Summary, b: Summary) -> bool {
    a.last_change().after(b.last_change()) || (a.last_change() == b.last_change() && text_before(
        a.info.id@,
        b.info.id@,
    ))
}

/// The place of the most recently used of the first `n` sessions under a
/// directory name; the first failure that is not passed over comes out.
pub open spec fn most_recent(sessions: Seq<ViewedSession>, dirname: Seq<char>, n: nat) -> Result<
    Option<nat>,
    IoError,
>
    decreases n,
{
    if n == 0 {
        Ok(None)
    } else {
        let last = sessions[n - 1];
        match most_recent(sessions, dirname, (n - 1) as nat) {
            Err(e) => Err(e),
            Ok(best) => if last.lies_in(dirname) && is_fatal(last.session.summary) {
                Err(last.session.summary->Failed_0)
            } else if is_listed(last, dirname) && (best is None || used_after(
                last.session.summary->Read_0,
                sessions[best->0 as int].session.summary->Read_0,
            )) {
                Ok(Some((n - 1) as nat))
            } else {
                Ok(best)
            },
        }
    }
}

fn last_change_of(s: &Summary) -> (r: Timestamp)
    ensures
        r == s.last_change(),
{
    match s.last_active_at {
        Some(at) => at,
        None => s.updated_at,
    }
}

fn is_used_after(a: &Summary, b: &Summary) -> (r: bool)
    ensures
        r == used_after(*a, *b),
{
    let at = last_change_of(a);
    let other = last_change_of(b);
    at.is_after(&other) || (at == other && before(a.info.id.as_str(), b.info.id.as_str()))
}

/// The most recently used session under a directory name, hidden ones left out.
pub fn most_recent_local_summary_for_cwd<'a>(dirname: &str, view: &'a SessionsView) -> (r: Result<
    Option<&'a Summary>,
    &'a IoError,
>)
    ensures
        match (r, most_recent(view.sessions@, dirname@, view.sessions@.len())) {
            (Err(e), Err(f)) => *e == f,
            (Ok(None), Ok(None)) => true,
            (Ok(Some(s)), Ok(Some(i))) => {
                &&& i < view.sessions@.len()
                &&& is_listed(view.sessions@[i as int], dirname@)
                &&& *s == view.sessions@[i as int].session.summary->Read_0
            },
            _ => false,
        },
{
    let mut best: Option<&'a Summary> = None;
    let ghost mut place: nat = 0;
    let mut i: usize = 0;
    while i < view.sessions.len()
        invariant
            i <= view.sessions.len(),
            match (best, most_recent(view.sessions@, dirname@, i as nat)) {
                (None, Ok(None)) => true,
                (Some(s), Ok(Some(at))) => {
                    &&& at == place
                    &&& place < i
                    &&& is_listed(view.sessions@[place as int], dirname@)
                    &&& *s == view.sessions@[place as int].session.summary->Read_0
                },
                _ => false,
            },
        decreases view.sessions.len() - i,
    {
        let v = &view.sessions[i];
        if v.is_in(dirname) {
            match &v.session.summary {
                SummaryRead::Read(summary) => {
                    if !summary.is_hidden() {
                        let newer = match best {
                            None => true,
                            Some(current) => is_used_after(summary, current),
                        };
                        if newer {
                            best = Some(summary);
                            proof {
                                place = i as nat;
                            }
                        }
                    }
                },
                SummaryRead::Malformed => {},
                SummaryRead::Failed(e) => {
                    if e.kind != ErrorKind::NotFound {
                        proof {
                            failure_stays(view.sessions@, dirname@, (i + 1) as nat, *e);
                        }
                        return Err(e);
                    }
                },
            }
        }
        i = i + 1;
    }
    Ok(best)
}

proof fn failure_stays(sessions: Seq<ViewedSession>, dirname: Seq<char>, n: nat, e: IoError)
    requires
        n <= sessions.len(),
        most_recent(sessions, dirname, n) == Err::<Option<nat>, IoError>(e),
    ensures
        most_recent(sessions, dirname, sessions.len()) == Err::<Option<nat>, IoError>(e),
    decreases sessions.len() - n,
{
    if n < sessions.len() {
        failure_stays(sessions, dirname, n + 1, e);
    }
}

proof fn used_after_is_transitive(a: Summary, b: Summary, c: Summary)
    requires
        used_after(a, b),
        used_after(b, c),
    ensures
        used_after(a, c),
{
    if text_before(a.info.id@, b.info.id@) && text_before(b.info.id@, c.info.id@) {
        text_order_transitive(a.info.id@, b.info.id@, c.info.id@);
    }
}

/// Of the listed sessions none was used after the most recent one; and without
/// a failure there is a most recent one wherever any session is listed.
pub proof fn most_recent_is_latest(sessions: Seq<ViewedSession>, dirname: Seq<char>, n: nat)
    requires
        n <= sessions.len(),
        most_recent(sessions, dirname, n) is Ok,
    ensures
        most_recent(sessions, dirname, n) matches Ok(Some(best)) ==> {
            &&& best < n
            &&& is_listed(sessions[best as int], dirname)
            &&& forall|i: int|
                0 <= i < n && is_listed(#[trigger] sessions[i], dirname) ==> !used_after(
                    sessions[i].session.summary->Read_0,
                    sessions[best as int].session.summary->Read_0,
                )
        },
        most_recent(sessions, dirname, n) == Ok::<Option<nat>, IoError>(None) ==> forall|i: int|
            0 <= i < n ==> !is_listed(#[trigger] sessions[i], dirname),
    decreases n,
{
    if n > 0 {
        most_recent_is_latest(sessions, dirname, (n - 1) as nat);
        let earlier = most_recent(sessions, dirname, (n - 1) as nat)->Ok_0;
        if let Some(best) = most_recent(sessions, dirname, n)->Ok_0 {
            let chosen = sessions[best as int].session.summary->Read_0;
            text_order(chosen.info.id@, chosen.info.id@);
            assert forall|i: int|
                0 <= i < n && is_listed(#[trigger] sessions[i], dirname) implies !used_after(
                sessions[i].session.summary->Read_0,
                chosen,
            ) by {
                let s = sessions[i].session.summary->Read_0;
                if i < n - 1 && best == n - 1 && used_after(s, chosen) {
                    if let Some(previous) = earlier {
                        used_after_is_transitive(
                            s,
                            chosen,
                            sessions[previous as int].session.summary->Read_0,
                        );
                    }
                }
            }
        }
    }
}

/// The summaries listed under a directory name among the first `n` sessions.
pub open spec fn listed(sessions: Seq<ViewedSession>, dirname: Seq<char>, n: nat) -> Seq<Summary>
    decreases n,
{
    if n == 0 {
        seq![]
    } else {
        let earlier = listed(sessions, dirname, (n - 1) as nat);
        if is_listed(sessions[n - 1], dirname) {
            earlier.push(sessions[n - 1].session.summary->Read_0)
        } else {
            earlier
        }
    }
}

/// The summaries of the sessions under a directory name, hidden ones and those
/// that cannot be read left out.
pub fn local_summaries_for_cwd_sync<'a>(dirname: &str, view: &'a SessionsView) -> (r: Vec<
    &'a Summary,
>)
    ensures
        r@.len() == listed(view.sessions@, dirname@, view.sessions@.len()).len(),
        forall|i: int|
            0 <= i < r@.len() ==> *(#[trigger] r@[i]) == listed(
                view.sessions@,
                dirname@,
                view.sessions@.len(),
            )[i],
{
    let mut out: Vec<&'a Summary> = Vec::new();
    let mut i: usize = 0;
    while i < view.sessions.len()
        invariant
            i <= view.sessions.len(),
            out@.len() == listed(view.sessions@, dirname@, i as nat).len(),
            forall|k: int|
                0 <= k < out@.len() ==> *(#[trigger] out@[k]) == listed(
                    view.sessions@,
                    dirname@,
                    i as nat,
                )[k],
        decreases view.sessions.len() - i,
    {
        let v = &view.sessions[i];
        if v.is_in(dirname) {
            if let SummaryRead::Read(summary) = &v.session.summary {
                if !summary.is_hidden() {
                    out.push(summary);
                }
            }
        }
        i = i + 1;
    }
    out
}

// The sandbox profile of a session to resume.

/// The profile stored with a session that is about to be resumed: the session
/// of the id, else the child restored from it here; without an id, the session
/// most recently used here.
pub open spec fn resumed_profile(
    session_id: Option<Seq<char>>,
    dirname: Option<Seq<char>>,
    root: SessionsRoot,
    view: SessionsView,
) -> Option<String> {
    match session_id {
        Some(id) if id.len() > 0 => match view.summary_of(id) {
            Some(summary) => summary.sandbox_profile,
            None => match dirname {
                Some(dirname) => match local_child(root, dirname, id) {
                    Some(child) => match view.summary_of(child) {
                        Some(summary) => summary.sandbox_profile,
                        None => None,
                    },
                    None => None,
                },
                None => None,
            },
        },
        _ => match dirname {
            Some(dirname) => match most_recent(view.sessions@, dirname, view.sessions@.len()) {
                Ok(Some(i)) => view.sessions@[i as int].session.summary->Read_0.sandbox_profile,
                _ => None,
            },
            None => None,
        },
    }
}

pub open spec fn text_of(text: Option<&str>) -> Option<Seq<char>> {
    match text {
        Some(text) => Some(text@),
        None => None,
    }
}

/// The sandbox profile stored with a session that is about to be resumed, so
/// that it is applied before anything else runs. Nothing where no session is
/// found or it has no profile.
pub fn resumed_session_sandbox_profile(
    session_id: Option<&str>,
    dirname: Option<&str>,
    root: &SessionsRoot,
    view: &SessionsView,
) -> (r: Option<String>)
    ensures
        r == resumed_profile(text_of(session_id), text_of(dirname), *root, *view),
{
    if let Some(id) = session_id {
        if id.unicode_len() > 0 {
            if let Some(summary) = find_summary_by_session_id(id, view) {
                return copy_opt(&summary.sandbox_profile);
            }
            if let Some(dirname) = dirname {
                if let Some(child) = find_local_child_for_remote(id, dirname, root) {
                    return match find_summary_by_session_id(child.as_str(), view) {
                        Some(summary) => copy_opt(&summary.sandbox_profile),
                        None => None,
                    };
                }
            }
            return None;
        }
    }
    match dirname {
        Some(dirname) => match most_recent_local_summary_for_cwd(dirname, view) {
            Ok(Some(summary)) => copy_opt(&summary.sandbox_profile),
            _ => None,
        },
        None => None,
    }
}

// The session to delete.

/// The first resumable session of an id under a directory name at or after
/// `from`.
pub open spec fn named_in_from(
    sessions: Seq<ViewedSession>,
    dirname: Seq<char>,
    id: Seq<char>,
    from: nat,
) -> nat
    decreases sessions.len() - from,
{
    if from >= sessions.len() || (sessions[from as int].lies_in(dirname)
        && sessions[from as int].session.is_named(id)) {
        from
    } else {
        named_in_from(sessions, dirname, id, from + 1)
    }
}

/// The session that an id means to a deletion, under one working directory or
/// under any.
pub open spec fn meant(view: SessionsView, id: Seq<char>, dirname: Option<Seq<char>>) -> Option<
    ViewedSession,
> {
    match dirname {
        None => view.first_resumable(id),
        Some(dirname) => {
            let i = named_in_from(view.sessions@, dirname, id, 0);
            if i < view.sessions@.len() {
                Some(view.sessions@[i as int])
            } else {
                None
            }
        },
    }
}

/// What is deleted here: the session that is meant, if its summary can be read,
/// bears the id and is not hidden.
pub open spec fn deletable(view: SessionsView, id: Seq<char>, dirname: Option<Seq<char>>) -> Option<
    Info,
> {
    match meant(view, id, dirname) {
        Some(v) => match v.session.summary {
            SummaryRead::Read(s) if s.info.id@ == id && !s.hidden_from_listings() => Some(s.info),
            _ => None,
        },
        None => None,
    }
}

fn find_meant<'a>(view: &'a SessionsView, session_id: &str, dirname: Option<&str>) -> (r: Option<
    &'a ViewedSession,
>)
    ensures
        match r {
            Some(found) => meant(*view, session_id@, text_of(dirname)) == Some(*found),
            None => meant(*view, session_id@, text_of(dirname)) is None,
        },
{
    match dirname {
        None => view.find_persisted_session_dir(session_id),
        Some(name) => {
            let mut i: usize = 0;
            while i < view.sessions.len()
                invariant
                    i <= view.sessions.len(),
                    dirname == Some(name),
                    named_in_from(view.sessions@, name@, session_id@, 0) == named_in_from(
                        view.sessions@,
                        name@,
                        session_id@,
                        i as nat,
                    ),
                decreases view.sessions.len() - i,
            {
                if view.sessions[i].is_in(name) && view.sessions[i].session.bears_name(
                    session_id,
                ) {
                    return Some(&view.sessions[i]);
                }
                i = i + 1;
            }
            None
        },
    }
}

/// The session here that a deletion is about, if there is one.
pub fn find_deletable_local_info(view: &SessionsView, session_id: &str, dirname: Option<&str>) -> (r:
    Option<Info>)
    ensures
        r == deletable(*view, session_id@, text_of(dirname)),
{
    match find_meant(view, session_id, dirname) {
        Some(found) => match &found.session.summary {
            SummaryRead::Read(summary) => if same_text(summary.info.id.as_str(), session_id)
                && !summary.is_hidden() {
                Some(summary.info.clone())
            } else {
                None
            },
            _ => None,
        },
        None => None,
    }
}

// The most recent session, by the times that are stored.

/// Whether a point in time is later than another.
pub open spec fn later(a: Timestamp, b: Timestamp) -> bool {
    a.seconds > b.seconds || (a.seconds == b.seconds && a.nanos > b.nanos)
}

/// Whether the last activity of a session was at `at`: its stored activity
/// where there is one, and only without one its last write.
pub open spec fn active_at(s: Summary, at: Timestamp) -> bool {
    if s.last_active_at is Some {
        s.last_active_at == Some(at)
    } else {
        s.updated_at == at
    }
}

/// Whether a session shows under a directory name: it is a published session
/// there with a summary that can be read, and its summary does not hide it.
pub open spec fn shows_under(v: ViewedSession, dirname: Seq<char>) -> bool {
    &&& v.dirname@ == dirname
    &&& !v.session.unpublished && v.session.summary_is_file
    &&& v.session.summary is Read
    &&& ({
        let s = v.session.summary->Read_0;
        &&& s.hidden != Some(true)
        &&& s.hidden is None ==> !(s.session_kind matches Some(kind) && kind@.len() >= 8
            && kind@.take(8) == "subagent"@)
    })
}

proof fn listed_is_shown(v: ViewedSession, dirname: Seq<char>)
    ensures
        is_listed(v, dirname) == shows_under(v, dirname),
{
    reveal_strlit("subagent");
}

/// Of the sessions that show under a directory name, none was active later than
/// the most recent one, and of those that were active at the same time none has
/// a smaller id. Where any session shows, there is a most recent one.
pub proof fn nobody_was_active_later(
    sessions: Seq<ViewedSession>,
    dirname: Seq<char>,
    i: int,
    at: Timestamp,
)
    requires
        most_recent(sessions, dirname, sessions.len()) is Ok,
        0 <= i < sessions.len(),
        shows_under(sessions[i], dirname),
        active_at(sessions[i].session.summary->Read_0, at),
    ensures
        most_recent(sessions, dirname, sessions.len()) matches Ok(Some(best)) && {
            let chosen = sessions[best as int].session.summary->Read_0;
            &&& best < sessions.len()
            &&& shows_under(sessions[best as int], dirname)
            &&& forall|its: Timestamp| #[trigger]
                active_at(chosen, its) ==> !later(at, its) && (at == its ==> !text_before(
                    sessions[i].session.summary->Read_0.info.id@,
                    chosen.info.id@,
                ))
        },
{
    most_recent_is_latest(sessions, dirname, sessions.len());
    listed_is_shown(sessions[i], dirname);
    let s = sessions[i].session.summary->Read_0;
    if let Some(best) = most_recent(sessions, dirname, sessions.len())->Ok_0 {
        listed_is_shown(sessions[best as int], dirname);
        let chosen = sessions[best as int].session.summary->Read_0;
        assert(!used_after(s, chosen));
        assert(s.last_change() == at);
        assert forall|its: Timestamp| #[trigger] active_at(chosen, its) implies !later(at, its) && (
        at == its ==> !text_before(s.info.id@, chosen.info.id@)) by {
            assert(chosen.last_change() == its);
        }
    }
}

/// Whether two views show the same sessions, but for when those that have a
/// stored activity were last written.
pub open spec fn same_but_for_writes(a: ViewedSession, b: ViewedSession) -> bool {
    &&& a.dirname == b.dirname && a.cwd == b.cwd
    &&& match (a.session.summary, b.session.summary) {
        (SummaryRead::Read(s), SummaryRead::Read(t)) => {
            &&& b.session == StoredSession { summary: b.session.summary, ..a.session }
            &&& t == Summary { updated_at: t.updated_at, ..s }
            &&& s.last_active_at is None ==> s == t
        },
        _ => a.session == b.session,
    }
}

proof fn writes_do_not_order(a: Summary, b: Summary, c: Summary, d: Summary)
    requires
        b == (Summary { updated_at: b.updated_at, ..a }),
        a.last_active_at is None ==> a == b,
        d == (Summary { updated_at: d.updated_at, ..c }),
        c.last_active_at is None ==> c == d,
    ensures
        used_after(a, c) == used_after(b, d),
{
}

/// When a session that has a stored activity was last written has no part in
/// which session is the most recent one.
pub proof fn later_writes_do_not_count(
    a: Seq<ViewedSession>,
    b: Seq<ViewedSession>,
    dirname: Seq<char>,
    n: nat,
)
    requires
        a.len() == b.len(),
        n <= a.len(),
        forall|i: int| 0 <= i < a.len() ==> same_but_for_writes(#[trigger] a[i], b[i]),
    ensures
        most_recent(a, dirname, n) == most_recent(b, dirname, n),
    decreases n,
{
    if n > 0 {
        later_writes_do_not_count(a, b, dirname, (n - 1) as nat);
        let last = n - 1;
        assert(same_but_for_writes(a[last], b[last]));
        assert(a[last].lies_in(dirname) == b[last].lies_in(dirname));
        assert(is_listed(a[last], dirname) == is_listed(b[last], dirname));
        match most_recent(a, dirname, (n - 1) as nat) {
            Ok(Some(best)) => {
                best_is_listed(a, dirname, (n - 1) as nat);
                assert(same_but_for_writes(a[best as int], b[best as int]));
                if is_listed(a[last], dirname) {
                    writes_do_not_order(
                        a[last].session.summary->Read_0,
                        b[last].session.summary->Read_0,
                        a[best as int].session.summary->Read_0,
                        b[best as int].session.summary->Read_0,
                    );
                }
            },
            _ => {},
        }
    }
}

proof fn best_is_listed(sessions: Seq<ViewedSession>, dirname: Seq<char>, n: nat)
    requires
        n <= sessions.len(),
    ensures
        most_recent(sessions, dirname, n) matches Ok(Some(best)) ==> best < n && is_listed(
            sessions[best as int],
            dirname,
        ),
    decreases n,
{
    if n > 0 {
        best_is_listed(sessions, dirname, (n - 1) as nat);
    }
}

/// A session that cannot be read, for another reason than that it has gone or
/// is malformed, fails the search for the most recent one; no other does.
pub proof fn only_real_failures_fail(sessions: Seq<ViewedSession>, dirname: Seq<char>, n: nat)
    requires
        n <= sessions.len(),
    ensures
        most_recent(sessions, dirname, n) is Err <==> exists|i: int|
            0 <= i < n && (#[trigger] sessions[i]).lies_in(dirname) && (
            sessions[i].session.summary matches SummaryRead::Failed(e) && e.kind
                != ErrorKind::NotFound),
    decreases n,
{
    if n > 0 {
        only_real_failures_fail(sessions, dirname, (n - 1) as nat);
        let last = sessions[n - 1];
        if last.lies_in(dirname) && (last.session.summary matches SummaryRead::Failed(e) && e.kind
            != ErrorKind::NotFound) {
            assert(is_fatal(sessions[n - 1].session.summary));
        }
    }
}

/// The summaries that are listed are those of the sessions that show, each once
/// and in the order of the view.
pub proof fn listing_has_every_shown_session(
    sessions: Seq<ViewedSession>,
    dirname: Seq<char>,
    n: nat,
    i: int,
)
    requires
        0 <= i < n <= sessions.len(),
    ensures
        listed(sessions, dirname, n).len() == listed(sessions, dirname, i as nat).len() + listed(
            sessions.skip(i),
            dirname,
            (n - i) as nat,
        ).len(),
        shows_under(sessions[i], dirname) ==> listed(sessions, dirname, (i + 1) as nat)
            == listed(sessions, dirname, i as nat).push(sessions[i].session.summary->Read_0),
        !shows_under(sessions[i], dirname) ==> listed(sessions, dirname, (i + 1) as nat)
            == listed(sessions, dirname, i as nat),
        listed(sessions, dirname, i as nat).is_prefix_of(listed(sessions, dirname, n)),
    decreases n,
{
    listed_is_shown(sessions[i], dirname);
    if i == n - 1 {
        assert(sessions.skip(i)[0] == sessions[i]);
        assert(listed(sessions.skip(i), dirname, 0).len() == 0);
        reveal_with_fuel(listed, 2);
    } else {
        listing_has_every_shown_session(sessions, dirname, (n - 1) as nat, i);
        assert(sessions.skip(i)[n - 1 - i] == sessions[n - 1]);
    }
}

} // verus!
