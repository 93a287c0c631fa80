//! Finding the session that a user means among those stored.
//!
//! Two pictures of the disk are looked at. The tree under the sessions root
//! answers what lies in the directory of one working directory. The view over
//! all of it, as relocations under way leave it, answers where a session is.

use vstd::prelude::*;
use vstd::string::*;

use crate::io_error::IoError;
use crate::summary::Summary;
use crate::text::{before, owned, same_text, text_before, text_order, text_order_transitive};
use crate::timestamp::{parse_rfc3339, rfc3339};

verus! {

/// What reading `summary.json` of a session gave.
#[derive(Debug)]
pub enum SummaryRead {
    Read(Summary),
    /// It is not the JSON of a summary.
    Malformed,
    Failed(IoError),
}

/// An entry of the directory of a working directory.
#[derive(Debug)]
pub struct StoredSession {
    /// Its name, where that is text.
    pub name: Option<String>,
    pub is_dir: bool,
    /// It bears the marker of a session that is not published yet.
    pub unpublished: bool,
    /// There is a `summary.json`.
    pub summary_exists: bool,
    /// `summary.json` is a regular file.
    pub summary_is_file: bool,
    /// The text of `summary.json`, where it can be read as text.
    pub raw_summary: Option<String>,
    pub summary: SummaryRead,
    /// When the directory last changed, in nanoseconds since the epoch.
    pub mtime_nanos: u128,
}

impl StoredSession {
    pub open spec fn is_named(&self, id: Seq<char>) -> bool {
        self.name matches Some(name) && name@ == id
    }

    /// What the file system makes sure of: a summary whose text can be read is
    /// a regular file.
    pub open spec fn wf(&self) -> bool {
        self.raw_summary is Some ==> self.summary_is_file
    }

    /// Whether this is a session that can be resumed: published, and with a
    /// summary. Directories that hold other things only are not.
    pub open spec fn persisted(&self) -> bool {
        !self.unpublished && self.summary_is_file
    }

    pub(crate) fn bears_name(&self, id: &str) -> (r: bool)
        ensures
            r == self.is_named(id@),
    {
        match &self.name {
            Some(name) => same_text(name.as_str(), id),
            None => false,
        }
    }

    /// Whether this is a session that can be resumed.
    pub fn is_persisted_session_dir(&self) -> (r: bool)
        ensures
            r == self.persisted(),
    {
        !self.unpublished && self.summary_is_file
    }
}

/// The directory of a working directory.
#[derive(Debug)]
pub struct CwdDir {
    pub dirname: String,
    pub sessions: Vec<StoredSession>,
}

/// The tree under the sessions root; empty where there is no such root.
#[derive(Debug)]
pub struct SessionsRoot {
    pub dirs: Vec<CwdDir>,
}

/// The first directory at or after `from` that bears `dirname`.
pub open spec fn dir_from(dirs: Seq<CwdDir>, dirname: Seq<char>, from: nat) -> nat
    decreases dirs.len() - from,
{
    if from >= dirs.len() || dirs[from as int].dirname@ == dirname {
        from
    } else {
        dir_from(dirs, dirname, from + 1)
    }
}

impl SessionsRoot {
    /// The entries of the directory that bears `dirname`.
    pub open spec fn entries(&self, dirname: Seq<char>) -> Seq<StoredSession> {
        let i = dir_from(self.dirs@, dirname, 0);
        if i < self.dirs@.len() {
            self.dirs@[i as int].sessions@
        } else {
            seq![]
        }
    }

    fn sessions_in(&self, dirname: &str) -> (r: Option<&Vec<StoredSession>>)
        ensures
            r matches Some(sessions) ==> sessions@ == self.entries(dirname@),
            r is None ==> self.entries(dirname@).len() == 0,
    {
        let mut i: usize = 0;
        while i < self.dirs.len()
            invariant
                i <= self.dirs.len(),
                dir_from(self.dirs@, dirname@, 0) == dir_from(self.dirs@, dirname@, i as nat),
            decreases self.dirs.len() - i,
        {
            if same_text(self.dirs[i].dirname.as_str(), dirname) {
                return Some(&self.dirs[i].sessions);
            }
            i = i + 1;
        }
        None
    }
}

/// Whether a resumable session of this id is stored under this directory name.
pub open spec fn stored_under(root: SessionsRoot, dirname: Seq<char>, id: Seq<char>) -> bool {
    exists|i: int|
        0 <= i < root.entries(dirname).len() && #[trigger] root.entries(dirname)[i].is_named(id)
            && root.entries(dirname)[i].persisted()
}

/// Whether a session exists under a working directory, given by the name of its
/// directory. One under another working directory does not count.
pub fn session_exists_for_cwd(session_id: &str, dirname: &str, root: &SessionsRoot) -> (r: bool)
    ensures
        r == stored_under(*root, dirname@, session_id@),
{
    if let Some(sessions) = root.sessions_in(dirname) {
        let mut i: usize = 0;
        while i < sessions.len()
            invariant
                i <= sessions.len(),
                sessions@ == root.entries(dirname@),
                forall|k: int|
                    0 <= k < i ==> !((#[trigger] root.entries(dirname@)[k]).is_named(session_id@)
                        && root.entries(dirname@)[k].persisted()),
            decreases sessions.len() - i,
        {
            if sessions[i].bears_name(session_id) && sessions[i].is_persisted_session_dir() {
                assert(root.entries(dirname@)[i as int].is_named(session_id@));
                return true;
            }
            i = i + 1;
        }
    }
    false
}

// Children: sessions that were restored from a remote one.

/// The text under `key` in the JSON object `raw`; nothing where `raw` is not
/// JSON or no object, or holds no text there.
pub uninterp spec fn json_text_member(raw: Seq<char>, key: Seq<char>) -> Option<Seq<char>>;

/// `serde_json::from_str` into a `Value`, then `Value::get` and `Value::as_str`.
/// Claims only that the outcome depends on the two texts alone.
#[verifier::external_body]
fn json_text_field(raw: &str, key: &str) -> (r: Option<String>)
    ensures
        match r {
            Some(text) => json_text_member(raw@, key@) == Some(text@),
            None => json_text_member(raw@, key@) is None,
        },
{
    let value = serde_json::from_str::<serde_json::Value>(raw).ok()?;
    value.get(key)?.as_str().map(str::to_owned)
}

/// A restored child: when its summary says it was updated, when its directory
/// last changed, and its id.
#[derive(Debug)]
pub struct ChildCandidate {
    pub updated_at: String,
    pub mtime_nanos: u128,
    pub session_id: String,
}

/// What of a child decides.
#[verifier::ext_equal]
pub struct ChildRank {
    pub updated_at: Seq<char>,
    pub mtime_nanos: u128,
    pub session_id: Seq<char>,
}

impl View for ChildCandidate {
    type V = ChildRank;

    open spec fn view(&self) -> ChildRank {
        ChildRank {
            updated_at: self.updated_at@,
            mtime_nanos: self.mtime_nanos,
            session_id: self.session_id@,
        }
    }
}

/// Whether the stamp `a` is later than the stamp `b`. Stamps that state a point
/// in time go by it. One that states none is earlier than any that does; among
/// such, the order of the texts decides.
pub open spec fn stamped_after(a: Seq<char>, b: Seq<char>) -> bool {
    match (rfc3339(a), rfc3339(b)) {
        (Some(x), Some(y)) => x.0 > y.0 || (x.0 == y.0 && x.1 > y.1),
        (Some(_), None) => true,
        (None, Some(_)) => false,
        (None, None) => text_before(b, a),
    }
}

/// Whether child `a` goes before child `b`: updated later, or else changed
/// later, or else with the larger id.
pub open spec fn goes_before(a: ChildRank, b: ChildRank) -> bool {
    stamped_after(a.updated_at, b.updated_at) || (!stamped_after(b.updated_at, a.updated_at) && (
    a.mtime_nanos > b.mtime_nanos || (a.mtime_nanos == b.mtime_nanos && text_before(
        b.session_id,
        a.session_id,
    ))))
}

/// The place of the child that goes before all others.
pub open spec fn newest(children: Seq<ChildRank>) -> int
    decreases children.len(),
{
    if children.len() <= 1 {
        children.len() - 1
    } else {
        let best = newest(children.drop_last());
        if goes_before(children.last(), children[best]) {
            children.len() - 1
        } else {
            best
        }
    }
}

pub open spec fn ranks(children: Seq<ChildCandidate>) -> Seq<ChildRank> {
    children.map_values(|c: ChildCandidate| c@)
}

/// Whether the stamp `a` is later than the stamp `b`.
pub fn is_stamped_after(a: &str, b: &str) -> (r: bool)
    ensures
        r == stamped_after(a@, b@),
{
    match (parse_rfc3339(a), parse_rfc3339(b)) {
        (Some(x), Some(y)) => x.is_after(&y),
        (Some(_), None) => true,
        (None, Some(_)) => false,
        (None, None) => before(b, a),
    }
}

fn is_before(a: &ChildCandidate, b: &ChildCandidate) -> (r: bool)
    ensures
        r == goes_before(a@, b@),
{
    if is_stamped_after(a.updated_at.as_str(), b.updated_at.as_str()) {
        return true;
    }
    if is_stamped_after(b.updated_at.as_str(), a.updated_at.as_str()) {
        return false;
    }
    a.mtime_nanos > b.mtime_nanos || (a.mtime_nanos == b.mtime_nanos && before(
        b.session_id.as_str(),
        a.session_id.as_str(),
    ))
}

/// The id of the child that goes before all others.
pub fn newest_child(children: &Vec<ChildCandidate>) -> (r: Option<String>)
    ensures
        r is Some <==> children@.len() > 0,
        r matches Some(id) ==> id == children@[newest(ranks(children@))].session_id,
{
    if children.len() == 0 {
        return None;
    }
    let mut best: usize = 0;
    let mut i: usize = 1;
    proof {
        assert(ranks(children@).take(1).len() == 1);
    }
    while i < children.len()
        invariant
            1 <= i <= children.len(),
            best < i,
            best == newest(ranks(children@).take(i as int)),
        decreases children.len() - i,
    {
        proof {
            let now = ranks(children@).take(i + 1);
            assert(now.drop_last() =~= ranks(children@).take(i as int));
            assert(now.last() == children@[i as int]@);
            assert(now[best as int] == children@[best as int]@);
        }
        if is_before(&children[i], &children[best]) {
            best = i;
        }
        i = i + 1;
    }
    assert(ranks(children@).take(i as int) =~= ranks(children@));
    Some(children[best].session_id.clone())
}

/// The rank of an entry as a restored child of `remote`, given what its summary
/// holds as the parent's id and as the time of the last update.
pub open spec fn rank_given(
    s: StoredSession,
    parent: Option<Seq<char>>,
    updated_at: Option<Seq<char>>,
    remote: Seq<char>,
) -> Option<ChildRank> {
    if s.is_dir && !s.unpublished && s.summary_exists && s.name is Some && parent == Some(remote) {
        Some(
            ChildRank {
                updated_at: match updated_at {
                    Some(at) => at,
                    None => ""@,
                },
                mtime_nanos: s.mtime_nanos,
                session_id: s.name->0@,
            },
        )
    } else {
        None
    }
}

/// The rank of an entry that is a restored child of `remote`.
pub open spec fn child_rank(s: StoredSession, remote: Seq<char>) -> Option<ChildRank> {
    match s.raw_summary {
        Some(raw) => rank_given(
            s,
            json_text_member(raw@, "parent_session_id"@),
            json_text_member(raw@, "updated_at"@),
            remote,
        ),
        None => None,
    }
}

/// The restored children of `remote` among some entries, in their order.
pub open spec fn children_of(sessions: Seq<StoredSession>, remote: Seq<char>) -> Seq<ChildRank>
    decreases sessions.len(),
{
    if sessions.len() == 0 {
        seq![]
    } else {
        let earlier = children_of(sessions.drop_last(), remote);
        match child_rank(sessions.last(), remote) {
            Some(rank) => earlier.push(rank),
            None => earlier,
        }
    }
}

/// The id of the child of `remote` that goes before all others under this
/// directory name.
pub open spec fn local_child(root: SessionsRoot, dirname: Seq<char>, remote: Seq<char>) -> Option<
    Seq<char>,
> {
    let children = children_of(root.entries(dirname), remote);
    if children.len() == 0 {
        None
    } else {
        Some(children[newest(children)].session_id)
    }
}

pub open spec fn text_of(text: Option<String>) -> Option<Seq<char>> {
    match text {
        Some(text) => Some(text@),
        None => None,
    }
}

/// The entry as a restored child of `remote`, given what its summary holds as
/// the parent's id and as the time of the last update. A session that is not
/// published is nobody's child.
pub fn restored_child(
    s: &StoredSession,
    parent: Option<String>,
    updated_at: Option<String>,
    remote: &str,
) -> (r: Option<ChildCandidate>)
    ensures
        match r {
            Some(child) => rank_given(*s, text_of(parent), text_of(updated_at), remote@) == Some(
                child@,
            ),
            None => rank_given(*s, text_of(parent), text_of(updated_at), remote@) is None,
        },
{
    if !s.is_dir || s.unpublished || !s.summary_exists {
        return None;
    }
    if let (Some(name), Some(parent)) = (&s.name, parent) {
        if same_text(parent.as_str(), remote) {
            return Some(
                ChildCandidate {
                    updated_at: match updated_at {
                        Some(at) => at,
                        None => owned(""),
                    },
                    mtime_nanos: s.mtime_nanos,
                    session_id: name.clone(),
                },
            );
        }
    }
    None
}

fn as_child(s: &StoredSession, remote: &str) -> (r: Option<ChildCandidate>)
    ensures
        match r {
            Some(child) => child_rank(*s, remote@) == Some(child@),
            None => child_rank(*s, remote@) is None,
        },
{
    match &s.raw_summary {
        Some(raw) => {
            let parent = json_text_field(raw.as_str(), "parent_session_id");
            let updated_at = json_text_field(raw.as_str(), "updated_at");
            restored_child(s, parent, updated_at, remote)
        },
        None => None,
    }
}

proof fn newest_in_range(children: Seq<ChildRank>)
    requires
        children.len() > 0,
    ensures
        0 <= newest(children) < children.len(),
    decreases children.len(),
{
    if children.len() > 1 {
        newest_in_range(children.drop_last());
    }
}

/// The local session that was restored from a remote one into a working
/// directory before; of several, the most recently used one.
pub fn find_local_child_for_remote(remote_session_id: &str, dirname: &str, root: &SessionsRoot) -> (r:
    Option<String>)
    ensures
        match r {
            Some(id) => local_child(*root, dirname@, remote_session_id@) == Some(id@),
            None => local_child(*root, dirname@, remote_session_id@) is None,
        },
{
    let mut children: Vec<ChildCandidate> = Vec::new();
    if let Some(sessions) = root.sessions_in(dirname) {
        let mut i: usize = 0;
        assert(ranks(children@) =~= children_of(sessions@.take(0), remote_session_id@));
        while i < sessions.len()
            invariant
                i <= sessions.len(),
                ranks(children@) == children_of(sessions@.take(i as int), remote_session_id@),
            decreases sessions.len() - i,
        {
            assert(sessions@.take(i + 1).drop_last() =~= sessions@.take(i as int));
            let ghost was = children@;
            if let Some(child) = as_child(&sessions[i], remote_session_id) {
                children.push(child);
                assert(ranks(children@) =~= ranks(was).push(child@));
            }
            i = i + 1;
        }
        assert(sessions@.take(i as int) =~= sessions@);
    } else {
        assert(root.entries(dirname@) =~= seq![]);
        assert(ranks(children@) =~= seq![]);
    }
    proof {
        if children@.len() > 0 {
            newest_in_range(ranks(children@));
        }
    }
    newest_child(&children)
}

proof fn stamps_are_ordered(a: Seq<char>, b: Seq<char>, c: Seq<char>)
    ensures
        !stamped_after(a, a),
        stamped_after(a, b) ==> !stamped_after(b, a),
        stamped_after(a, b) && stamped_after(b, c) ==> stamped_after(a, c),
        !stamped_after(a, b) && !stamped_after(b, c) ==> !stamped_after(a, c),
{
    text_order(a, a);
    text_order(a, b);
    text_order(b, c);
    text_order(a, c);
    if text_before(b, a) && text_before(c, b) {
        text_order_transitive(c, b, a);
    }
    if text_before(a, b) && text_before(b, c) {
        text_order_transitive(a, b, c);
    }
}

proof fn goes_before_is_transitive(a: ChildRank, b: ChildRank, c: ChildRank)
    requires
        goes_before(a, b),
        goes_before(b, c),
    ensures
        goes_before(a, c),
{
    stamps_are_ordered(a.updated_at, b.updated_at, c.updated_at);
    stamps_are_ordered(c.updated_at, b.updated_at, a.updated_at);
    stamps_are_ordered(b.updated_at, c.updated_at, a.updated_at);
    stamps_are_ordered(c.updated_at, a.updated_at, b.updated_at);
    stamps_are_ordered(b.updated_at, a.updated_at, c.updated_at);
    stamps_are_ordered(a.updated_at, c.updated_at, b.updated_at);
    if text_before(b.session_id, a.session_id) && text_before(c.session_id, b.session_id) {
        text_order_transitive(c.session_id, b.session_id, a.session_id);
    }
}

proof fn nothing_goes_before_itself(a: ChildRank)
    ensures
        !goes_before(a, a),
{
    text_order(a.session_id, a.session_id);
    stamps_are_ordered(a.updated_at, a.updated_at, a.updated_at);
}

proof fn nothing_goes_before_newest(children: Seq<ChildRank>, i: int)
    requires
        0 <= i < children.len(),
    ensures
        !goes_before(children[i], children[newest(children)]),
    decreases children.len(),
{
    newest_in_range(children);
    let best = children[newest(children)];
    nothing_goes_before_itself(best);
    if children.len() > 1 {
        let earlier = children.drop_last();
        newest_in_range(earlier);
        let previous = earlier[newest(earlier)];
        if i < children.len() - 1 {
            nothing_goes_before_newest(earlier, i);
            assert(children[i] == earlier[i]);
            if goes_before(children.last(), previous) && goes_before(children[i], best) {
                goes_before_is_transitive(children[i], best, previous);
            }
        } else if !goes_before(children.last(), previous) {
            assert(best == previous);
        }
    }
}

/// The child that is chosen is the most recently used: no other has a later
/// stamp; of those with no earlier one, none changed later; and of those that
/// changed at the same time, none has a larger id.
pub proof fn chosen_child_is_newest(children: Seq<ChildRank>, i: int)
    requires
        0 <= i < children.len(),
    ensures
        0 <= newest(children) < children.len(),
        ({
            let best = children[newest(children)];
            let other = children[i];
            &&& !stamped_after(other.updated_at, best.updated_at)
            &&& !stamped_after(best.updated_at, other.updated_at) ==> {
                &&& other.mtime_nanos <= best.mtime_nanos
                &&& other.mtime_nanos == best.mtime_nanos ==> !text_before(
                    best.session_id,
                    other.session_id,
                )
            }
        }),
{
    newest_in_range(children);
    nothing_goes_before_newest(children, i);
}

/// The choice does not depend on the order in which a directory is listed: two
/// children of which neither goes before the other are the same session.
pub proof fn child_choice_is_deterministic(a: ChildRank, b: ChildRank)
    requires
        !goes_before(a, b),
        !goes_before(b, a),
    ensures
        a.session_id == b.session_id,
{
    text_order(a.session_id, b.session_id);
}

/// A session whose marker is still there is neither found nor anyone's child.
pub proof fn unpublished_sessions_are_not_found(s: StoredSession, remote: Seq<char>)
    requires
        s.unpublished,
    ensures
        !s.persisted(),
        child_rank(s, remote) is None,
{
}

// One working directory, or several.

/// The session that `session_id` means under a working directory.
pub open spec fn resolved(root: SessionsRoot, dirname: Seq<char>, session_id: Seq<char>) -> Option<
    Seq<char>,
> {
    if stored_under(root, dirname, session_id) {
        Some(session_id)
    } else {
        local_child(root, dirname, session_id)
    }
}

/// The session that an id means under a working directory: the session itself,
/// else the child that was restored from it; nothing where neither is there.
pub fn resolve_local_session(session_id: &str, dirname: &str, root: &SessionsRoot) -> (r: Option<
    String,
>)
    ensures
        match r {
            Some(id) => resolved(*root, dirname@, session_id@) == Some(id@),
            None => resolved(*root, dirname@, session_id@) is None,
        },
{
    if session_exists_for_cwd(session_id, dirname, root) {
        return Some(owned(session_id));
    }
    find_local_child_for_remote(session_id, dirname, root)
}

proof fn child_is_an_entry(sessions: Seq<StoredSession>, remote: Seq<char>, k: int)
    requires
        0 <= k < children_of(sessions, remote).len(),
    ensures
        exists|i: int|
            0 <= i < sessions.len() && #[trigger] child_rank(sessions[i], remote) == Some(
                children_of(sessions, remote)[k],
            ),
    decreases sessions.len(),
{
    let earlier = sessions.drop_last();
    if k < children_of(earlier, remote).len() {
        child_is_an_entry(earlier, remote, k);
        let i = choose|i: int|
            0 <= i < earlier.len() && #[trigger] child_rank(earlier[i], remote) == Some(
                children_of(earlier, remote)[k],
            );
        assert(sessions[i] == earlier[i]);
    } else {
        assert(sessions.last() == sessions[sessions.len() - 1]);
    }
}

/// What is resolved is itself a session available under the working directory,
/// whether it was the one asked for or a restored child, and so it resolves to
/// itself.
pub proof fn resolved_session_resolves_to_itself(
    root: SessionsRoot,
    dirname: Seq<char>,
    session_id: Seq<char>,
)
    requires
        forall|i: int|
            0 <= i < root.entries(dirname).len() ==> (#[trigger] root.entries(dirname)[i]).wf(),
        resolved(root, dirname, session_id) is Some,
    ensures
        ({
            let found = resolved(root, dirname, session_id)->0;
            &&& stored_under(root, dirname, found)
            &&& resolved(root, dirname, found) == Some(found)
        }),
{
    let entries = root.entries(dirname);
    if !stored_under(root, dirname, session_id) {
        let children = children_of(entries, session_id);
        newest_in_range(children);
        child_is_an_entry(entries, session_id, newest(children));
        let i = choose|i: int|
            0 <= i < entries.len() && #[trigger] child_rank(entries[i], session_id) == Some(
                children[newest(children)],
            );
        assert(entries[i].wf());
        assert(entries[i].is_named(children[newest(children)].session_id));
        assert(entries[i].persisted());
    }
}

/// How a session was found.
#[derive(Debug, Clone, Copy, PartialEq, Eq, Structural)]
pub enum LocalSessionResolutionKind {
    ExactCwd,
    RestoredChildInExactCwd,
    SameRepoDifferentCwd,
    RestoredChildInSameRepoDifferentCwd,
}

/// A session that was found, and where.
#[derive(Debug, Clone)]
pub struct ResolvedLocalSession {
    pub session_id: String,
    pub cwd: String,
    pub resolution_kind: LocalSessionResolutionKind,
}

/// A working directory to look under, and the name of its directory.
#[derive(Debug)]
pub struct CandidateCwd {
    pub cwd: String,
    pub dirname: String,
}

/// How a session under the candidate of number `i` was found: as itself or as a
/// child, in the first candidate or in another.
pub open spec fn found_how(i: int, itself: bool) -> LocalSessionResolutionKind {
    if i == 0 {
        if itself {
            LocalSessionResolutionKind::ExactCwd
        } else {
            LocalSessionResolutionKind::RestoredChildInExactCwd
        }
    } else if itself {
        LocalSessionResolutionKind::SameRepoDifferentCwd
    } else {
        LocalSessionResolutionKind::RestoredChildInSameRepoDifferentCwd
    }
}

/// Whether candidate `i` is the first under which the id means something.
pub open spec fn first_resolving(
    root: SessionsRoot,
    candidates: Seq<CandidateCwd>,
    session_id: Seq<char>,
    i: int,
) -> bool {
    &&& 0 <= i < candidates.len()
    &&& resolved(root, candidates[i].dirname@, session_id) is Some
    &&& forall|k: int|
        0 <= k < i ==> resolved(root, (#[trigger] candidates[k]).dirname@, session_id) is None
}

/// The session that an id means under any of some working directories. The
/// first should be the current one: earlier ones take precedence.
pub fn resolve_local_session_for_repo(
    session_id: &str,
    candidates: &Vec<CandidateCwd>,
    root: &SessionsRoot,
) -> (r: Option<ResolvedLocalSession>)
    ensures
        r is None <==> forall|i: int|
            0 <= i < candidates@.len() ==> resolved(
                *root,
                (#[trigger] candidates@[i]).dirname@,
                session_id@,
            ) is None,
        forall|i: int| #[trigger]
            first_resolving(*root, candidates@, session_id@, i) ==> {
                &&& r is Some
                &&& Some(r->0.session_id@) == resolved(*root, candidates@[i].dirname@, session_id@)
                &&& r->0.cwd == candidates@[i].cwd
                &&& r->0.resolution_kind == found_how(
                    i,
                    stored_under(*root, candidates@[i].dirname@, session_id@),
                )
            },
{
    let mut i: usize = 0;
    while i < candidates.len()
        invariant
            i <= candidates.len(),
            forall|k: int|
                0 <= k < i ==> resolved(
                    *root,
                    (#[trigger] candidates@[k]).dirname@,
                    session_id@,
                ) is None,
        decreases candidates.len() - i,
    {
        let candidate = &candidates[i];
        if session_exists_for_cwd(session_id, candidate.dirname.as_str(), root) {
            return Some(
                ResolvedLocalSession {
                    session_id: owned(session_id),
                    cwd: candidate.cwd.clone(),
                    resolution_kind: if i == 0 {
                        LocalSessionResolutionKind::ExactCwd
                    } else {
                        LocalSessionResolutionKind::SameRepoDifferentCwd
                    },
                },
            );
        }
        if let Some(child) = find_local_child_for_remote(
            session_id,
            candidate.dirname.as_str(),
            root,
        ) {
            return Some(
                ResolvedLocalSession {
                    session_id: child,
                    cwd: candidate.cwd.clone(),
                    resolution_kind: if i == 0 {
                        LocalSessionResolutionKind::RestoredChildInExactCwd
                    } else {
                        LocalSessionResolutionKind::RestoredChildInSameRepoDifferentCwd
                    },
                },
            );
        }
        i = i + 1;
    }
    None
}

} // verus!
