//! What is found when a session is looked for, told by what lies on disk.

use vstd::prelude::*;

use crate::io_error::IoError;
use crate::resolve::{
    child_rank, children_of, dir_from, first_resolving, found_how, json_text_member, local_child,
    newest, resolved, stamped_after, stored_under, CandidateCwd, ChildRank, SessionsRoot,
    StoredSession, SummaryRead,
};
use crate::summary::{Info, Summary};
use crate::text::text_before;
use crate::timestamp::rfc3339;
use crate::view::{
    deletable, directory_from, most_recent, named_in_from, published_under, resumable_from,
    resumed_profile, SessionsView,
};

verus! {

/// A published session of this id: no marker, and a summary file.
pub open spec fn ready(s: StoredSession, id: Seq<char>) -> bool {
    &&& s.name is Some && s.name->0@ == id
    &&& !s.unpublished
    &&& s.summary_is_file
}

/// Whether directory `d` is the one that a name means: the first that bears it.
pub open spec fn means(root: SessionsRoot, dirname: Seq<char>, d: int) -> bool {
    &&& 0 <= d < root.dirs@.len()
    &&& root.dirs@[d].dirname@ == dirname
    &&& forall|e: int| 0 <= e < d ==> (#[trigger] root.dirs@[e]).dirname@ != dirname
}

/// Whether `s` was restored from the session `remote`: a published directory
/// with a summary that names `remote` as its parent.
pub open spec fn restored_from(s: StoredSession, remote: Seq<char>) -> bool {
    &&& s.is_dir && !s.unpublished && s.summary_exists && s.name is Some
    &&& s.raw_summary is Some
    &&& json_text_member(s.raw_summary->0@, "parent_session_id"@) == Some(remote)
}

/// When the summary of `s` says it was last updated; empty where it does not.
pub open spec fn updated(s: StoredSession) -> Seq<char> {
    match json_text_member(s.raw_summary->0@, "updated_at"@) {
        Some(at) => at,
        None => ""@,
    }
}

/// Whether stamp `a` is older than stamp `b`: an earlier point in time, or no
/// point in time beside one, or of two that are none the text that comes first.
pub open spec fn older(a: Seq<char>, b: Seq<char>) -> bool {
    match (rfc3339(a), rfc3339(b)) {
        (Some((s, n)), Some((t, m))) => s < t || (s == t && n < m),
        (None, Some(_)) => true,
        (Some(_), None) => false,
        (None, None) => text_before(a, b),
    }
}

/// Whether the session `a` was used longer ago than the session `b`.
pub open spec fn staler(a: StoredSession, b: StoredSession) -> bool {
    ||| older(updated(a), updated(b))
    ||| !older(updated(b), updated(a)) && a.mtime_nanos < b.mtime_nanos
}

proof fn name_means_directory(root: SessionsRoot, dirname: Seq<char>, d: int, from: nat)
    requires
        means(root, dirname, d),
        from <= d,
    ensures
        dir_from(root.dirs@, dirname, from) == d,
    decreases d - from,
{
    if from < d {
        assert(root.dirs@[from as int].dirname@ != dirname);
        name_means_directory(root, dirname, d, from + 1);
    }
}

proof fn unknown_name_means_nothing(root: SessionsRoot, dirname: Seq<char>, from: nat)
    requires
        forall|e: int| 0 <= e < root.dirs@.len() ==> (#[trigger] root.dirs@[e]).dirname@ != dirname,
    ensures
        dir_from(root.dirs@, dirname, from) >= root.dirs@.len(),
    decreases root.dirs@.len() - from,
{
    if from < root.dirs@.len() {
        assert(root.dirs@[from as int].dirname@ != dirname);
        unknown_name_means_nothing(root, dirname, from + 1);
    }
}

proof fn every_child_is_ranked(sessions: Seq<StoredSession>, remote: Seq<char>, i: int)
    requires
        0 <= i < sessions.len(),
        restored_from(sessions[i], remote),
    ensures
        children_of(sessions, remote).contains(
            ChildRank {
                updated_at: updated(sessions[i]),
                mtime_nanos: sessions[i].mtime_nanos,
                session_id: sessions[i].name->0@,
            },
        ),
    decreases sessions.len(),
{
    let rank = ChildRank {
        updated_at: updated(sessions[i]),
        mtime_nanos: sessions[i].mtime_nanos,
        session_id: sessions[i].name->0@,
    };
    let earlier = sessions.drop_last();
    let now = children_of(sessions, remote);
    if i == sessions.len() - 1 {
        assert(child_rank(sessions.last(), remote) == Some(rank));
        assert(now[now.len() - 1] == rank);
    } else {
        every_child_is_ranked(earlier, remote, i);
        let k = choose|k: int|
            0 <= k < children_of(earlier, remote).len() && children_of(earlier, remote)[k] == rank;
        assert(now[k] == rank);
    }
}

proof fn every_rank_is_a_child(sessions: Seq<StoredSession>, remote: Seq<char>, k: int) -> (i: int)
    requires
        0 <= k < children_of(sessions, remote).len(),
    ensures
        0 <= i < sessions.len(),
        restored_from(sessions[i], remote),
        children_of(sessions, remote)[k] == (ChildRank {
            updated_at: updated(sessions[i]),
            mtime_nanos: sessions[i].mtime_nanos,
            session_id: sessions[i].name->0@,
        }),
    decreases sessions.len(),
{
    let earlier = sessions.drop_last();
    if k < children_of(earlier, remote).len() {
        let i = every_rank_is_a_child(earlier, remote, k);
        assert(sessions[i] == earlier[i]);
        i
    } else {
        sessions.len() - 1
    }
}

/// A session that lies published in the directory of a working directory is
/// found there under its own id. It does not matter what else lies there.
pub proof fn stored_session_is_found(
    root: SessionsRoot,
    dirname: Seq<char>,
    id: Seq<char>,
    d: int,
    k: int,
)
    requires
        means(root, dirname, d),
        0 <= k < root.dirs@[d].sessions@.len(),
        ready(root.dirs@[d].sessions@[k], id),
    ensures
        stored_under(root, dirname, id),
        resolved(root, dirname, id) == Some(id),
{
    name_means_directory(root, dirname, d, 0);
    assert(root.entries(dirname)[k].is_named(id));
}

/// What is said to be stored is stored: there is a published session of the id
/// in the directory.
pub proof fn nothing_else_is_stored(root: SessionsRoot, dirname: Seq<char>, id: Seq<char>, d: int)
    requires
        means(root, dirname, d),
        forall|k: int|
            0 <= k < root.dirs@[d].sessions@.len() ==> !ready(
                #[trigger] root.dirs@[d].sessions@[k],
                id,
            ),
    ensures
        !stored_under(root, dirname, id),
        resolved(root, dirname, id) == local_child(root, dirname, id),
{
    name_means_directory(root, dirname, d, 0);
    let entries = root.entries(dirname);
    if stored_under(root, dirname, id) {
        let k = choose|k: int|
            0 <= k < entries.len() && #[trigger] entries[k].is_named(id) && entries[k].persisted();
        assert(!ready(root.dirs@[d].sessions@[k], id));
    }
}

/// Where no directory bears the name, nothing is found.
pub proof fn unknown_directory_holds_nothing(
    root: SessionsRoot,
    dirname: Seq<char>,
    id: Seq<char>,
)
    requires
        forall|e: int| 0 <= e < root.dirs@.len() ==> (#[trigger] root.dirs@[e]).dirname@ != dirname,
    ensures
        !stored_under(root, dirname, id),
        resolved(root, dirname, id) is None,
{
    unknown_name_means_nothing(root, dirname, 0);
}

/// Where a session is not stored itself, a session that was restored from it is
/// found if there is one, and then one that is not staler than any other.
pub proof fn freshest_child_is_found(
    root: SessionsRoot,
    dirname: Seq<char>,
    remote: Seq<char>,
    d: int,
)
    requires
        means(root, dirname, d),
    ensures
        ({
            let sessions = root.dirs@[d].sessions@;
            &&& local_child(root, dirname, remote) is Some <==> exists|k: int|
                0 <= k < sessions.len() && restored_from(#[trigger] sessions[k], remote)
            &&& local_child(root, dirname, remote) matches Some(id) ==> exists|k: int|
                {
                    &&& 0 <= k < sessions.len()
                    &&& restored_from(#[trigger] sessions[k], remote)
                    &&& sessions[k].name->0@ == id
                    &&& forall|o: int|
                        0 <= o < sessions.len() && restored_from(#[trigger] sessions[o], remote)
                            ==> !staler(sessions[k], sessions[o])
                }
        }),
{
    name_means_directory(root, dirname, d, 0);
    let sessions = root.dirs@[d].sessions@;
    let children = children_of(sessions, remote);
    if exists|k: int| 0 <= k < sessions.len() && restored_from(#[trigger] sessions[k], remote) {
        let k = choose|k: int|
            0 <= k < sessions.len() && restored_from(#[trigger] sessions[k], remote);
        every_child_is_ranked(sessions, remote, k);
    }
    if children.len() > 0 {
        crate::resolve::chosen_child_is_newest(children, 0);
        let k = every_rank_is_a_child(sessions, remote, newest(children));
        assert forall|o: int|
            0 <= o < sessions.len() && restored_from(#[trigger] sessions[o], remote) implies !staler(
            sessions[k],
            sessions[o],
        ) by {
            every_child_is_ranked(sessions, remote, o);
            let rank = ChildRank {
                updated_at: updated(sessions[o]),
                mtime_nanos: sessions[o].mtime_nanos,
                session_id: sessions[o].name->0@,
            };
            let j = choose|j: int| 0 <= j < children.len() && children[j] == rank;
            crate::resolve::chosen_child_is_newest(children, j);
            older_is_stamped_before(updated(sessions[k]), updated(sessions[o]));
            older_is_stamped_before(updated(sessions[o]), updated(sessions[k]));
        }
    }
}

proof fn older_is_stamped_before(a: Seq<char>, b: Seq<char>)
    ensures
        older(a, b) == stamped_after(b, a),
{
}

/// How a session was found tells two things: whether it is the one that was
/// asked for, and whether it lies under the working directory that was asked
/// about first.
pub proof fn resolution_tells_what_and_where(i: int, itself: bool)
    ensures
        ({
            let kind = found_how(i, itself);
            &&& (kind is ExactCwd || kind is SameRepoDifferentCwd) <==> itself
            &&& (kind is ExactCwd || kind is RestoredChildInExactCwd) <==> i == 0
        }),
{
}

/// Of several working directories the first takes precedence under which an id
/// means something; there is one if it means something under any.
pub proof fn earlier_directories_take_precedence(
    root: SessionsRoot,
    candidates: Seq<CandidateCwd>,
    id: Seq<char>,
    k: int,
) -> (first: int)
    requires
        0 <= k < candidates.len(),
        resolved(root, candidates[k].dirname@, id) is Some,
    ensures
        0 <= first <= k,
        first_resolving(root, candidates, id, first),
        forall|i: int| #[trigger] first_resolving(root, candidates, id, i) ==> i == first,
    decreases k,
{
    if exists|j: int|
        0 <= j < k && resolved(root, (#[trigger] candidates[j]).dirname@, id) is Some {
        let j = choose|j: int|
            0 <= j < k && resolved(root, (#[trigger] candidates[j]).dirname@, id) is Some;
        earlier_directories_take_precedence(root, candidates, id, j)
    } else {
        assert forall|i: int| #[trigger] first_resolving(root, candidates, id, i) implies i == k by {
            if i > k {
                assert(resolved(root, candidates[k].dirname@, id) is None);
            } else if i < k {
                assert(resolved(root, candidates[i].dirname@, id) is None);
            }
        }
        k
    }
}

// Among the sessions of all working directories.

/// Whether session `i` of a view is the first published one of this id.
pub open spec fn first_ready(view: SessionsView, id: Seq<char>, i: int) -> bool {
    &&& 0 <= i < view.sessions@.len()
    &&& ready(view.sessions@[i].session, id)
    &&& forall|e: int| 0 <= e < i ==> !ready((#[trigger] view.sessions@[e]).session, id)
}

/// Whether a view has no published session of this id.
pub open spec fn none_ready(view: SessionsView, id: Seq<char>) -> bool {
    forall|e: int|
        0 <= e < view.sessions@.len() ==> !ready((#[trigger] view.sessions@[e]).session, id)
}

proof fn first_ready_from(view: SessionsView, id: Seq<char>, i: int, from: nat)
    requires
        first_ready(view, id, i),
        from <= i,
    ensures
        resumable_from(view.sessions@, id, from) == i,
    decreases i - from,
{
    if from < i {
        assert(!ready(view.sessions@[from as int].session, id));
        first_ready_from(view, id, i, from + 1);
    }
}

proof fn none_ready_from(view: SessionsView, id: Seq<char>, from: nat)
    requires
        none_ready(view, id),
    ensures
        resumable_from(view.sessions@, id, from) >= view.sessions@.len(),
    decreases view.sessions@.len() - from,
{
    if from < view.sessions@.len() {
        assert(!ready(view.sessions@[from as int].session, id));
        none_ready_from(view, id, from + 1);
    }
}

/// The session that is found by its id is the first published one of that id,
/// with its working directory and, where it can be read, its summary.
pub proof fn first_published_session_is_found(view: SessionsView, id: Seq<char>, i: int)
    requires
        first_ready(view, id, i),
    ensures
        view.first_resumable(id) == Some(view.sessions@[i]),
        view.sessions@[i].session.summary matches SummaryRead::Read(s) ==> view.summary_of(id)
            == Some(s),
        !(view.sessions@[i].session.summary is Read) ==> view.summary_of(id) is None,
{
    first_ready_from(view, id, i, 0);
}

/// Where no published session has the id, none is found.
pub proof fn unpublished_session_is_not_found(view: SessionsView, id: Seq<char>)
    requires
        none_ready(view, id),
    ensures
        view.first_resumable(id) is None,
        view.summary_of(id) is None,
{
    none_ready_from(view, id, 0);
}

/// The directory of a session is found whether or not it is published: it is
/// the first directory that bears the id.
pub proof fn first_directory_is_found(view: SessionsView, id: Seq<char>, i: int)
    requires
        0 <= i < view.sessions@.len(),
        view.sessions@[i].session.is_dir,
        view.sessions@[i].session.name is Some && view.sessions@[i].session.name->0@ == id,
        forall|e: int|
            0 <= e < i ==> !(#[trigger] view.sessions@[e]).session.is_dir || view.sessions@[e].session.name
                is None || view.sessions@[e].session.name->0@ != id,
    ensures
        view.first_directory(id) == Some(view.sessions@[i]),
{
    directory_found_from(view, id, i, 0);
}

proof fn directory_found_from(view: SessionsView, id: Seq<char>, i: int, from: nat)
    requires
        0 <= i < view.sessions@.len(),
        view.sessions@[i].session.is_dir,
        view.sessions@[i].session.name is Some && view.sessions@[i].session.name->0@ == id,
        forall|e: int|
            0 <= e < i ==> !(#[trigger] view.sessions@[e]).session.is_dir || view.sessions@[e].session.name
                is None || view.sessions@[e].session.name->0@ != id,
        from <= i,
    ensures
        directory_from(view.sessions@, id, from) == i,
    decreases i - from,
{
    if from < i {
        assert(!view.sessions@[from as int].session.is_dir || view.sessions@[from as int].session.name
            is None || view.sessions@[from as int].session.name->0@ != id);
        directory_found_from(view, id, i, from + 1);
    }
}

/// A session is published under the preferred directory if it lies there, else
/// where it is found first; nowhere, if it is not found.
pub proof fn preferred_directory_goes_first(
    id: Seq<char>,
    preferred: Seq<char>,
    root: SessionsRoot,
    view: SessionsView,
    d: int,
)
    requires
        means(root, preferred, d),
    ensures
        (exists|k: int|
            0 <= k < root.dirs@[d].sessions@.len() && ready(
                #[trigger] root.dirs@[d].sessions@[k],
                id,
            )) ==> published_under(id, Some(preferred), root, view) == Some(preferred),
        forall|i: int| #[trigger]
            first_ready(view, id, i) && (forall|k: int|
                0 <= k < root.dirs@[d].sessions@.len() ==> !ready(
                    #[trigger] root.dirs@[d].sessions@[k],
                    id,
                )) ==> published_under(id, Some(preferred), root, view) == Some(
                view.sessions@[i].dirname@,
            ),
        forall|i: int| #[trigger]
            first_ready(view, id, i) ==> published_under(id, None, root, view) == Some(
                view.sessions@[i].dirname@,
            ),
        none_ready(view, id) ==> published_under(id, None, root, view) is None,
{
    let sessions = root.dirs@[d].sessions@;
    if exists|k: int| 0 <= k < sessions.len() && ready(#[trigger] sessions[k], id) {
        let k = choose|k: int| 0 <= k < sessions.len() && ready(#[trigger] sessions[k], id);
        stored_session_is_found(root, preferred, id, d, k);
    } else {
        nothing_else_is_stored(root, preferred, id, d);
    }
    assert forall|i: int| #[trigger] first_ready(view, id, i) implies view.first_resumable(id)
        == Some(view.sessions@[i]) by {
        first_published_session_is_found(view, id, i);
    }
    if none_ready(view, id) {
        unpublished_session_is_not_found(view, id);
    }
}

// What is deleted, and what a resumed session runs under.

/// A deletion is about a session only if there is a published one of its id
/// (under the working directory, where one is given) whose summary can be read,
/// bears the id and does not hide it; and it is about the session that this
/// summary tells of.
pub proof fn deletion_is_about_a_shown_session(
    view: SessionsView,
    id: Seq<char>,
    dirname: Option<Seq<char>>,
    info: Info,
)
    requires
        deletable(view, id, dirname) == Some(info),
    ensures
        info.id@ == id,
        exists|i: int|
            {
                &&& 0 <= i < view.sessions@.len()
                &&& ready((#[trigger] view.sessions@[i]).session, id)
                &&& dirname is Some ==> view.sessions@[i].dirname@ == dirname->0
                &&& view.sessions@[i].session.summary matches SummaryRead::Read(s) && s.info
                    == info && s.hidden != Some(true)
            },
{
    match dirname {
        None => {
            crate::view::first_resumable_is_first(view, id);
            let i = resumable_from(view.sessions@, id, 0) as int;
            assert(ready(view.sessions@[i].session, id));
        },
        Some(name) => {
            named_is_in(view, name, id, 0);
            let i = named_in_from(view.sessions@, name, id, 0) as int;
            assert(ready(view.sessions@[i].session, id));
        },
    }
}

proof fn named_is_in(view: SessionsView, dirname: Seq<char>, id: Seq<char>, from: nat)
    ensures
        ({
            let i = named_in_from(view.sessions@, dirname, id, from);
            i < view.sessions@.len() ==> ready(view.sessions@[i as int].session, id)
                && view.sessions@[i as int].dirname@ == dirname
        }),
    decreases view.sessions@.len() - from,
{
    if from < view.sessions@.len() {
        named_is_in(view, dirname, id, from + 1);
    }
}

proof fn first_named_in(view: SessionsView, dirname: Seq<char>, id: Seq<char>, i: int, from: nat)
    requires
        0 <= from <= i < view.sessions@.len(),
        ready(view.sessions@[i].session, id) && view.sessions@[i].dirname@ == dirname,
        forall|e: int|
            0 <= e < i ==> !(ready((#[trigger] view.sessions@[e]).session, id)
                && view.sessions@[e].dirname@ == dirname),
    ensures
        named_in_from(view.sessions@, dirname, id, from) == i,
    decreases i - from,
{
    if from < i {
        assert(!(ready(view.sessions@[from as int].session, id)
            && view.sessions@[from as int].dirname@ == dirname));
        first_named_in(view, dirname, id, i, from + 1);
    }
}

/// The first published session of an id under a working directory can be deleted
/// there if its summary bears the id and neither hides it nor says that it is a
/// subagent's.
pub proof fn shown_session_can_be_deleted(
    view: SessionsView,
    id: Seq<char>,
    dirname: Seq<char>,
    i: int,
    s: Summary,
)
    requires
        0 <= i < view.sessions@.len(),
        ready(view.sessions@[i].session, id) && view.sessions@[i].dirname@ == dirname,
        forall|e: int|
            0 <= e < i ==> !(ready((#[trigger] view.sessions@[e]).session, id)
                && view.sessions@[e].dirname@ == dirname),
        view.sessions@[i].session.summary == SummaryRead::Read(s),
        s.info.id@ == id,
        s.hidden == Some(false) || (s.hidden is None && s.session_kind is None),
    ensures
        deletable(view, id, Some(dirname)) == Some(s.info),
        first_ready(view, id, i) ==> deletable(view, id, None) == Some(s.info),
{
    first_named_in(view, dirname, id, i, 0);
    if first_ready(view, id, i) {
        first_ready_from(view, id, i, 0);
    }
}

/// A session that is resumed by its id runs under its own profile, or, where
/// there is none of that id, under that of the session restored from it here;
/// where there is none either, under none.
pub proof fn resumed_session_keeps_its_profile(
    id: Seq<char>,
    dirname: Option<Seq<char>>,
    root: SessionsRoot,
    view: SessionsView,
)
    requires
        id.len() > 0,
    ensures
        forall|i: int| #[trigger]
            first_ready(view, id, i) ==> (view.sessions@[i].session.summary matches SummaryRead::Read(
                s,
            ) ==> resumed_profile(Some(id), dirname, root, view) == s.sandbox_profile),
        none_ready(view, id) && dirname is None ==> resumed_profile(Some(id), dirname, root, view)
            is None,
        none_ready(view, id) && dirname is Some ==> match local_child(root, dirname->0, id) {
            None => resumed_profile(Some(id), dirname, root, view) is None,
            Some(child) => forall|i: int| #[trigger]
                first_ready(view, child, i) ==> (
                view.sessions@[i].session.summary matches SummaryRead::Read(s) ==> resumed_profile(
                    Some(id),
                    dirname,
                    root,
                    view,
                ) == s.sandbox_profile),
        },
{
    assert forall|other: Seq<char>, i: int| #[trigger] first_ready(view, other, i) implies (
    view.sessions@[i].session.summary matches SummaryRead::Read(s) ==> view.summary_of(other)
        == Some(s)) by {
        first_published_session_is_found(view, other, i);
    }
    if none_ready(view, id) {
        unpublished_session_is_not_found(view, id);
    }
}

/// Without an id, or with an empty one, the session is resumed that was used
/// most recently under the working directory, and it runs under its profile;
/// where there is none, or they cannot be read, under none.
pub proof fn last_session_keeps_its_profile(
    dirname: Seq<char>,
    root: SessionsRoot,
    view: SessionsView,
    i: nat,
)
    ensures
        ({
            let latest = most_recent(view.sessions@, dirname, view.sessions@.len());
            let profile = resumed_profile(None, Some(dirname), root, view);
            &&& resumed_profile(Some(Seq::empty()), Some(dirname), root, view) == profile
            &&& latest == Ok::<Option<nat>, IoError>(Some(i)) && (
            view.sessions@[i as int].session.summary is Read) ==> profile
                == view.sessions@[i as int].session.summary->Read_0.sandbox_profile
            &&& latest == Ok::<Option<nat>, IoError>(None) ==> profile is None
            &&& latest is Err ==> profile is None
        }),
        resumed_profile(None, None, root, view) is None,
        resumed_profile(Some(Seq::empty()), None, root, view) is None,
{
}

} // verus!
