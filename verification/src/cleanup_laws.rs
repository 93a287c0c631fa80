//! What a whole walk of the cleanup does to a tree of directories.
//!
//! A driver that does as it is told is modelled over a tree: the laws say which
//! files of the tree it is asked to remove, and which directories.

use vstd::prelude::*;
use vstd::string::*;

use crate::cleanup::{
    entered, stale, Age, CleanupEvent, CleanupLevel, CleanupStats, CleanupStep, DirProbe,
    EntryProbe, Frame, SummaryProbe, WalkState,
};
use crate::text::has_prefix;

verus! {

/// An entry of a tree of directories, with what comes of dealing with it.
pub enum Node {
    Unreadable,
    Kept,
    NoMetadata,
    /// A file, and whether it can be removed.
    File { age: Option<Age>, removable: bool },
    /// A directory, whether it can be leased and whether it can be removed.
    Dir {
        probe: DirProbe,
        protected: bool,
        summary: SummaryProbe,
        utf8_name: bool,
        leased: bool,
        removable: bool,
        entries: Seq<Node>,
    },
}

/// What the driver sees of an entry.
pub open spec fn seen(node: Node) -> EntryProbe {
    match node {
        Node::Unreadable => EntryProbe::Unreadable,
        Node::Kept => EntryProbe::Kept,
        Node::NoMetadata => EntryProbe::NoMetadata,
        Node::File { age, .. } => EntryProbe::Other { age },
        Node::Dir { protected, summary, utf8_name, .. } => EntryProbe::Dir {
            protected,
            summary,
            utf8_name,
        },
    }
}

/// The files and the directories of a tree that someone is asked to remove, by
/// the places of the entries on the way to them.
#[verifier::ext_equal]
pub struct Asked {
    pub files: Set<Seq<int>>,
    pub dirs: Set<Seq<int>>,
}

pub open spec fn nothing() -> Asked {
    Asked { files: Set::empty(), dirs: Set::empty() }
}

pub open spec fn both(a: Asked, b: Asked) -> Asked {
    Asked { files: a.files.union(b.files), dirs: a.dirs.union(b.dirs) }
}

// A driver that does as it is told.

/// What becomes of a walk that comes to an entry, and what the driver is asked
/// to remove until the walk is done with the entry.
pub open spec fn visited(s: WalkState, node: Node, path: Seq<int>) -> (WalkState, Asked)
    decreases node, 2nat,
{
    let t = s.after(CleanupEvent::Entry(seen(node)));
    match (t.step, node) {
        (CleanupStep::RemoveFile, Node::File { removable, .. }) => (
            t.after(CleanupEvent::FileRemoved(removable)),
            Asked { files: set![path], dirs: Set::empty() },
        ),
        (CleanupStep::Lease, Node::Dir { leased, .. }) => {
            let u = t.after(CleanupEvent::Leased(leased));
            if u.step == CleanupStep::Open {
                walked(u, node, path)
            } else {
                (u, nothing())
            }
        },
        (CleanupStep::Open, Node::Dir { .. }) => walked(t, node, path),
        _ => (t, nothing()),
    }
}

/// What becomes of a walk that goes into a directory.
pub open spec fn walked(s: WalkState, node: Node, path: Seq<int>) -> (WalkState, Asked)
    decreases node, 1nat,
{
    match node {
        Node::Dir { probe, removable, entries, .. } => {
            let t = s.after(CleanupEvent::Opened(probe));
            if t.stack.len() < s.stack.len() {
                (t, nothing())
            } else {
                let (u, below) = listed(t, entries, path, entries.len());
                let v = u.after(CleanupEvent::NoMoreEntries);
                if v.step == CleanupStep::RemoveDir {
                    (
                        v.after(CleanupEvent::DirRemoved(removable)),
                        both(below, Asked { files: Set::empty(), dirs: set![path] }),
                    )
                } else {
                    (v, below)
                }
            }
        },
        _ => (s, nothing()),
    }
}

/// What becomes of a walk that comes to the first `n` entries of a directory.
pub open spec fn listed(s: WalkState, entries: Seq<Node>, path: Seq<int>, n: nat) -> (
    WalkState,
    Asked,
)
    decreases entries, n,
{
    if n == 0 || n > entries.len() {
        (s, nothing())
    } else {
        let (t, earlier) = listed(s, entries, path, (n - 1) as nat);
        let (u, here) = visited(t, entries[n - 1], path.push(n - 1));
        (u, both(earlier, here))
    }
}

// What a cleanup is for.

/// Whether a file was last written more than `ttl_days` days ago.
pub open spec fn outlived(age: Option<Age>, ttl_days: u32) -> bool {
    age matches Some(age) && (age.secs > ttl_days * 24 * 60 * 60 || (age.secs == ttl_days * 24 * 60
        * 60 && age.nanos > 0))
}

/// Whether a directory may be looked into at all: it is published, not hidden,
/// not the one to keep, and can be listed.
pub open spec fn open_to_all(probe: DirProbe) -> bool {
    &&& !probe.unpublished
    &&& !probe.kept
    &&& probe.listed
    &&& !(probe.name matches Some(name) && name@.len() > 0 && name@[0] == '.')
}

/// Whether a directory at a level may be cleaned up. A relocation can protect
/// the directory of a working directory; a session must be leased; what lies
/// inside a session goes with it.
pub open spec fn may_be_cleaned(node: Node, level: CleanupLevel) -> bool {
    &&& node matches Node::Dir { probe, protected, summary, utf8_name, leased, .. }
    &&& open_to_all(probe)
    &&& match level {
        CleanupLevel::SessionsRoot => !protected,
        CleanupLevel::Cwd => summary == SummaryProbe::Missing || (summary == SummaryProbe::Regular
            && utf8_name && leased),
        CleanupLevel::Session => true,
    }
}

/// The level of what lies in a directory at a level.
pub open spec fn inside(level: CleanupLevel) -> CleanupLevel {
    match level {
        CleanupLevel::SessionsRoot => CleanupLevel::Cwd,
        CleanupLevel::Cwd => CleanupLevel::Session,
        CleanupLevel::Session => CleanupLevel::Session,
    }
}

/// How many files of an entry are removed: those that were due and could be.
pub open spec fn removed(node: Node, level: CleanupLevel, ttl_days: u32) -> nat
    decreases node, 1nat,
{
    match node {
        Node::File { age, removable } => if outlived(age, ttl_days) && removable {
            1
        } else {
            0
        },
        Node::Dir { entries, .. } => if may_be_cleaned(node, level) {
            removed_in(entries, inside(level), ttl_days, entries.len())
        } else {
            0
        },
        _ => 0,
    }
}

/// How many files of the first `n` entries are removed.
pub open spec fn removed_in(
    entries: Seq<Node>,
    level: CleanupLevel,
    ttl_days: u32,
    n: nat,
) -> nat
    decreases entries, n,
{
    if n == 0 || n > entries.len() {
        0
    } else {
        removed_in(entries, level, ttl_days, (n - 1) as nat) + removed(
            entries[n - 1],
            level,
            ttl_days,
        )
    }
}

/// What of an entry is due to be removed: every file that has outlived its
/// time, at any depth, where the directories on the way may be cleaned up; and
/// every such directory below which a file was removed.
pub open spec fn due(node: Node, path: Seq<int>, level: CleanupLevel, ttl_days: u32) -> Asked
    decreases node, 1nat,
{
    match node {
        Node::File { age, .. } => if outlived(age, ttl_days) {
            Asked { files: set![path], dirs: Set::empty() }
        } else {
            nothing()
        },
        Node::Dir { entries, .. } => if may_be_cleaned(node, level) {
            let below = due_in(entries, path, inside(level), ttl_days, entries.len());
            if removed(node, level, ttl_days) > 0 {
                both(below, Asked { files: Set::empty(), dirs: set![path] })
            } else {
                below
            }
        } else {
            nothing()
        },
        _ => nothing(),
    }
}

/// What of the first `n` entries of a directory is due to be removed.
pub open spec fn due_in(
    entries: Seq<Node>,
    path: Seq<int>,
    level: CleanupLevel,
    ttl_days: u32,
    n: nat,
) -> Asked
    decreases entries, n,
{
    if n == 0 || n > entries.len() {
        nothing()
    } else {
        both(
            due_in(entries, path, level, ttl_days, (n - 1) as nat),
            due(entries[n - 1], path.push(n - 1), level, ttl_days),
        )
    }
}

/// A walk at the same place in the same directories, with `more` files removed
/// in the innermost one.
pub open spec fn same_place(s: WalkState, t: WalkState, more: nat) -> bool {
    &&& t.step == CleanupStep::NextEntry
    &&& t.ttl_days == s.ttl_days
    &&& t.stack.len() == s.stack.len()
    &&& t.stack.drop_last() == s.stack.drop_last()
    &&& t.stack.last().level == s.stack.last().level
    &&& t.stack.last().deleted == s.stack.last().deleted + more
    &&& t.stats.files_deleted == s.stats.files_deleted + more
}

/// Whether the counters have room for `more` files.
pub open spec fn room_for(s: WalkState, more: nat) -> bool {
    &&& s.stack.last().deleted + more <= u32::MAX
    &&& s.stats.files_deleted + more <= u32::MAX
}

proof fn openness(probe: DirProbe)
    ensures
        entered(probe) == open_to_all(probe),
{
    reveal_strlit(".");
    if let Some(name) = probe.name {
        if name@.len() > 0 {
            assert((name@.take(1) =~= "."@) <==> name@[0] == '.') by {
                if name@[0] == '.' {
                    assert(name@.take(1) =~= "."@);
                }
                if name@.take(1) =~= "."@ {
                    assert(name@.take(1)[0] == '.');
                }
            }
        }
        assert(has_prefix(name@, "."@) == (name@.len() > 0 && name@[0] == '.'));
    }
}

/// A file is removed exactly when it is older than the days to keep files for:
/// both times in nanoseconds.
pub proof fn stale_is_older_than_the_days_to_keep(age: Option<Age>, ttl_days: u32)
    requires
        age matches Some(a) ==> a.nanos < 1_000_000_000,
    ensures
        stale(age, ttl_days) <==> (age matches Some(a) && a.secs * 1_000_000_000 + a.nanos
            > ttl_days * 24 * 60 * 60 * 1_000_000_000),
        stale(age, ttl_days) == outlived(age, ttl_days),
{
}

proof fn visit_asks_for_what_is_due(s: WalkState, node: Node, path: Seq<int>)
    requires
        s.step == CleanupStep::NextEntry,
        s.stack.len() > 0,
        room_for(s, removed(node, s.stack.last().level, s.ttl_days)),
    ensures
        ({
            let (t, asked) = visited(s, node, path);
            let level = s.stack.last().level;
            &&& asked == due(node, path, level, s.ttl_days)
            &&& same_place(s, t, removed(node, level, s.ttl_days))
        }),
    decreases node, 2nat,
{
    let level = s.stack.last().level;
    let t = s.after(CleanupEvent::Entry(seen(node)));
    match node {
        Node::Dir { probe, leased, .. } => {
            openness(probe);
            if t.step == CleanupStep::Lease {
                assert(level == CleanupLevel::Cwd);
                let u = t.after(CleanupEvent::Leased(leased));
                if leased {
                    assert(u.stack.drop_last() =~= s.stack);
                    descent_asks_for_what_is_due(u, node, path, level);
                }
            } else if t.step == CleanupStep::Open {
                assert(t.stack.drop_last() =~= s.stack);
                descent_asks_for_what_is_due(t, node, path, level);
            }
        },
        Node::File { removable, .. } => {
            if t.step == CleanupStep::RemoveFile && removable {
                let u = t.after(CleanupEvent::FileRemoved(removable));
                assert(u.stack.drop_last() =~= s.stack.drop_last());
            }
        },
        _ => {},
    }
}

proof fn descent_asks_for_what_is_due(s: WalkState, node: Node, path: Seq<int>, level: CleanupLevel)
    requires
        s.step == CleanupStep::Open,
        s.stack.len() >= 2,
        s.stack.last() == (Frame { level: inside(level), deleted: 0 }),
        node is Dir,
        may_be_cleaned(node, level) == open_to_all(node->probe),
        room_for(
            WalkState { stack: s.stack.drop_last(), ..s },
            removed(node, level, s.ttl_days),
        ),
    ensures
        ({
            let (t, asked) = walked(s, node, path);
            &&& asked == due(node, path, level, s.ttl_days)
            &&& same_place(
                WalkState { stack: s.stack.drop_last(), ..s },
                t,
                removed(node, level, s.ttl_days),
            )
        }),
    decreases node, 1nat,
{
    if let Node::Dir { probe, removable, entries, .. } = node {
        openness(probe);
        let t = s.after(CleanupEvent::Opened(probe));
        let outer = s.stack.drop_last();
        if entered(probe) {
            listing_asks_for_what_is_due(t, entries, path, entries.len());
            let (u, below) = listed(t, entries, path, entries.len());
            let v = u.after(CleanupEvent::NoMoreEntries);
            assert(u.stack.drop_last() == outer);
            assert(v.stack.drop_last() =~= outer.drop_last());
        } else {
            assert(t.stack.drop_last() =~= outer.drop_last());
        }
    }
}

proof fn listing_asks_for_what_is_due(s: WalkState, entries: Seq<Node>, path: Seq<int>, n: nat)
    requires
        s.step == CleanupStep::NextEntry,
        s.stack.len() > 0,
        n <= entries.len(),
        room_for(s, removed_in(entries, s.stack.last().level, s.ttl_days, n)),
    ensures
        ({
            let (t, asked) = listed(s, entries, path, n);
            let level = s.stack.last().level;
            &&& asked == due_in(entries, path, level, s.ttl_days, n)
            &&& same_place(s, t, removed_in(entries, level, s.ttl_days, n))
        }),
    decreases entries, n,
{
    if n > 0 {
        listing_asks_for_what_is_due(s, entries, path, (n - 1) as nat);
        let (t, _) = listed(s, entries, path, (n - 1) as nat);
        visit_asks_for_what_is_due(t, entries[n - 1], path.push(n - 1));
    }
}

/// A walk from the sessions root to its end asks for the removal of every file
/// that is due, at any depth, and of no other; and of every directory below
/// which a file was removed, and of no other. It reports as many removed files
/// as were removed.
pub proof fn whole_walk_removes_what_is_due(ttl_days: u32, node: Node)
    requires
        node matches Node::Dir { probe, .. } && open_to_all(probe),
        removed_in(
            node->entries,
            CleanupLevel::SessionsRoot,
            ttl_days,
            node->entries.len(),
        ) <= u32::MAX,
    ensures
        ({
            let start = WalkState {
                ttl_days,
                stack: seq![Frame { level: CleanupLevel::SessionsRoot, deleted: 0 }],
                step: CleanupStep::Open,
                stats: CleanupStats { files_deleted: 0, dirs_removed: 0, errors: 0 },
            };
            let (end, asked) = walked(start, node, seq![]);
            let all = node->entries.len();
            &&& end.step == CleanupStep::Finished
            &&& asked == due_in(node->entries, seq![], CleanupLevel::SessionsRoot, ttl_days, all)
            &&& end.stats.files_deleted == removed_in(
                node->entries,
                CleanupLevel::SessionsRoot,
                ttl_days,
                all,
            )
        }),
{
    let start = WalkState {
        ttl_days,
        stack: seq![Frame { level: CleanupLevel::SessionsRoot, deleted: 0 }],
        step: CleanupStep::Open,
        stats: CleanupStats { files_deleted: 0, dirs_removed: 0, errors: 0 },
    };
    if let Node::Dir { probe, entries, .. } = node {
        openness(probe);
        let t = start.after(CleanupEvent::Opened(probe));
        listing_asks_for_what_is_due(t, entries, seq![], entries.len());
    }
}

// What is counted.

/// Whether an event is something that could not be looked at or done: an entry
/// that cannot be read or of which nothing is known, a summary among sessions
/// that cannot be read, and a file that cannot be removed.
pub open spec fn went_wrong(level: CleanupLevel, event: CleanupEvent) -> bool {
    match event {
        CleanupEvent::Entry(EntryProbe::Unreadable) => true,
        CleanupEvent::Entry(EntryProbe::NoMetadata) => true,
        CleanupEvent::Entry(EntryProbe::Dir { summary, .. }) => level is Cwd && summary
            is Unreadable,
        CleanupEvent::FileRemoved(removed) => !removed,
        _ => false,
    }
}

/// Every file and every directory that is removed counts once, and so does
/// everything that went wrong; nothing else counts. A lease that is not had and
/// a directory that cannot be removed are not wrong.
pub proof fn walk_counts_what_happened(s: WalkState, event: CleanupEvent)
    requires
        s.wf(),
        s.fits(event),
        s.has_room(),
    ensures
        ({
            let t = s.after(event);
            &&& t.stats.errors == s.stats.errors + if went_wrong(s.stack.last().level, event) {
                1int
            } else {
                0int
            }
            &&& t.stats.files_deleted == s.stats.files_deleted + if event
                == CleanupEvent::FileRemoved(true) {
                1int
            } else {
                0int
            }
            &&& t.stats.dirs_removed == s.stats.dirs_removed + if event
                == CleanupEvent::DirRemoved(true) {
                1int
            } else {
                0int
            }
            &&& t.ttl_days == s.ttl_days
        }),
{
}

/// A directory that is left is tried to be removed if a file was removed below
/// it, and left alone if none was; at the top the walk ends. Whatever becomes of
/// an entry, the walk goes on behind it, in the same directory.
pub proof fn walk_goes_on(s: WalkState, event: CleanupEvent)
    requires
        s.wf(),
        s.fits(event),
        s.has_room(),
    ensures
        ({
            let t = s.after(event);
            &&& event is NoMoreEntries && s.stack.len() == 1 ==> t.step is Finished
            &&& event is NoMoreEntries && s.stack.len() > 1 ==> {
                &&& t.stack.len() == s.stack.len() - 1
                &&& t.stack.last().level == s.stack[s.stack.len() - 2].level
                &&& t.step is RemoveDir <==> s.stack.last().deleted > 0
                &&& t.step is NextEntry <==> s.stack.last().deleted == 0
            }
            &&& event is DirRemoved || event is FileRemoved || event == CleanupEvent::Leased(false)
                ==> t.step is NextEntry && t.stack.len() == s.stack.len() && t.stack.last().level
                == s.stack.last().level
            &&& went_wrong(s.stack.last().level, event) ==> t.step is NextEntry
        }),
{
}

} // verus!
