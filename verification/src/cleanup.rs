//! The walk that removes stale session files.
//!
//! The walk goes through the sessions root depth first. It removes files that
//! have outlived their time, and after them the directories that this emptied.
//! Listing, probing and removing is the driver's; the walk decides.

use vstd::prelude::*;

use crate::text::{has_prefix, starts_with};

verus! {

/// Days that a session file is kept where nothing else is configured.
pub const DEFAULT_CLEANUP_TTL_DAYS: u32 = 30;

/// The days to keep a session file for: the configured number where it is
/// positive, as far as 32 bits hold it, else the default.
pub fn resolve_cleanup_ttl_days(configured: Option<i64>) -> (r: u32)
    ensures
        r == (match configured {
            Some(days) if days > 0 => if days <= u32::MAX {
                days as int
            } else {
                u32::MAX as int
            },
            _ => DEFAULT_CLEANUP_TTL_DAYS as int,
        }),
{
    match configured {
        Some(days) => {
            if days > u32::MAX as i64 {
                u32::MAX
            } else if days > 0 {
                days as u32
            } else {
                DEFAULT_CLEANUP_TTL_DAYS
            }
        },
        None => DEFAULT_CLEANUP_TTL_DAYS,
    }
}

/// The time since a file was last written.
#[derive(Debug, Clone, Copy, PartialEq, Eq, Structural)]
pub struct Age {
    pub secs: u64,
    pub nanos: u32,
}

/// Whether a file of this age has outlived `ttl_days`. A file whose time lies
/// ahead, or is not known, has no age and is never stale.
pub open spec fn stale(age: Option<Age>, ttl_days: u32) -> bool {
    match age {
        Some(age) => age.secs > ttl_days * 86400 || (age.secs == ttl_days * 86400 && age.nanos > 0),
        None => false,
    }
}

pub fn is_stale(age: Option<Age>, ttl_days: u32) -> (r: bool)
    ensures
        r == stale(age, ttl_days),
{
    match age {
        Some(age) => {
            let ttl: u64 = ttl_days as u64 * 86400;
            age.secs > ttl || (age.secs == ttl && age.nanos > 0)
        },
        None => false,
    }
}

#[derive(Debug, Clone, Copy, PartialEq, Eq, Structural)]
pub struct CleanupStats {
    pub files_deleted: u32,
    pub dirs_removed: u32,
    pub errors: u32,
}

/// What a directory of the walk holds.
#[derive(Debug, Clone, Copy, PartialEq, Eq, Structural)]
pub enum CleanupLevel {
    /// Directories of working directories.
    SessionsRoot,
    /// Sessions of one working directory.
    Cwd,
    /// Files of one session.
    Session,
}

/// A directory that the walk has come to.
#[derive(Debug)]
pub struct DirProbe {
    /// It bears the marker of a session that is not published yet.
    pub unpublished: bool,
    pub name: Option<String>,
    /// It is the directory that the walk was told to leave alone.
    pub kept: bool,
    /// Its entries could be listed.
    pub listed: bool,
}

/// Whether the walk goes into a directory.
pub open spec fn entered(dir: DirProbe) -> bool {
    &&& !dir.unpublished
    &&& !(dir.name matches Some(name) && has_prefix(name@, "."@))
    &&& !dir.kept
    &&& dir.listed
}

fn enters(dir: &DirProbe) -> (r: bool)
    ensures
        r == entered(*dir),
{
    if dir.unpublished || dir.kept || !dir.listed {
        return false;
    }
    match &dir.name {
        Some(name) => !starts_with(name.as_str(), "."),
        None => true,
    }
}

/// The `summary.json` of a directory.
#[derive(Debug, Clone, Copy, PartialEq, Eq, Structural)]
pub enum SummaryProbe {
    Missing,
    Unreadable,
    Regular,
    /// A directory, a link, or another thing that is not a regular file.
    Irregular,
}

/// One entry of a directory.
#[derive(Debug, Clone, Copy, PartialEq, Eq, Structural)]
pub enum EntryProbe {
    /// The entry could not be read.
    Unreadable,
    /// The directory that the walk was told to leave alone.
    Kept,
    /// Nothing is known of the entry.
    NoMetadata,
    /// A directory. Only at the top is it asked whether a relocation needs it,
    /// and only among sessions what its summary is.
    Dir { protected: bool, summary: SummaryProbe, utf8_name: bool },
    /// Anything else; links are not followed.
    Other { age: Option<Age> },
}

/// What to do with an entry.
#[derive(Debug, Clone, Copy, PartialEq, Eq, Structural)]
pub enum Visit {
    Pass,
    CountError,
    RemoveFile,
    Enter(CleanupLevel),
    /// Enter the session once it is leased and no relocation of it is under way.
    Lease,
}

/// What to do with an entry at a level.
pub open spec fn visit_of(level: CleanupLevel, entry: EntryProbe, ttl_days: u32) -> Visit {
    match entry {
        EntryProbe::Unreadable => Visit::CountError,
        EntryProbe::Kept => Visit::Pass,
        EntryProbe::NoMetadata => Visit::CountError,
        EntryProbe::Other { age } => if stale(age, ttl_days) {
            Visit::RemoveFile
        } else {
            Visit::Pass
        },
        EntryProbe::Dir { protected, summary, utf8_name } => match level {
            CleanupLevel::SessionsRoot => if protected {
                Visit::Pass
            } else {
                Visit::Enter(CleanupLevel::Cwd)
            },
            CleanupLevel::Cwd => match summary {
                SummaryProbe::Missing => Visit::Enter(CleanupLevel::Session),
                SummaryProbe::Unreadable => Visit::CountError,
                SummaryProbe::Irregular => Visit::Pass,
                SummaryProbe::Regular => if utf8_name {
                    Visit::Lease
                } else {
                    Visit::Pass
                },
            },
            CleanupLevel::Session => Visit::Enter(CleanupLevel::Session),
        },
    }
}

fn visit(level: CleanupLevel, entry: EntryProbe, ttl_days: u32) -> (r: Visit)
    ensures
        r == visit_of(level, entry, ttl_days),
{
    match entry {
        EntryProbe::Unreadable => Visit::CountError,
        EntryProbe::Kept => Visit::Pass,
        EntryProbe::NoMetadata => Visit::CountError,
        EntryProbe::Other { age } => if is_stale(age, ttl_days) {
            Visit::RemoveFile
        } else {
            Visit::Pass
        },
        EntryProbe::Dir { protected, summary, utf8_name } => match level {
            CleanupLevel::SessionsRoot => if protected {
                Visit::Pass
            } else {
                Visit::Enter(CleanupLevel::Cwd)
            },
            CleanupLevel::Cwd => match summary {
                SummaryProbe::Missing => Visit::Enter(CleanupLevel::Session),
                SummaryProbe::Unreadable => Visit::CountError,
                SummaryProbe::Irregular => Visit::Pass,
                SummaryProbe::Regular => if utf8_name {
                    Visit::Lease
                } else {
                    Visit::Pass
                },
            },
            CleanupLevel::Session => Visit::Enter(CleanupLevel::Session),
        },
    }
}

/// A directory on the way from the root to where the walk is, with the number
/// of files removed in it and in the directories below that are done with.
#[derive(Debug, Clone, Copy, PartialEq, Eq, Structural)]
pub struct Frame {
    pub level: CleanupLevel,
    pub deleted: u32,
}

/// What the driver does next.
#[derive(Debug, Clone, Copy, PartialEq, Eq, Structural)]
pub enum CleanupStep {
    /// Probe the innermost directory and start to list it.
    Open,
    /// Probe the next entry of the innermost directory.
    NextEntry,
    /// Remove the file just probed.
    RemoveFile,
    /// Lease the session just probed and look for a relocation of it.
    Lease,
    /// Remove the directory just left, if it is empty.
    RemoveDir,
    Finished,
}

/// What happened.
#[derive(Debug)]
pub enum CleanupEvent {
    Opened(DirProbe),
    Entry(EntryProbe),
    NoMoreEntries,
    FileRemoved(bool),
    /// The session is leased and has no relocation journal.
    Leased(bool),
    DirRemoved(bool),
}

/// A walk in progress.
#[derive(Debug)]
pub struct CleanupWalk {
    pub ttl_days: u32,
    pub stack: Vec<Frame>,
    pub step: CleanupStep,
    pub stats: CleanupStats,
}

/// What a walk comes down to.
#[verifier::ext_equal]
pub struct WalkState {
    pub ttl_days: u32,
    pub stack: Seq<Frame>,
    pub step: CleanupStep,
    pub stats: CleanupStats,
}

impl View for CleanupWalk {
    type V = WalkState;

    open spec fn view(&self) -> WalkState {
        WalkState {
            ttl_days: self.ttl_days,
            stack: self.stack@,
            step: self.step,
            stats: self.stats,
        }
    }
}

/// The files removed in all directories of `stack`.
pub open spec fn total_deleted(stack: Seq<Frame>) -> int
    decreases stack.len(),
{
    if stack.len() == 0 {
        0
    } else {
        total_deleted(stack.drop_last()) + stack.last().deleted
    }
}

impl WalkState {
    /// There is a directory to be in for as long as the walk lasts, each removed
    /// file counts in one directory, and none does in a directory not yet open.
    pub open spec fn wf(self) -> bool {
        &&& self.stack.len() == 0 <==> self.step == CleanupStep::Finished
        &&& self.step != CleanupStep::Finished ==> total_deleted(self.stack)
            == self.stats.files_deleted
        &&& self.step == CleanupStep::Open ==> self.stack.last().deleted == 0
    }

    /// Whether `event` is what the step can lead to.
    pub open spec fn fits(self, event: CleanupEvent) -> bool {
        match self.step {
            CleanupStep::Open => event is Opened,
            CleanupStep::NextEntry => event is Entry || event is NoMoreEntries,
            CleanupStep::RemoveFile => event is FileRemoved,
            CleanupStep::Lease => event is Leased,
            CleanupStep::RemoveDir => event is DirRemoved,
            CleanupStep::Finished => false,
        }
    }

    /// Whether the counters can take one more.
    pub open spec fn has_room(self) -> bool {
        &&& self.stats.files_deleted < u32::MAX
        &&& self.stats.dirs_removed < u32::MAX
        &&& self.stats.errors < u32::MAX
    }

    pub open spec fn go(self, step: CleanupStep) -> WalkState {
        WalkState { step, ..self }
    }

    /// One level down.
    pub open spec fn down(self, level: CleanupLevel) -> WalkState {
        WalkState {
            stack: self.stack.push(Frame { level, deleted: 0 }),
            step: CleanupStep::Open,
            ..self
        }
    }

    /// Out of the innermost directory. It is worth trying to remove only if a
    /// file was removed below it: an empty directory that was empty before may
    /// be about to be used.
    pub open spec fn up(self) -> WalkState {
        let inner = self.stack.last();
        let rest = self.stack.drop_last();
        if rest.len() == 0 {
            WalkState { stack: rest, step: CleanupStep::Finished, ..self }
        } else {
            let outer = rest.last();
            WalkState {
                stack: rest.drop_last().push(
                    Frame { level: outer.level, deleted: (outer.deleted + inner.deleted) as u32 },
                ),
                step: if inner.deleted > 0 {
                    CleanupStep::RemoveDir
                } else {
                    CleanupStep::NextEntry
                },
                ..self
            }
        }
    }

    pub open spec fn with_error(self) -> WalkState {
        WalkState {
            stats: CleanupStats { errors: (self.stats.errors + 1) as u32, ..self.stats },
            step: CleanupStep::NextEntry,
            ..self
        }
    }

    /// What one event makes of the walk.
    pub open spec fn after(self, event: CleanupEvent) -> WalkState {
        match event {
            CleanupEvent::Opened(dir) => if entered(dir) {
                self.go(CleanupStep::NextEntry)
            } else {
                self.up()
            },
            CleanupEvent::Entry(entry) => match visit_of(
                self.stack.last().level,
                entry,
                self.ttl_days,
            ) {
                Visit::Pass => self,
                Visit::CountError => self.with_error(),
                Visit::RemoveFile => self.go(CleanupStep::RemoveFile),
                Visit::Enter(level) => self.down(level),
                Visit::Lease => self.go(CleanupStep::Lease),
            },
            CleanupEvent::NoMoreEntries => self.up(),
            CleanupEvent::FileRemoved(ok) => if ok {
                let inner = self.stack.last();
                WalkState {
                    ttl_days: self.ttl_days,
                    stack: self.stack.drop_last().push(
                        Frame { level: inner.level, deleted: (inner.deleted + 1) as u32 },
                    ),
                    step: CleanupStep::NextEntry,
                    stats: CleanupStats {
                        files_deleted: (self.stats.files_deleted + 1) as u32,
                        ..self.stats
                    },
                }
            } else {
                self.with_error()
            },
            CleanupEvent::Leased(ok) => if ok {
                self.down(CleanupLevel::Session)
            } else {
                self.go(CleanupStep::NextEntry)
            },
            CleanupEvent::DirRemoved(ok) => if ok {
                WalkState {
                    step: CleanupStep::NextEntry,
                    stats: CleanupStats {
                        dirs_removed: (self.stats.dirs_removed + 1) as u32,
                        ..self.stats
                    },
                    ..self
                }
            } else {
                self.go(CleanupStep::NextEntry)
            },
        }
    }
}

proof fn deleted_in_two(stack: Seq<Frame>)
    requires
        stack.len() >= 1,
    ensures
        total_deleted(stack) >= stack.last().deleted,
        stack.len() >= 2 ==> total_deleted(stack) >= stack.last().deleted + stack[stack.len()
            - 2].deleted,
{
    total_is_positive(stack.drop_last());
    if stack.len() >= 2 {
        let rest = stack.drop_last();
        assert(total_deleted(rest) == total_deleted(rest.drop_last()) + rest.last().deleted);
        total_is_positive(rest.drop_last());
    }
}

proof fn total_is_positive(stack: Seq<Frame>)
    ensures
        total_deleted(stack) >= 0,
    decreases stack.len(),
{
    if stack.len() > 0 {
        total_is_positive(stack.drop_last());
    }
}

/// Every event keeps the walk well-formed; so the count of removed files is the
/// count of those that the driver reported as removed.
pub proof fn after_keeps_wf(s: WalkState, event: CleanupEvent)
    requires
        s.wf(),
        s.fits(event),
        s.has_room(),
    ensures
        s.after(event).wf(),
{
    let t = s.after(event);
    deleted_in_two(s.stack);
    let rest = s.stack.drop_last();
    if rest.len() > 0 {
        assert(rest.last() == s.stack[s.stack.len() - 2]);
        assert(total_deleted(s.stack) == total_deleted(rest) + s.stack.last().deleted);
        assert(total_deleted(rest) == total_deleted(rest.drop_last()) + rest.last().deleted);
    }
    assert(t.stack.len() > 0 ==> total_deleted(t.stack) == total_deleted(t.stack.drop_last())
        + t.stack.last().deleted);
    if s.step == CleanupStep::Open || event is NoMoreEntries {
        if s.up().step != CleanupStep::Finished {
            assert(s.up().stack.drop_last() =~= rest.drop_last());
            assert(total_deleted(s.up().stack) == total_deleted(s.stack));
        }
    }
    if t.stack.len() == s.stack.len() + 1 {
        assert(t.stack.drop_last() =~= s.stack);
    }
    if event == CleanupEvent::FileRemoved(true) {
        assert(t.stack.drop_last() =~= rest);
    }
}

impl CleanupWalk {
    /// A walk from the sessions root.
    pub fn begin(ttl_days: u32) -> (r: CleanupWalk)
        ensures
            r@ == (WalkState {
                ttl_days,
                stack: seq![Frame { level: CleanupLevel::SessionsRoot, deleted: 0 }],
                step: CleanupStep::Open,
                stats: CleanupStats { files_deleted: 0, dirs_removed: 0, errors: 0 },
            }),
            r@.wf(),
    {
        let mut stack: Vec<Frame> = Vec::new();
        stack.push(Frame { level: CleanupLevel::SessionsRoot, deleted: 0 });
        proof {
            assert(stack@ =~= seq![Frame { level: CleanupLevel::SessionsRoot, deleted: 0 }]);
            assert(stack@.drop_last() =~= Seq::<Frame>::empty());
            assert(total_deleted(stack@.drop_last()) == 0);
        }
        CleanupWalk {
            ttl_days,
            stack,
            step: CleanupStep::Open,
            stats: CleanupStats { files_deleted: 0, dirs_removed: 0, errors: 0 },
        }
    }

    /// Whether the walk can take in `event` now.
    pub fn accepts(&self, event: &CleanupEvent) -> (r: bool)
        ensures
            r == (self@.fits(*event) && self@.has_room()),
    {
        let fits = match (self.step, event) {
            (CleanupStep::Open, CleanupEvent::Opened(_)) => true,
            (CleanupStep::NextEntry, CleanupEvent::Entry(_)) => true,
            (CleanupStep::NextEntry, CleanupEvent::NoMoreEntries) => true,
            (CleanupStep::RemoveFile, CleanupEvent::FileRemoved(_)) => true,
            (CleanupStep::Lease, CleanupEvent::Leased(_)) => true,
            (CleanupStep::RemoveDir, CleanupEvent::DirRemoved(_)) => true,
            _ => false,
        };
        fits && self.stats.files_deleted < u32::MAX && self.stats.dirs_removed < u32::MAX
            && self.stats.errors < u32::MAX
    }

    fn up(&mut self)
        requires
            old(self)@.wf(),
            old(self).stack.len() > 0,
        ensures
            final(self)@ == old(self)@.up(),
    {
        proof {
            deleted_in_two(self.stack@);
        }
        if let Some(inner) = self.stack.pop() {
            match self.stack.pop() {
                Some(outer) => {
                    self.stack.push(
                        Frame { level: outer.level, deleted: outer.deleted + inner.deleted },
                    );
                    self.step = if inner.deleted > 0 {
                        CleanupStep::RemoveDir
                    } else {
                        CleanupStep::NextEntry
                    };
                },
                None => {
                    self.step = CleanupStep::Finished;
                },
            }
        }
    }

    fn down(&mut self, level: CleanupLevel)
        ensures
            final(self)@ == old(self)@.down(level),
    {
        self.stack.push(Frame { level, deleted: 0 });
        self.step = CleanupStep::Open;
    }

    /// Takes in what happened.
    pub fn step(&mut self, event: CleanupEvent)
        requires
            old(self)@.wf(),
            old(self)@.fits(event),
            old(self)@.has_room(),
        ensures
            final(self)@ == old(self)@.after(event),
            final(self)@.wf(),
    {
        proof {
            after_keeps_wf(self@, event);
            deleted_in_two(self.stack@);
        }
        match event {
            CleanupEvent::Opened(dir) => {
                if enters(&dir) {
                    self.step = CleanupStep::NextEntry;
                } else {
                    self.up();
                }
            },
            CleanupEvent::Entry(entry) => {
                let top: usize = self.stack.len() - 1;
                match visit(self.stack[top].level, entry, self.ttl_days) {
                    Visit::Pass => {},
                    Visit::CountError => {
                        self.stats.errors = self.stats.errors + 1;
                    },
                    Visit::RemoveFile => {
                        self.step = CleanupStep::RemoveFile;
                    },
                    Visit::Enter(level) => {
                        self.down(level);
                    },
                    Visit::Lease => {
                        self.step = CleanupStep::Lease;
                    },
                }
            },
            CleanupEvent::NoMoreEntries => {
                self.up();
            },
            CleanupEvent::FileRemoved(ok) => {
                if ok {
                    self.stats.files_deleted = self.stats.files_deleted + 1;
                    if let Some(inner) = self.stack.pop() {
                        self.stack.push(Frame { level: inner.level, deleted: inner.deleted + 1 });
                    }
                } else {
                    self.stats.errors = self.stats.errors + 1;
                }
                self.step = CleanupStep::NextEntry;
            },
            CleanupEvent::Leased(ok) => {
                if ok {
                    self.down(CleanupLevel::Session);
                } else {
                    self.step = CleanupStep::NextEntry;
                }
            },
            CleanupEvent::DirRemoved(ok) => {
                if ok {
                    self.stats.dirs_removed = self.stats.dirs_removed + 1;
                }
                self.step = CleanupStep::NextEntry;
            },
        }
    }
}

/// A file is removed only if it is stale.
pub proof fn only_stale_files_are_removed(s: WalkState, event: CleanupEvent)
    requires
        s.wf(),
        s.fits(event),
        s.after(event).step == CleanupStep::RemoveFile,
    ensures
        event matches CleanupEvent::Entry(EntryProbe::Other { age }) && stale(age, s.ttl_days),
{
}

/// A directory that is unpublished, hidden, kept or cannot be listed is left as
/// it is: nothing in it is probed or removed, nor the directory itself.
pub proof fn closed_directories_are_untouched(s: WalkState, dir: DirProbe)
    requires
        s.wf(),
        s.step == CleanupStep::Open,
        !entered(dir),
    ensures
        ({
            let t = s.after(CleanupEvent::Opened(dir));
            &&& t.step == CleanupStep::NextEntry || t.step == CleanupStep::Finished
            &&& t.stack.len() == s.stack.len() - 1
            &&& t.stats == s.stats
        }),
{
}

/// The directory to keep and the directories that a relocation needs are
/// passed over.
pub proof fn protected_directories_are_passed(s: WalkState, entry: EntryProbe)
    requires
        s.wf(),
        s.step == CleanupStep::NextEntry,
        entry == EntryProbe::Kept || (s.stack.last().level == CleanupLevel::SessionsRoot && (
        entry matches EntryProbe::Dir { protected, .. } && protected)),
    ensures
        s.after(CleanupEvent::Entry(entry)) == s,
{
}

/// A directory that bears a session's summary is entered only under a lease.
pub proof fn sessions_are_entered_under_lease(s: WalkState, event: CleanupEvent)
    requires
        s.wf(),
        s.fits(event),
        s.stack.last().level == CleanupLevel::Cwd,
        s.after(event).stack.len() > s.stack.len(),
    ensures
        event == CleanupEvent::Leased(true) || (event matches CleanupEvent::Entry(
            EntryProbe::Dir { summary, .. },
        ) && summary == SummaryProbe::Missing),
{
}

/// A directory is removed only after files were removed below it in this walk.
pub proof fn only_emptied_directories_are_removed(s: WalkState, event: CleanupEvent)
    requires
        s.wf(),
        s.fits(event),
        s.after(event).step == CleanupStep::RemoveDir,
    ensures
        s.stack.last().deleted > 0,
{
}

} // verus!
