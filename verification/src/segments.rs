//! Copying the compaction archive of a session: every regular file of it, and
//! nothing else.

use vstd::prelude::*;

use crate::io_error::IoError;

verus! {

/// What the driver does next.
#[derive(Debug)]
pub enum SegmentStep {
    /// Ask whether the source has a directory with an archive.
    ProbeDir,
    /// Make the directory of the archive in the target.
    CreateDir,
    /// Begin to list the archive.
    ListDir,
    /// Look what the next entry of the archive is, following no link.
    NextEntry,
    /// Copy the entry under its name.
    CopyEntry,
    Finished(Result<usize, IoError>),
}

/// What happened.
#[derive(Debug)]
pub enum SegmentEvent {
    /// Whether there is an archive.
    Dir(bool),
    /// Whether the next entry is a regular file; nothing where there is none.
    Entry(Result<Option<bool>, IoError>),
    Done(Result<(), IoError>),
}

/// A copy of an archive in progress.
#[derive(Debug)]
pub struct SegmentCopy {
    pub copied: usize,
    pub step: SegmentStep,
}

impl SegmentCopy {
    /// Whether `event` is what the step can lead to.
    pub open spec fn fits(&self, event: SegmentEvent) -> bool {
        match self.step {
            SegmentStep::ProbeDir => event is Dir,
            SegmentStep::CreateDir => event is Done,
            SegmentStep::ListDir => event is Done,
            SegmentStep::NextEntry => event is Entry,
            SegmentStep::CopyEntry => event is Done && self.copied < usize::MAX,
            SegmentStep::Finished(_) => false,
        }
    }

    pub open spec fn at(self, step: SegmentStep) -> SegmentCopy {
        SegmentCopy { step, ..self }
    }

    /// What one event makes of the copy.
    pub open spec fn after(self, event: SegmentEvent) -> SegmentCopy {
        match event {
            SegmentEvent::Dir(true) => self.at(SegmentStep::CreateDir),
            SegmentEvent::Dir(false) => self.at(SegmentStep::Finished(Ok(self.copied))),
            SegmentEvent::Entry(Ok(Some(true))) => self.at(SegmentStep::CopyEntry),
            SegmentEvent::Entry(Ok(Some(false))) => self,
            SegmentEvent::Entry(Ok(None)) => self.at(SegmentStep::Finished(Ok(self.copied))),
            SegmentEvent::Entry(Err(e)) => self.at(SegmentStep::Finished(Err(e))),
            SegmentEvent::Done(Ok(_)) => match self.step {
                SegmentStep::CreateDir => self.at(SegmentStep::ListDir),
                SegmentStep::ListDir => self.at(SegmentStep::NextEntry),
                _ => SegmentCopy {
                    copied: (self.copied + 1) as usize,
                    step: SegmentStep::NextEntry,
                },
            },
            SegmentEvent::Done(Err(e)) => self.at(SegmentStep::Finished(Err(e))),
        }
    }

    pub fn begin() -> (r: SegmentCopy)
        ensures
            r == (SegmentCopy { copied: 0, step: SegmentStep::ProbeDir }),
    {
        SegmentCopy { copied: 0, step: SegmentStep::ProbeDir }
    }

    /// Whether `event` is what the step can lead to.
    pub fn accepts(&self, event: &SegmentEvent) -> (r: bool)
        ensures
            r == self.fits(*event),
    {
        match (&self.step, event) {
            (SegmentStep::ProbeDir, SegmentEvent::Dir(_)) => true,
            (SegmentStep::CreateDir, SegmentEvent::Done(_)) => true,
            (SegmentStep::ListDir, SegmentEvent::Done(_)) => true,
            (SegmentStep::NextEntry, SegmentEvent::Entry(_)) => true,
            (SegmentStep::CopyEntry, SegmentEvent::Done(_)) => self.copied < usize::MAX,
            _ => false,
        }
    }

    /// Takes in what happened.
    pub fn step(self, event: SegmentEvent) -> (r: SegmentCopy)
        requires
            self.fits(event),
        ensures
            r == self.after(event),
    {
        let mut c = self;
        match event {
            SegmentEvent::Dir(there) => {
                c.step = if there {
                    SegmentStep::CreateDir
                } else {
                    SegmentStep::Finished(Ok(c.copied))
                };
            },
            SegmentEvent::Entry(Ok(Some(regular))) => {
                if regular {
                    c.step = SegmentStep::CopyEntry;
                }
            },
            SegmentEvent::Entry(Ok(None)) => {
                c.step = SegmentStep::Finished(Ok(c.copied));
            },
            SegmentEvent::Entry(Err(e)) => {
                c.step = SegmentStep::Finished(Err(e));
            },
            SegmentEvent::Done(Ok(_)) => {
                let copied: usize = c.copied;
                c = match c.step {
                    SegmentStep::CreateDir => SegmentCopy { copied, step: SegmentStep::ListDir },
                    SegmentStep::ListDir => SegmentCopy { copied, step: SegmentStep::NextEntry },
                    _ => SegmentCopy { copied: copied + 1, step: SegmentStep::NextEntry },
                };
            },
            SegmentEvent::Done(Err(e)) => {
                c.step = SegmentStep::Finished(Err(e));
            },
        }
        c
    }
}

/// How many of the entries are regular files.
pub open spec fn regular_files(entries: Seq<bool>) -> nat
    decreases entries.len(),
{
    if entries.len() == 0 {
        0
    } else if entries.last() {
        regular_files(entries.drop_last()) + 1
    } else {
        regular_files(entries.drop_last())
    }
}

/// Whether `states` are those of a copy that comes to the entries of an archive
/// one after the other, each a regular file or not, with nothing failing; and
/// `copied` tells which of them it copies.
pub open spec fn archive_run(
    entries: Seq<bool>,
    states: Seq<SegmentCopy>,
    copied: Seq<bool>,
) -> bool {
    &&& states.len() == entries.len() + 1
    &&& copied.len() == entries.len()
    &&& states[0] == (SegmentCopy { copied: 0, step: SegmentStep::NextEntry })
    &&& forall|i: int| #![trigger copied[i]]
        0 <= i < entries.len() ==> {
            let seen = states[i].after(SegmentEvent::Entry(Ok(Some(entries[i]))));
            &&& copied[i] == (seen.step is CopyEntry)
            &&& states[i + 1] == if copied[i] {
                seen.after(SegmentEvent::Done(Ok(())))
            } else {
                seen
            }
        }
}

/// Of an archive exactly the regular files are copied, and as many are reported
/// as there are.
pub proof fn exactly_regular_files_are_copied(
    entries: Seq<bool>,
    states: Seq<SegmentCopy>,
    copied: Seq<bool>,
    n: nat,
)
    requires
        archive_run(entries, states, copied),
        entries.len() <= usize::MAX,
        n <= entries.len(),
    ensures
        states[n as int] == (SegmentCopy {
            copied: regular_files(entries.take(n as int)) as usize,
            step: SegmentStep::NextEntry,
        }),
        regular_files(entries.take(n as int)) <= n,
        forall|i: int| 0 <= i < n ==> #[trigger] copied[i] == entries[i],
        states[n as int].after(SegmentEvent::Entry(Ok(None))).step == SegmentStep::Finished(
            Ok(regular_files(entries.take(n as int)) as usize),
        ),
    decreases n,
{
    if n > 0 {
        exactly_regular_files_are_copied(entries, states, copied, (n - 1) as nat);
        assert(entries.take(n as int).drop_last() =~= entries.take(n - 1));
        assert(copied[n - 1] == entries[n - 1]);
    } else {
        assert(entries.take(0) =~= seq![]);
    }
}

/// Nothing but a regular file is ever copied, whatever fails on the way.
pub proof fn nothing_else_is_copied(c: SegmentCopy, event: SegmentEvent)
    requires
        c.fits(event),
        c.after(event).step is CopyEntry,
    ensures
        c.step is NextEntry,
        event == SegmentEvent::Entry(Ok(Some(true))),
{
}

} // verus!
