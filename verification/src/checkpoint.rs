//! Copying the compaction checkpoints that a transcript refers to.
//!
//! A transcript can be edited by its user. So a reference counts only if it has
//! exactly the shape in which checkpoints are stored, links are not followed,
//! and a reference to nothing is passed over.

use vstd::prelude::*;
use vstd::string::*;

use crate::io_error::{ErrorKind, IoError};
use crate::naming::PathStyle;
use crate::text::{has_suffix, owned, same_text, strip_suffix};

verus! {

/// The pieces of a path between its separators.
pub open spec fn pieces(path: Seq<char>, style: PathStyle) -> Seq<Seq<char>>
    decreases path.len(),
{
    if path.len() == 0 {
        seq![seq![]]
    } else {
        let init = pieces(path.drop_last(), style);
        if style.separates(path.last()) {
            init.push(seq![])
        } else {
            init.drop_last().push(init.last().push(path.last()))
        }
    }
}

/// Whether a piece names something: repeated separators and `.` do not.
pub open spec fn names_something(piece: Seq<char>) -> bool {
    piece != ""@ && piece != "."@
}

/// The pieces that name something.
pub open spec fn naming(all: Seq<Seq<char>>) -> Seq<Seq<char>>
    decreases all.len(),
{
    if all.len() == 0 {
        seq![]
    } else if names_something(all.last()) {
        naming(all.drop_last()).push(all.last())
    } else {
        naming(all.drop_last())
    }
}

/// Whether a path is that of a checkpoint: relative, not starting at `.`, a
/// name in `compaction_checkpoints`, and the name more than its ending `.json`.
/// A path that begins with a drive has another first name.
pub open spec fn is_checkpoint_path(path: Seq<char>, style: PathStyle) -> bool {
    let names = naming(pieces(path, style));
    &&& path.len() > 0 && !style.separates(path[0])
    &&& pieces(path, style)[0] != "."@
    &&& names.len() == 2
    &&& names[0] == "compaction_checkpoints"@
    &&& has_suffix(names[1], ".json"@)
    &&& names[1].len() > 5
}

proof fn naming_one_more(all: Seq<Seq<char>>, piece: Seq<char>)
    ensures
        naming(all.push(piece)) == if names_something(piece) {
            naming(all).push(piece)
        } else {
            naming(all)
        },
{
    assert(all.push(piece).drop_last() =~= all);
}

fn names(piece: &str) -> (r: bool)
    ensures
        r == names_something(piece@),
{
    !same_text(piece, "") && !same_text(piece, ".")
}

/// Whether a path is that of a checkpoint.
pub fn checkpoint_path(path: &str, style: PathStyle) -> (r: bool)
    ensures
        r == is_checkpoint_path(path@, style),
{
    let n: usize = path.unicode_len();
    if n == 0 || style.is_separator(path.get_char(0)) {
        return false;
    }
    let mut found: Vec<String> = Vec::new();
    let mut piece: String = owned("");
    let mut dotted = false;
    let mut first = true;
    let mut i: usize = 0;
    proof {
        reveal_strlit("");
        assert(path@.take(0) =~= seq![]);
        assert(pieces(path@.take(0), style) =~= seq![seq![]]);
        assert(piece@ =~= pieces(path@.take(0), style).last());
        assert(pieces(path@.take(0), style).drop_last() =~= seq![]);
    }
    while i < n
        invariant
            i <= n,
            n == path@.len(),
            pieces(path@.take(i as int), style).len() > 0,
            piece@ == pieces(path@.take(i as int), style).last(),
            found@.len() == naming(pieces(path@.take(i as int), style).drop_last()).len(),
            forall|k: int|
                0 <= k < found@.len() ==> (#[trigger] found@[k])@ == naming(
                    pieces(path@.take(i as int), style).drop_last(),
                )[k],
            first == (pieces(path@.take(i as int), style).len() == 1),
            !first ==> dotted == (pieces(path@.take(i as int), style)[0] == "."@),
        decreases n - i,
    {
        let ghost was = path@.take(i as int);
        let ghost now = path@.take(i + 1);
        let c = path.get_char(i);
        proof {
            assert(now.drop_last() =~= was);
            assert(now.last() == c);
        }
        if style.is_separator(c) {
            proof {
                assert(pieces(now, style).drop_last() =~= pieces(was, style));
                assert(pieces(was, style) =~= pieces(was, style).drop_last().push(pieces(was, style).last()));
                naming_one_more(pieces(was, style).drop_last(), pieces(was, style).last());
                reveal_strlit("");
            }
            if first {
                dotted = same_text(piece.as_str(), ".");
                first = false;
            }
            if names(piece.as_str()) {
                found.push(piece);
            }
            piece = owned("");
            assert(piece@ =~= seq![]);
        } else {
            proof {
                assert(pieces(now, style).drop_last() =~= pieces(was, style).drop_last());
            }
            piece.push(c);
        }
        i = i + 1;
    }
    proof {
        assert(path@.take(i as int) =~= path@);
        assert(pieces(path@, style) =~= pieces(path@, style).drop_last().push(pieces(path@, style).last()));
        naming_one_more(pieces(path@, style).drop_last(), pieces(path@, style).last());
    }
    if first {
        dotted = same_text(piece.as_str(), ".");
    }
    if names(piece.as_str()) {
        found.push(piece);
    }
    if dotted || found.len() != 2 {
        return false;
    }
    proof {
        reveal_strlit(".json");
    }
    same_text(found[0].as_str(), "compaction_checkpoints") && strip_suffix(
        found[1].as_str(),
        ".json",
    ).is_some() && found[1].as_str().unicode_len() > 5
}

/// What the driver does next.
#[derive(Debug)]
pub enum CheckpointStep {
    /// Look what `compaction_checkpoints` of the source is, following no link.
    ProbeDir,
    /// Look what the next file of the source is, following no link.
    ProbeFile,
    /// Make the directory of the next file in the target; write the file there
    /// with the pointers in its history bound to the fork, or copy it where
    /// there are none.
    CopyFile,
    Finished(Result<usize, IoError>),
}

/// What happened.
#[derive(Debug)]
pub enum CheckpointEvent {
    /// Whether there is a directory of its own.
    Dir(Result<bool, IoError>),
    /// Whether there is a regular file.
    File(Result<bool, IoError>),
    Copied(Result<(), IoError>),
}

/// A copy of checkpoints in progress.
#[derive(Debug)]
pub struct CheckpointCopy {
    pub style: PathStyle,
    pub files: Vec<String>,
    pub next: usize,
    pub copied: usize,
    pub step: CheckpointStep,
}

/// The first file at or after `from` whose path is that of a checkpoint.
pub open spec fn next_checkpoint(files: Seq<String>, style: PathStyle, from: nat) -> nat
    decreases files.len() - from,
{
    if from >= files.len() || is_checkpoint_path(files[from as int]@, style) {
        from
    } else {
        next_checkpoint(files, style, from + 1)
    }
}

impl CheckpointCopy {
    /// Only a file whose path is that of a checkpoint is ever looked at.
    pub open spec fn wf(&self) -> bool {
        &&& self.copied <= self.next <= self.files@.len() <= usize::MAX
        &&& self.step is ProbeDir ==> self.next == 0
        &&& self.step is ProbeFile || self.step is CopyFile ==> self.next < self.files@.len()
            && is_checkpoint_path(self.files@[self.next as int]@, self.style)
    }

    /// Whether `event` is what the step can lead to.
    pub open spec fn fits(&self, event: CheckpointEvent) -> bool {
        match self.step {
            CheckpointStep::ProbeDir => event is Dir,
            CheckpointStep::ProbeFile => event is File,
            CheckpointStep::CopyFile => event is Copied,
            CheckpointStep::Finished(_) => false,
        }
    }

    /// On to the next checkpoint at or after `from`, or to the end.
    pub open spec fn on_from(self, from: nat, copied: usize) -> CheckpointCopy {
        let next = next_checkpoint(self.files@, self.style, from) as usize;
        CheckpointCopy {
            next,
            copied,
            step: if next < self.files@.len() {
                CheckpointStep::ProbeFile
            } else {
                CheckpointStep::Finished(Ok(copied))
            },
            ..self
        }
    }

    pub open spec fn finished(self, result: Result<usize, IoError>) -> CheckpointCopy {
        CheckpointCopy { step: CheckpointStep::Finished(result), ..self }
    }

    /// What one event makes of the copy.
    pub open spec fn after(self, event: CheckpointEvent) -> CheckpointCopy {
        match event {
            CheckpointEvent::Dir(Ok(is_dir)) => if is_dir {
                self.on_from(0, self.copied)
            } else {
                self.finished(Ok(0))
            },
            CheckpointEvent::Dir(Err(e)) => if e.kind == ErrorKind::NotFound {
                self.finished(Ok(0))
            } else {
                self.finished(Err(e))
            },
            CheckpointEvent::File(Ok(regular)) => if regular {
                CheckpointCopy { step: CheckpointStep::CopyFile, ..self }
            } else {
                self.on_from((self.next + 1) as nat, self.copied)
            },
            CheckpointEvent::File(Err(e)) => if e.kind == ErrorKind::NotFound {
                self.on_from((self.next + 1) as nat, self.copied)
            } else {
                self.finished(Err(e))
            },
            CheckpointEvent::Copied(Ok(_)) => self.on_from(
                (self.next + 1) as nat,
                (self.copied + 1) as usize,
            ),
            CheckpointEvent::Copied(Err(e)) => self.finished(Err(e)),
        }
    }

    /// A copy of these files; there is nothing to do where there are none.
    pub fn begin(files: Vec<String>, style: PathStyle) -> (r: CheckpointCopy)
        ensures
            r == (CheckpointCopy {
                style,
                files,
                next: 0,
                copied: 0,
                step: if files@.len() == 0 {
                    CheckpointStep::Finished(Ok(0))
                } else {
                    CheckpointStep::ProbeDir
                },
            }),
            r.wf(),
    {
        let step = if files.len() == 0 {
            CheckpointStep::Finished(Ok(0))
        } else {
            CheckpointStep::ProbeDir
        };
        CheckpointCopy { style, files, next: 0, copied: 0, step }
    }

    fn go_on(self, from: usize, copied: usize) -> (r: CheckpointCopy)
        requires
            copied <= from <= self.files@.len(),
        ensures
            r == self.on_from(from as nat, copied),
            r.wf(),
    {
        let mut next: usize = from;
        while next < self.files.len() && !checkpoint_path(
            self.files[next].as_str(),
            self.style,
        )
            invariant
                from <= next <= self.files@.len(),
                next_checkpoint(self.files@, self.style, from as nat) == next_checkpoint(
                    self.files@,
                    self.style,
                    next as nat,
                ),
            decreases self.files@.len() - next,
        {
            next = next + 1;
        }
        let step = if next < self.files.len() {
            CheckpointStep::ProbeFile
        } else {
            CheckpointStep::Finished(Ok(copied))
        };
        CheckpointCopy { style: self.style, files: self.files, next, copied, step }
    }

    /// Takes in what happened.
    pub fn step(self, event: CheckpointEvent) -> (r: CheckpointCopy)
        requires
            self.wf(),
            self.fits(event),
        ensures
            r == self.after(event),
            r.wf(),
    {
        let mut c = self;
        match event {
            CheckpointEvent::Dir(Ok(is_dir)) => {
                if is_dir {
                    let copied: usize = c.copied;
                    c.go_on(0, copied)
                } else {
                    c.step = CheckpointStep::Finished(Ok(0));
                    c
                }
            },
            CheckpointEvent::Dir(Err(e)) => {
                c.step = if e.kind == ErrorKind::NotFound {
                    CheckpointStep::Finished(Ok(0))
                } else {
                    CheckpointStep::Finished(Err(e))
                };
                c
            },
            CheckpointEvent::File(Ok(regular)) => {
                if regular {
                    c.step = CheckpointStep::CopyFile;
                    c
                } else {
                    let next: usize = c.next + 1;
                    let copied: usize = c.copied;
                    c.go_on(next, copied)
                }
            },
            CheckpointEvent::File(Err(e)) => {
                if e.kind == ErrorKind::NotFound {
                    let next: usize = c.next + 1;
                    let copied: usize = c.copied;
                    c.go_on(next, copied)
                } else {
                    c.step = CheckpointStep::Finished(Err(e));
                    c
                }
            },
            CheckpointEvent::Copied(Ok(_)) => {
                let next: usize = c.next + 1;
                let copied: usize = c.copied + 1;
                c.go_on(next, copied)
            },
            CheckpointEvent::Copied(Err(e)) => {
                c.step = CheckpointStep::Finished(Err(e));
                c
            },
        }
    }
}

/// A reference to a file that is missing or is no regular file fails nothing:
/// the copy goes on past it with what it has.
pub proof fn dangling_references_are_passed(
    c: CheckpointCopy,
    probe: Result<bool, IoError>,
)
    requires
        c.wf(),
        c.step is ProbeFile,
        probe == Ok::<bool, IoError>(false) || (probe matches Err(e) && e.kind
            == ErrorKind::NotFound),
    ensures
        ({
            let r = c.after(CheckpointEvent::File(probe));
            &&& r.copied == c.copied
            &&& r.next > c.next
            &&& r.step is ProbeFile || r.step == CheckpointStep::Finished(Ok(c.copied))
        }),
{
    next_is_later(c.files@, c.style, (c.next + 1) as nat);
}

proof fn next_is_later(files: Seq<String>, style: PathStyle, from: nat)
    requires
        from <= files.len(),
    ensures
        from <= next_checkpoint(files, style, from) <= files.len(),
    decreases files.len() - from,
{
    if from < files.len() && !is_checkpoint_path(files[from as int]@, style) {
        next_is_later(files, style, from + 1);
    }
}

} // verus!
