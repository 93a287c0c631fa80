//! What of a session's files is taken along, where an id counts as taken, and
//! what a session is called.

use vstd::prelude::*;
use vstd::string::*;

use crate::checkpoint::{
    is_checkpoint_path, naming, next_checkpoint, pieces, CheckpointCopy, CheckpointEvent,
    CheckpointStep,
};
use crate::io_error::{ErrorKind, IoError};
use crate::naming::{stage_container_name, PathStyle};
use crate::segments::{SegmentCopy, SegmentEvent, SegmentStep};
use crate::session_files::{
    archived, files_below, files_of, logs_taken, DirEntry, FileContent, LogEntry,
};
use crate::stage::{lists, namespace_taken, reclaimable, taken_from, ContainerProbe, CwdProbe};
use crate::summary::{title_text, Summary};
use crate::text::{leading_white, trailing_white, trimmed};

verus! {

// Paths of checkpoints.

/// Whether `c` stands between the names of a path: a slash, and on Windows a
/// backslash too.
pub open spec fn parts(style: PathStyle, c: char) -> bool {
    c == '/' || (style is Windows && c == '\\')
}

/// Whether a text is one name of a path.
pub open spec fn one_name(style: PathStyle, name: Seq<char>) -> bool {
    &&& forall|i: int| 0 <= i < name.len() ==> !parts(style, #[trigger] name[i])
    &&& name.len() > 0
    &&& name != "."@
}

/// Whether a name ends in `.json` behind something else.
pub open spec fn names_json(name: Seq<char>) -> bool {
    &&& name.len() > 5
    &&& name.subrange(name.len() - 5, name.len() as int) == ".json"@
}

proof fn pieces_of_name(path: Seq<char>, name: Seq<char>, style: PathStyle)
    requires
        forall|i: int| 0 <= i < name.len() ==> !parts(style, #[trigger] name[i]),
        path.len() == 0 || parts(style, path.last()),
    ensures
        pieces(path, style).len() > 0,
        pieces(path + name, style) == pieces(path, style).drop_last().push(name),
    decreases name.len(),
{
    pieces_are_some(path, style);
    if name.len() == 0 {
        assert(path + name =~= path);
        assert(pieces(path, style).last() =~= name);
        assert(pieces(path, style) =~= pieces(path, style).drop_last().push(name));
    } else {
        let shorter = name.drop_last();
        pieces_of_name(path, shorter, style);
        assert((path + name).drop_last() =~= path + shorter);
        assert(!parts(style, name[name.len() - 1]));
        let init = pieces(path + shorter, style);
        assert(init.drop_last() =~= pieces(path, style).drop_last());
        assert(init.last().push(name.last()) =~= name);
    }
}

proof fn pieces_are_some(path: Seq<char>, style: PathStyle)
    ensures
        pieces(path, style).len() > 0,
    decreases path.len(),
{
    if path.len() > 0 {
        pieces_are_some(path.drop_last(), style);
    }
}

proof fn pieces_of_child(path: Seq<char>, c: char, name: Seq<char>, style: PathStyle)
    requires
        parts(style, c),
        forall|i: int| 0 <= i < name.len() ==> !parts(style, #[trigger] name[i]),
    ensures
        pieces(path.push(c) + name, style) == pieces(path, style).push(name),
{
    pieces_are_some(path, style);
    assert(path.push(c).drop_last() =~= path);
    assert(pieces(path.push(c), style) == pieces(path, style).push(seq![]));
    pieces_of_name(path.push(c), name, style);
    assert(pieces(path.push(c), style).drop_last() =~= pieces(path, style));
}

proof fn naming_of_one(name: Seq<char>)
    requires
        name.len() > 0,
        name != "."@,
    ensures
        naming(seq![name]) == seq![name],
{
    reveal_strlit("");
    assert(seq![name].drop_last() =~= Seq::<Seq<char>>::empty());
    assert(naming(Seq::<Seq<char>>::empty()) =~= Seq::<Seq<char>>::empty());
    assert(naming(seq![name]) =~= seq![name]);
}

proof fn naming_of_two(dir: Seq<char>, name: Seq<char>)
    requires
        dir.len() > 0 && name.len() > 0,
        dir != "."@ && name != "."@,
    ensures
        naming(seq![dir, name]) == seq![dir, name],
{
    reveal_strlit("");
    naming_of_one(dir);
    assert(seq![dir, name].drop_last() =~= seq![dir]);
    assert(naming(seq![dir, name]) =~= seq![dir, name]);
}

/// The path of a checkpoint is a name that ends in `.json`, in the directory
/// `compaction_checkpoints`. A name in any other directory, one deeper in it, a
/// name alone and a path from the root are no checkpoint.
pub proof fn checkpoints_lie_in_their_directory(
    dir: Seq<char>,
    c: char,
    name: Seq<char>,
    deeper: Seq<char>,
    style: PathStyle,
)
    requires
        one_name(style, dir),
        one_name(style, name),
        one_name(style, deeper),
        parts(style, c),
    ensures
        is_checkpoint_path(dir.push(c) + name, style) <==> dir == "compaction_checkpoints"@
            && names_json(name),
        !is_checkpoint_path(name, style),
        !is_checkpoint_path((dir.push(c) + deeper).push(c) + name, style),
        !is_checkpoint_path(seq![c] + name, style),
{
    reveal_strlit(".json");
    reveal_strlit("");
    let top = Seq::<char>::empty();
    pieces_of_name(top, dir, style);
    assert(pieces(top, style) =~= seq![seq![]]);
    assert(top + dir =~= dir);
    assert(pieces(dir, style) =~= seq![dir]);
    pieces_of_child(dir, c, name, style);
    let path = dir.push(c) + name;
    assert(pieces(path, style) =~= seq![dir, name]);
    naming_of_two(dir, name);
    assert(path[0] == dir[0]);
    assert(!parts(style, dir[0]));
    assert(name.len() >= 5 ==> name.skip(name.len() - 5) =~= name.subrange(
        name.len() - 5,
        name.len() as int,
    ));
    assert("."@.len() == 1) by {
        reveal_strlit(".");
    }
    pieces_of_name(top, name, style);
    assert(top + name =~= name);
    assert(pieces(name, style) =~= seq![name]);
    naming_of_one(name);
    let inner = dir.push(c) + deeper;
    pieces_of_child(dir, c, deeper, style);
    assert(pieces(inner, style) =~= seq![dir, deeper]);
    pieces_of_child(inner, c, name, style);
    let all = seq![dir, deeper, name];
    assert(pieces(inner.push(c) + name, style) =~= all);
    naming_of_two(dir, deeper);
    assert(all.drop_last() =~= seq![dir, deeper]);
    assert(naming(all).len() == 3);
    assert((seq![c] + name)[0] == c);
}

/// The copy of checkpoints looks at every file of the list that is one, in
/// order, and at no other: between one that it looks at and the next there is
/// none, and there is none left when it ends. It counts those that it has
/// copied, says so at the end, and fails with what failed; a directory or a file
/// that is missing fails nothing.
pub proof fn every_checkpoint_is_looked_at(c: CheckpointCopy, event: CheckpointEvent)
    requires
        c.wf(),
        c.fits(event),
    ensures
        ({
            let r = c.after(event);
            let from: int = if c.step is ProbeDir {
                0
            } else {
                c.next + 1
            };
            &&& r.files == c.files && r.style == c.style
            &&& r.step is CopyFile <==> event == CheckpointEvent::File(Ok::<bool, IoError>(true))
            &&& r.step is CopyFile ==> r.next == c.next && r.copied == c.copied
            &&& r.copied == if event is Copied && event->Copied_0 is Ok {
                c.copied + 1
            } else {
                c.copied as int
            }
            &&& r.step is ProbeFile ==> {
                &&& from <= r.next < c.files@.len()
                &&& is_checkpoint_path(c.files@[r.next as int]@, c.style)
                &&& forall|k: int|
                    from <= k < r.next ==> !is_checkpoint_path(
                        (#[trigger] c.files@[k])@,
                        c.style,
                    )
            }
            &&& r.step is Finished && r.step->Finished_0 is Ok && !(c.step is ProbeDir) ==> {
                &&& r.step->Finished_0->Ok_0 == r.copied
                &&& forall|k: int|
                    from <= k < c.files@.len() ==> !is_checkpoint_path(
                        (#[trigger] c.files@[k])@,
                        c.style,
                    )
            }
            &&& event matches CheckpointEvent::Dir(Ok(false)) ==> r.step
                == CheckpointStep::Finished(Ok(0))
            &&& event matches CheckpointEvent::Dir(Ok(true)) ==> !(r.step is Finished)
                || forall|k: int|
                0 <= k < c.files@.len() ==> !is_checkpoint_path((#[trigger] c.files@[k])@, c.style)
            &&& event matches CheckpointEvent::Dir(Err(e)) ==> r.step == CheckpointStep::Finished(
                if e.kind == ErrorKind::NotFound {
                    Ok(0)
                } else {
                    Err(e)
                },
            )
            &&& event matches CheckpointEvent::File(Err(e)) ==> (e.kind != ErrorKind::NotFound
                <==> r.step == CheckpointStep::Finished(Err::<usize, IoError>(e)))
            &&& event matches CheckpointEvent::Copied(Err(e)) ==> r.step
                == CheckpointStep::Finished(Err(e))
        }),
{
    next_passes_no_checkpoint(c, 0);
    if !(c.step is ProbeDir) {
        next_passes_no_checkpoint(c, (c.next + 1) as nat);
    }
}

proof fn next_passes_no_checkpoint(c: CheckpointCopy, from: nat)
    requires
        from <= c.files@.len(),
    ensures
        ({
            let next = next_checkpoint(c.files@, c.style, from);
            &&& from <= next <= c.files@.len()
            &&& next < c.files@.len() ==> is_checkpoint_path(c.files@[next as int]@, c.style)
            &&& forall|k: int|
                from <= k < next ==> !is_checkpoint_path((#[trigger] c.files@[k])@, c.style)
        }),
    decreases c.files@.len() - from,
{
    if from < c.files@.len() && !is_checkpoint_path(c.files@[from as int]@, c.style) {
        next_passes_no_checkpoint(c, from + 1);
    }
}

/// The archive of compactions is copied only where there is one, into a
/// directory made for it, and listed before an entry is taken up. A failure
/// ends the copy and is what it fails with; each file that is copied counts
/// once.
pub proof fn archive_is_copied_in_order(c: SegmentCopy, event: SegmentEvent)
    requires
        c.fits(event),
    ensures
        ({
            let r = c.after(event);
            &&& event == SegmentEvent::Dir(false) ==> r.step == SegmentStep::Finished(
                Ok(c.copied),
            )
            &&& event == SegmentEvent::Dir(true) ==> r.step is CreateDir
            &&& c.step is CreateDir && (event matches SegmentEvent::Done(Ok(_))) ==> r.step
                is ListDir
            &&& c.step is ListDir && (event matches SegmentEvent::Done(Ok(_))) ==> r.step
                is NextEntry
            &&& c.step is CopyEntry && (event matches SegmentEvent::Done(Ok(_))) ==> r.step
                is NextEntry && r.copied == c.copied + 1
            &&& !(c.step is CopyEntry) ==> r.copied == c.copied
            &&& event matches SegmentEvent::Done(Err(e)) ==> r.step == SegmentStep::Finished(
                Err(e),
            )
            &&& event matches SegmentEvent::Entry(Err(e)) ==> r.step == SegmentStep::Finished(
                Err(e),
            )
            &&& event matches SegmentEvent::Entry(Ok(Some(false))) ==> r == c
            &&& event matches SegmentEvent::Entry(Ok(None)) ==> r.step == SegmentStep::Finished(
                Ok(c.copied),
            )
        }),
{
}

// Files in memory.

/// Where a name lies below a directory: at the top under itself, else behind the
/// directory and the separator of the platform.
pub open spec fn lies_at(base: Seq<char>, name: Seq<char>, style: PathStyle) -> Seq<char> {
    if base.len() == 0 {
        name
    } else {
        base.push(
            if style is Windows {
                '\\'
            } else {
                '/'
            },
        ) + name
    }
}

proof fn lies_where_joined(base: Seq<char>, name: Seq<char>, style: PathStyle)
    ensures
        crate::session_files::path_below(base, name, style) == lies_at(base, name, style),
{
    reveal_strlit("/");
    reveal_strlit("\\");
    assert(base + style.joint() + name =~= base.push(
        if style is Windows {
            '\\'
        } else {
            '/'
        },
    ) + name);
}

proof fn entry_is_among(
    entries: Seq<DirEntry>,
    base: Seq<char>,
    style: PathStyle,
    n: nat,
    i: int,
    f: FileContent,
)
    requires
        0 <= i < n <= entries.len(),
        files_of(entries[i], base, style).contains(f),
    ensures
        files_below(entries, base, style, n).contains(f),
    decreases n,
{
    let earlier = files_below(entries, base, style, (n - 1) as nat);
    let last = files_of(entries[n - 1], base, style);
    let all = files_below(entries, base, style, n);
    assert(all == earlier + last);
    if i == n - 1 {
        let k = choose|k: int| 0 <= k < last.len() && last[k] == f;
        assert(all[earlier.len() + k] == f);
    } else {
        entry_is_among(entries, base, style, (n - 1) as nat, i, f);
        let k = choose|k: int| 0 <= k < earlier.len() && earlier[k] == f;
        assert(all[k] == f);
    }
}

/// Every file of a session that can be read is taken along under its path and
/// with its bytes: one that lies in a directory, and all that lie in the
/// directories there.
pub proof fn every_file_is_taken(
    entries: Seq<DirEntry>,
    base: Seq<char>,
    style: PathStyle,
    i: int,
)
    requires
        0 <= i < entries.len(),
    ensures
        entries[i] matches DirEntry::File { name: Some(name), data: Some(data) } ==> files_below(
            entries,
            base,
            style,
            entries.len(),
        ).contains(FileContent { name: lies_at(base, name@, style), data: data@ }),
        entries[i] matches DirEntry::Dir { name: Some(name), entries: Some(inner) } ==> forall|
            f: FileContent,
        |
            files_below(inner@, lies_at(base, name@, style), style, inner@.len()).contains(f)
                ==> #[trigger] files_below(entries, base, style, entries.len()).contains(f),
{
    match entries[i] {
        DirEntry::File { name: Some(name), data: Some(data) } => {
            let f = FileContent { name: lies_at(base, name@, style), data: data@ };
            lies_where_joined(base, name@, style);
            assert(files_of(entries[i], base, style)[0] == f);
            entry_is_among(entries, base, style, entries.len(), i, f);
        },
        DirEntry::Dir { name: Some(name), entries: Some(inner) } => {
            lies_where_joined(base, name@, style);
            assert forall|f: FileContent|
                files_below(inner@, lies_at(base, name@, style), style, inner@.len()).contains(
                    f,
                ) implies #[trigger] files_below(entries, base, style, entries.len()).contains(f) by {
                entry_is_among(entries, base, style, entries.len(), i, f);
            }
        },
        _ => {},
    }
}

/// Nothing else is taken along: whatever is taken is a file of the directory, or
/// lies in a directory there.
pub proof fn only_files_are_taken(
    entries: Seq<DirEntry>,
    base: Seq<char>,
    style: PathStyle,
    n: nat,
    f: FileContent,
) -> (i: int)
    requires
        n <= entries.len(),
        files_below(entries, base, style, n).contains(f),
    ensures
        0 <= i < n,
        match entries[i] {
            DirEntry::File { name: Some(name), data: Some(data) } => f == (FileContent {
                name: lies_at(base, name@, style),
                data: data@,
            }),
            DirEntry::Dir { name: Some(name), entries: Some(inner) } => files_below(
                inner@,
                lies_at(base, name@, style),
                style,
                inner@.len(),
            ).contains(f),
            _ => false,
        },
    decreases n,
{
    let all = files_below(entries, base, style, n);
    if n == 0 {
        assert(all.len() == 0);
        0
    } else {
        let earlier = files_below(entries, base, style, (n - 1) as nat);
        let last = files_of(entries[n - 1], base, style);
        assert(all == earlier + last);
        let k = choose|k: int| 0 <= k < all.len() && all[k] == f;
        if k < earlier.len() {
            assert(earlier[k] == f);
            only_files_are_taken(entries, base, style, (n - 1) as nat, f)
        } else {
            assert(last[k - earlier.len()] == f);
            match entries[n - 1] {
                DirEntry::File { name: Some(name), data: Some(_) } => {
                    lies_where_joined(base, name@, style);
                },
                DirEntry::Dir { name: Some(name), entries: Some(_) } => {
                    lies_where_joined(base, name@, style);
                },
                _ => {},
            }
            n - 1
        }
    }
}

/// Files are taken in the order in which they are listed, each once.
pub proof fn files_keep_their_order(
    entries: Seq<DirEntry>,
    base: Seq<char>,
    style: PathStyle,
    n: nat,
)
    requires
        n <= entries.len(),
        forall|i: int|
            0 <= i < entries.len() ==> ((#[trigger] entries[i]) matches DirEntry::File {
                name: Some(_),
                data: Some(_),
            }),
    ensures
        files_below(entries, base, style, n).len() == n,
        forall|i: int|
            0 <= i < n ==> (#[trigger] files_below(entries, base, style, n)[i]).data
                == entries[i]->File_data->0@,
    decreases n,
{
    if n > 0 {
        let earlier = files_below(entries, base, style, (n - 1) as nat);
        let last = files_of(entries[n - 1], base, style);
        files_keep_their_order(entries, base, style, (n - 1) as nat);
        assert(entries[n - 1] matches DirEntry::File { name: Some(_), data: Some(_) });
        assert(last.len() == 1 && last[0].data == entries[n - 1]->File_data->0@);
        assert(files_below(entries, base, style, n) == earlier + last);
    }
}

/// A log that goes along: a file named something and `.log`, with bytes in it.
pub open spec fn worth_taking(entry: LogEntry) -> bool {
    &&& entry.is_file
    &&& entry.name@.len() > 4
    &&& entry.name@.subrange(entry.name@.len() - 4, entry.name@.len() as int) == ".log"@
    &&& entry.data is Some && entry.data->0@.len() > 0
}

/// Whether `f` is what is taken of a log: its bytes, under its name in
/// `mcp_stderr`.
pub open spec fn is_taken_of(f: FileContent, entry: LogEntry) -> bool {
    &&& worth_taking(entry)
    &&& f.name == "mcp_stderr/"@ + entry.name@
    &&& f.data == entry.data->0@
}

proof fn worth_is_what_counts(entry: LogEntry)
    ensures
        worth_taking(entry) == crate::session_files::is_taken(entry),
{
    reveal_strlit(".log");
    let name = entry.name@;
    if name.len() >= 4 {
        assert(name.skip(name.len() - 4) =~= name.subrange(name.len() - 4, name.len() as int));
    }
}

/// The logs of MCP servers that are worth it are taken along.
pub proof fn logs_worth_it_are_taken(entries: Seq<LogEntry>, n: nat, i: int) -> (k: int)
    requires
        0 <= i < n <= entries.len(),
        worth_taking(entries[i]),
    ensures
        0 <= k < logs_taken(entries, n).len(),
        is_taken_of(logs_taken(entries, n)[k], entries[i]),
    decreases n,
{
    worth_is_what_counts(entries[n - 1]);
    if i < n - 1 {
        logs_worth_it_are_taken(entries, (n - 1) as nat, i)
    } else {
        logs_taken(entries, n).len() - 1
    }
}

/// No other logs are taken along.
pub proof fn no_other_logs_are_taken(entries: Seq<LogEntry>, n: nat, k: int) -> (i: int)
    requires
        n <= entries.len(),
        0 <= k < logs_taken(entries, n).len(),
    ensures
        0 <= i < n,
        is_taken_of(logs_taken(entries, n)[k], entries[i]),
    decreases n,
{
    if n == 0 {
        0
    } else {
        worth_is_what_counts(entries[n - 1]);
        if k < logs_taken(entries, (n - 1) as nat).len() {
            no_other_logs_are_taken(entries, (n - 1) as nat, k)
        } else {
            n - 1
        }
    }
}

/// The archive of a session is its files and behind them the logs; without a
/// directory it is empty, logs or not.
pub proof fn archive_is_files_and_logs(
    entries: Vec<DirEntry>,
    logs: Seq<LogEntry>,
    style: PathStyle,
    f: FileContent,
)
    ensures
        archived(None, logs, style).len() == 0,
        archived(Some(entries), logs, style).contains(f) <==> files_below(
            entries@,
            Seq::empty(),
            style,
            entries@.len(),
        ).contains(f) || logs_taken(logs, logs.len()).contains(f),
{
    reveal_strlit("");
    assert(""@ =~= Seq::<char>::empty());
    let files = files_below(entries@, Seq::empty(), style, entries@.len());
    let taken = logs_taken(logs, logs.len());
    let all = archived(Some(entries), logs, style);
    assert(all == files + taken);
    if files.contains(f) {
        let k = choose|k: int| 0 <= k < files.len() && files[k] == f;
        assert(all[k] == f);
    }
    if taken.contains(f) {
        let k = choose|k: int| 0 <= k < taken.len() && taken[k] == f;
        assert(all[files.len() + k] == f);
    }
    if all.contains(f) {
        let k = choose|k: int| 0 <= k < all.len() && all[k] == f;
        if k < files.len() {
            assert(files[k] == f);
        } else {
            assert(taken[k - files.len()] == f);
        }
    }
}

// Where an id counts as taken.

/// Whether an entry shows that the id stands in it.
pub open spec fn shows_id(entry: Result<CwdProbe, IoError>, strict: bool) -> bool {
    &&& entry is Ok
    &&& entry->Ok_0.is_dir
    &&& strict || !entry->Ok_0.is_symlink
    &&& entry->Ok_0.holds_id == Ok::<bool, IoError>(true)
}

/// Whether an entry could be asked.
pub open spec fn could_be_asked(entry: Result<CwdProbe, IoError>, strict: bool) -> bool {
    entry is Ok && (strict && entry->Ok_0.is_dir ==> entry->Ok_0.holds_id is Ok)
}

proof fn taken_if_shown(entries: Seq<Result<CwdProbe, IoError>>, from: int, strict: bool)
    requires
        0 <= from,
        forall|i: int|
            0 <= i < entries.len() ==> could_be_asked(#[trigger] entries[i], strict),
    ensures
        taken_from(entries, from, strict) == Ok::<bool, IoError>(
            exists|i: int| from <= i < entries.len() && shows_id(#[trigger] entries[i], strict),
        ),
    decreases entries.len() - from,
{
    if from < entries.len() {
        assert(could_be_asked(entries[from], strict));
        taken_if_shown(entries, from + 1, strict);
    }
}

/// Where all can be asked, an id is taken if and only if something of it stands
/// in a directory of the sessions root. To creation and import a link is no
/// directory, and what cannot be asked inside one is free; a fork asks links
/// too.
pub proof fn id_is_taken_where_it_stands(
    entries: Vec<Result<CwdProbe, IoError>>,
    strict: bool,
)
    requires
        forall|i: int|
            0 <= i < entries@.len() ==> could_be_asked(#[trigger] entries@[i], strict),
    ensures
        namespace_taken(Ok(entries), strict) == Ok::<bool, IoError>(
            exists|i: int| 0 <= i < entries@.len() && shows_id(#[trigger] entries@[i], strict),
        ),
{
    taken_if_shown(entries@, 0, strict);
}

proof fn first_obstacle_from(
    entries: Seq<Result<CwdProbe, IoError>>,
    from: int,
    at: int,
    strict: bool,
)
    requires
        0 <= from <= at < entries.len(),
        forall|i: int|
            0 <= i < at ==> could_be_asked(#[trigger] entries[i], strict) && !shows_id(
                entries[i],
                strict,
            ),
        !could_be_asked(entries[at], strict),
    ensures
        taken_from(entries, from, strict) == Err::<bool, IoError>(
            if entries[at] is Err {
                entries[at]->Err_0
            } else {
                entries[at]->Ok_0.holds_id->Err_0
            },
        ),
    decreases at - from,
{
    if from < at {
        assert(could_be_asked(entries[from], strict) && !shows_id(entries[from], strict));
        first_obstacle_from(entries, from + 1, at, strict);
    }
}

/// The first place that cannot be asked, where the id was not found before, is
/// a failure, and it is the one that is told. A missing root holds nothing, and
/// any other failure to list it is told.
pub proof fn unasked_place_is_a_failure(
    entries: Vec<Result<CwdProbe, IoError>>,
    at: int,
    strict: bool,
    e: IoError,
)
    requires
        0 <= at < entries@.len(),
        forall|i: int|
            0 <= i < at ==> could_be_asked(#[trigger] entries@[i], strict) && !shows_id(
                entries@[i],
                strict,
            ),
        !could_be_asked(entries@[at], strict),
    ensures
        namespace_taken(Ok(entries), strict) == Err::<bool, IoError>(
            if entries@[at] is Err {
                entries@[at]->Err_0
            } else {
                entries@[at]->Ok_0.holds_id->Err_0
            },
        ),
        namespace_taken(Err(e), strict) == if e.kind == ErrorKind::NotFound {
            Ok(false)
        } else {
            Err(e)
        },
{
    first_obstacle_from(entries@, 0, at, strict);
}

/// Only what is certainly an abandoned stage of the session is removed: it and
/// the session in it belong to their owner alone, and it holds nothing but that
/// session and a `.cwd` file that opens.
pub proof fn only_private_stages_are_reclaimed(probe: ContainerProbe, id: Seq<char>, i: int)
    requires
        reclaimable(probe, id),
    ensures
        probe.private,
        probe.session_private != Some(false),
        probe.session_private is None ==> probe.name@ == stage_container_name(id),
        probe.children is Some,
        0 <= i < probe.children->0@.len() ==> {
            let name = probe.children->0@[i]@;
            &&& name == id || name == ".cwd"@
            &&& name == id ==> probe.session_private is Some
            &&& name == ".cwd"@ ==> probe.cwd_file_opens
        },
{
    if 0 <= i < probe.children->0@.len() {
        let children = probe.children->0@;
        if children[i]@ == id {
            assert(lists(children, id));
        }
        if children[i]@ == ".cwd"@ {
            assert(lists(children, ".cwd"@));
        }
    }
}

/// An abandoned stage is removed: one that holds the private session and at most
/// a `.cwd` beside it, and an empty one under the name that is the session's.
pub proof fn abandoned_stage_is_reclaimed(probe: ContainerProbe, id: Seq<char>)
    requires
        probe.private,
        probe.session_private == Some(true) || (probe.session_private is None && probe.name@
            == stage_container_name(id)),
        probe.children is Some,
        forall|i: int|
            0 <= i < probe.children->0@.len() ==> {
                let name = (#[trigger] probe.children->0@[i])@;
                ||| name == id && probe.session_private is Some
                ||| name == ".cwd"@ && name != id && probe.cwd_file_opens
            },
        id != ".cwd"@,
    ensures
        reclaimable(probe, id),
{
    let children = probe.children->0@;
    if lists(children, id) {
        let i = choose|i: int| 0 <= i < children.len() && (#[trigger] children[i])@ == id;
        assert(probe.session_private is Some);
    }
    if lists(children, ".cwd"@) {
        let i = choose|i: int| 0 <= i < children.len() && (#[trigger] children[i])@ == ".cwd"@;
        assert(probe.cwd_file_opens);
    }
}

// Titles.

/// A character of no width or only width, as Unicode has them.
pub open spec fn white(c: char) -> bool {
    let v = c as u32;
    ||| v == 9 || v == 10 || v == 11 || v == 12 || v == 13 || v == 32
    ||| v == 133 || v == 160 || v == 5760
    ||| 8192 <= v <= 8202
    ||| v == 8232 || v == 8233 || v == 8239 || v == 8287 || v == 12288
}

pub open spec fn all_white(s: Seq<char>) -> bool {
    forall|i: int| 0 <= i < s.len() ==> white(#[trigger] s[i])
}

proof fn leading_of_white(whites: Seq<char>, rest: Seq<char>)
    requires
        all_white(whites),
        rest.len() > 0 ==> !white(rest[0]),
    ensures
        leading_white(whites + rest) == whites.len(),
    decreases whites.len(),
{
    if whites.len() == 0 {
        assert(whites + rest =~= rest);
    } else {
        assert(white(whites[0]));
        assert((whites + rest).skip(1) =~= whites.skip(1) + rest);
        assert forall|i: int| 0 <= i < whites.skip(1).len() implies white(
            #[trigger] whites.skip(1)[i],
        ) by {
            assert(white(whites[i + 1]));
        }
        leading_of_white(whites.skip(1), rest);
    }
}

proof fn trailing_of_white(rest: Seq<char>, whites: Seq<char>)
    requires
        all_white(whites),
        rest.len() > 0 ==> !white(rest.last()),
    ensures
        trailing_white(rest + whites) == whites.len(),
    decreases whites.len(),
{
    if whites.len() == 0 {
        assert(rest + whites =~= rest);
    } else {
        assert(white(whites[whites.len() - 1]));
        assert((rest + whites).drop_last() =~= rest + whites.drop_last());
        trailing_of_white(rest, whites.drop_last());
    }
}

/// Trimming takes away the white space around a text, all of it and nothing
/// else.
pub proof fn trimming_cuts_white_space(before: Seq<char>, core: Seq<char>, after: Seq<char>)
    requires
        all_white(before),
        all_white(after),
        core.len() > 0 ==> !white(core[0]) && !white(core.last()),
        core.len() == 0 ==> after.len() == 0,
    ensures
        trimmed(before + core + after) == core,
{
    let rest = core + after;
    assert(before + core + after =~= before + rest);
    leading_of_white(before, rest);
    assert((before + rest).skip(before.len() as int) =~= rest);
    if core.len() > 0 {
        trailing_of_white(core, after);
        assert(rest.take(core.len() as int) =~= core);
    } else {
        assert(rest =~= seq![]);
        assert(rest.take(0) =~= core);
    }
}

/// A session is shown under its title without the white space around it; one
/// whose title is missing or blank is shown under its first words.
pub proof fn session_is_shown_under_its_title(
    s: Summary,
    before: Seq<char>,
    core: Seq<char>,
    after: Seq<char>,
)
    requires
        all_white(before) && all_white(after),
        core.len() > 0 && !white(core[0]) && !white(core.last()),
    ensures
        s.generated_title is None ==> title_text(s) == s.session_summary@,
        s.generated_title is Some && s.generated_title->0@ == before + core + after ==> title_text(
            s,
        ) == core,
        s.generated_title is Some && s.generated_title->0@ == before ==> title_text(s)
            == s.session_summary@,
{
    trimming_cuts_white_space(before, core, after);
    trimming_cuts_white_space(before, seq![], seq![]);
    assert(before + seq![] + seq![] =~= before);
}

/// Listings leave a session out as it says itself; where it says nothing, they
/// leave out those of subagents.
pub proof fn subagents_are_left_out(s: Summary)
    ensures
        s.hidden matches Some(hidden) ==> s.hidden_from_listings() == hidden,
        s.hidden is None && s.session_kind is None ==> !s.hidden_from_listings(),
        s.hidden is None && s.session_kind is Some ==> (s.hidden_from_listings() <==> {
            &&& s.session_kind->0@.len() >= 8
            &&& s.session_kind->0@.subrange(0, 8) == "subagent"@
        }),
{
    reveal_strlit("subagent");
    if s.session_kind is Some && s.session_kind->0@.len() >= 8 {
        assert(s.session_kind->0@.subrange(0, 8) =~= s.session_kind->0@.take(8));
    }
}

} // verus!
