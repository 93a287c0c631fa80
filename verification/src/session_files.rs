//! The files of a session as they go into an archive.

use vstd::prelude::*;
use vstd::string::*;

use crate::naming::PathStyle;
use crate::text::{decimal, decimal_text, has_suffix, owned, strip_suffix};

verus! {

/// A file taken into memory, by its name relative to the session.
#[derive(Debug, Clone)]
pub struct CopiedSessionFile {
    pub name: String,
    pub data: Vec<u8>,
}

/// All files of a session.
#[derive(Debug, Clone)]
pub struct SessionStateCopy {
    pub files: Vec<CopiedSessionFile>,
}

/// What a file comes down to.
#[verifier::ext_equal]
pub struct FileContent {
    pub name: Seq<char>,
    pub data: Seq<u8>,
}

impl View for CopiedSessionFile {
    type V = FileContent;

    open spec fn view(&self) -> FileContent {
        FileContent { name: self.name@, data: self.data@ }
    }
}

pub open spec fn contents(files: Seq<CopiedSessionFile>) -> Seq<FileContent> {
    files.map_values(|f: CopiedSessionFile| f@)
}

/// An entry of a directory. A name that is no text is not given, nor what
/// cannot be read.
#[derive(Debug)]
pub enum DirEntry {
    File { name: Option<String>, data: Option<Vec<u8>> },
    Dir { name: Option<String>, entries: Option<Vec<DirEntry>> },
    Other,
}

/// The path of `name` below `base`; at the top `base` is empty.
pub open spec fn path_below(base: Seq<char>, name: Seq<char>, style: PathStyle) -> Seq<char> {
    if base.len() == 0 {
        name
    } else {
        base + style.joint() + name
    }
}

/// The files of an entry that lies below `base`, at any depth.
pub open spec fn files_of(entry: DirEntry, base: Seq<char>, style: PathStyle) -> Seq<FileContent>
    decreases entry, 0nat,
{
    match entry {
        DirEntry::File { name: Some(name), data: Some(data) } => seq![
            FileContent { name: path_below(base, name@, style), data: data@ },
        ],
        DirEntry::Dir { name: Some(name), entries: Some(entries) } => files_below(
            entries@,
            path_below(base, name@, style),
            style,
            entries@.len(),
        ),
        _ => seq![],
    }
}

/// The files of the first `n` entries of a directory that lies at `base`.
pub open spec fn files_below(
    entries: Seq<DirEntry>,
    base: Seq<char>,
    style: PathStyle,
    n: nat,
) -> Seq<FileContent>
    decreases entries, n,
{
    if n == 0 || n > entries.len() {
        seq![]
    } else {
        files_below(entries, base, style, (n - 1) as nat) + files_of(entries[n - 1], base, style)
    }
}

fn join(base: &str, name: &str, style: PathStyle) -> (r: String)
    ensures
        r@ == path_below(base@, name@, style),
{
    if base.unicode_len() == 0 {
        owned(name)
    } else {
        let mut path = owned(base);
        path.append(style.separator());
        path.append(name);
        path
    }
}

/// Takes all files below a directory, in the order in which they are listed.
/// Their names are relative to where the walk began.
pub fn collect_session_files_recursive(
    entries: &Vec<DirEntry>,
    base: &str,
    style: PathStyle,
    files: &mut Vec<CopiedSessionFile>,
)
    ensures
        contents(final(files)@) == contents(old(files)@) + files_below(
            entries@,
            base@,
            style,
            entries@.len(),
        ),
    decreases entries,
{
    let mut i: usize = 0;
    assert(contents(files@) =~= contents(files@) + files_below(entries@, base@, style, 0));
    while i < entries.len()
        invariant
            i <= entries.len(),
            contents(files@) == contents(old(files)@) + files_below(entries@, base@, style, i as nat),
        decreases entries.len() - i,
    {
        let ghost was = files@;
        match &entries[i] {
            DirEntry::File { name: Some(name), data: Some(data) } => {
                let file = CopiedSessionFile {
                    name: join(base, name.as_str(), style),
                    data: data.clone(),
                };
                files.push(file);
                proof {
                    assert(file.data@ =~= data@);
                    assert(contents(files@) =~= contents(was).push(file@));
                    assert(files_of(entries@[i as int], base@, style) =~= seq![file@]);
                }
            },
            DirEntry::Dir { name: Some(name), entries: Some(inner) } => {
                let path = join(base, name.as_str(), style);
                assert(decreases_to!(entries => entries@[i as int]));
                collect_session_files_recursive(inner, path.as_str(), style, files);
            },
            _ => {},
        }
        proof {
            let here = files_of(entries@[i as int], base@, style);
            assert(contents(files@) =~= contents(was) + here);
            assert(files_below(entries@, base@, style, (i + 1) as nat) == files_below(
                entries@,
                base@,
                style,
                i as nat,
            ) + here);
            assert(contents(files@) =~= contents(old(files)@) + files_below(
                entries@,
                base@,
                style,
                (i + 1) as nat,
            ));
        }
        i = i + 1;
    }
}

/// An entry of the directory that MCP servers log to.
#[derive(Debug)]
pub struct LogEntry {
    pub name: String,
    pub is_file: bool,
    pub data: Option<Vec<u8>>,
}

/// Whether a log goes into the archive: a file with the ending `.log` after
/// some name, that can be read and is not empty.
pub open spec fn is_taken(entry: LogEntry) -> bool {
    &&& entry.is_file
    &&& has_suffix(entry.name@, ".log"@)
    &&& entry.name@.len() > 4
    &&& entry.data is Some
    &&& entry.data->0@.len() > 0
}

/// The logs among the first `n` entries that go into the archive.
pub open spec fn logs_taken(entries: Seq<LogEntry>, n: nat) -> Seq<FileContent>
    decreases n,
{
    if n == 0 {
        seq![]
    } else {
        let earlier = logs_taken(entries, (n - 1) as nat);
        if is_taken(entries[n - 1]) {
            earlier.push(
                FileContent {
                    name: "mcp_stderr/"@ + entries[n - 1].name@,
                    data: entries[n - 1].data->0@,
                },
            )
        } else {
            earlier
        }
    }
}

/// Takes the logs of MCP servers, in the order in which they are listed.
pub fn collect_mcp_stderr_logs(entries: &Vec<LogEntry>, files: &mut Vec<CopiedSessionFile>)
    ensures
        contents(final(files)@) == contents(old(files)@) + logs_taken(entries@, entries@.len()),
{
    let mut i: usize = 0;
    assert(contents(files@) =~= contents(files@) + logs_taken(entries@, 0));
    while i < entries.len()
        invariant
            i <= entries.len(),
            contents(files@) == contents(old(files)@) + logs_taken(entries@, i as nat),
        decreases entries.len() - i,
    {
        let ghost was = files@;
        let entry = &entries[i];
        if entry.is_file && strip_suffix(entry.name.as_str(), ".log").is_some()
            && entry.name.as_str().unicode_len() > 4 {
            if let Some(data) = &entry.data {
                if data.len() > 0 {
                    let mut name = owned("mcp_stderr/");
                    name.append(entry.name.as_str());
                    let file = CopiedSessionFile { name, data: data.clone() };
                    files.push(file);
                    proof {
                        assert(file.data@ =~= data@);
                        assert(contents(files@) =~= contents(was).push(file@));
                    }
                }
            }
        }
        proof {
            assert(contents(files@) =~= contents(old(files)@) + logs_taken(
                entries@,
                (i + 1) as nat,
            ));
        }
        i = i + 1;
    }
}

/// The archive of a session: its own files, then the logs of MCP servers. A
/// session without a directory has an empty archive.
pub open spec fn archived(
    session: Option<Vec<DirEntry>>,
    logs: Seq<LogEntry>,
    style: PathStyle,
) -> Seq<FileContent> {
    match session {
        Some(entries) => files_below(entries@, ""@, style, entries@.len()) + logs_taken(
            logs,
            logs.len(),
        ),
        None => seq![],
    }
}

/// Takes a session into memory, given what its directory holds, if it has one.
pub fn copy_session_dir_to_memory(
    session: &Option<Vec<DirEntry>>,
    logs: &Vec<LogEntry>,
    style: PathStyle,
) -> (r: SessionStateCopy)
    ensures
        contents(r.files@) == archived(*session, logs@, style),
{
    let mut files: Vec<CopiedSessionFile> = Vec::new();
    assert(contents(files@) =~= seq![]);
    if let Some(entries) = session {
        collect_session_files_recursive(entries, "", style, &mut files);
        collect_mcp_stderr_logs(logs, &mut files);
        assert(contents(files@) =~= archived(*session, logs@, style));
    }
    SessionStateCopy { files }
}

/// The file that keeps a large prompt of a session: the name of its directory
/// below that of the session, and its own.
pub fn get_prompt_file_path(prompt_index: u64) -> (r: (String, String))
    ensures
        r.0@ == "prompts"@,
        r.1@ == "prompt_"@ + decimal_text(prompt_index as nat) + ".txt"@,
{
    let mut name = owned("prompt_");
    name.append(decimal(prompt_index).as_str());
    name.append(".txt");
    (owned("prompts"), name)
}

} // verus!
