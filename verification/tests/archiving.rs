use session_persistence::naming::PathStyle;
use session_persistence::session_files::{
    CopiedSessionFile, DirEntry, LogEntry, collect_mcp_stderr_logs,
    collect_session_files_recursive, copy_session_dir_to_memory, get_prompt_file_path,
};

fn file(name: &str, data: &[u8]) -> DirEntry {
    DirEntry::File { name: Some(name.to_string()), data: Some(data.to_vec()) }
}

fn dir(name: &str, entries: Vec<DirEntry>) -> DirEntry {
    DirEntry::Dir { name: Some(name.to_string()), entries: Some(entries) }
}

fn collect(entries: Vec<DirEntry>) -> Vec<CopiedSessionFile> {
    let mut files = Vec::new();
    collect_session_files_recursive(&entries, "", PathStyle::Posix, &mut files);
    files.sort_by(|a, b| a.name.cmp(&b.name));
    files
}

#[test]
fn collects_top_level_files_with_flat_names() {
    let files =
        collect(vec![file("chat_history.jsonl", b"line1\nline2"), file("summary.json", b"{}")]);
    assert_eq!(files.len(), 2);
    assert_eq!(files[0].name, "chat_history.jsonl");
    assert_eq!(files[0].data, b"line1\nline2");
    assert_eq!(files[1].name, "summary.json");
    assert_eq!(files[1].data, b"{}");
}

#[test]
fn collects_subdirectory_files_with_relative_paths() {
    let files = collect(vec![
        dir(
            "prompts",
            vec![
                file("prompt_0.txt", b"long prompt content"),
                file("prompt_1.txt", b"another long prompt"),
            ],
        ),
        file("summary.json", b"{}"),
    ]);
    assert_eq!(files.len(), 3);
    assert_eq!(files[0].name, "prompts/prompt_0.txt");
    assert_eq!(files[0].data, b"long prompt content");
    assert_eq!(files[1].name, "prompts/prompt_1.txt");
    assert_eq!(files[2].name, "summary.json");
}

#[test]
fn collects_nested_subdirectories() {
    let files = collect(vec![
        dir("a", vec![dir("b", vec![file("deep.txt", b"deep")])]),
        file("top.txt", b"top"),
    ]);
    assert_eq!(files.len(), 2);
    assert_eq!(files[0].name, "a/b/deep.txt");
    assert_eq!(files[1].name, "top.txt");
}

#[test]
fn nonexistent_directory_returns_empty() {
    let logs = vec![LogEntry {
        name: "server.log".to_string(),
        is_file: true,
        data: Some(b"x".to_vec()),
    }];
    assert!(copy_session_dir_to_memory(&None, &logs, PathStyle::Posix).files.is_empty());
}

#[test]
fn empty_directory_returns_empty() {
    assert!(collect(Vec::new()).is_empty());
}

#[test]
fn skips_empty_subdirectories() {
    let files = collect(vec![dir("empty_subdir", Vec::new()), file("file.txt", b"data")]);
    assert_eq!(files.len(), 1);
    assert_eq!(files[0].name, "file.txt");
}

#[test]
fn what_cannot_be_read_is_left_out() {
    let files = collect(vec![
        DirEntry::File { name: Some("locked".to_string()), data: None },
        DirEntry::File { name: None, data: Some(b"x".to_vec()) },
        DirEntry::Dir { name: Some("closed".to_string()), entries: None },
        DirEntry::Other,
    ]);
    assert!(files.is_empty());
}

#[test]
fn logs_of_servers_come_last() {
    let log = |name: &str, is_file: bool, data: Option<&[u8]>| LogEntry {
        name: name.to_string(),
        is_file,
        data: data.map(<[u8]>::to_vec),
    };
    let logs = vec![
        log("server.log", true, Some(b"warning")),
        log("empty.log", true, Some(b"")),
        log(".log", true, Some(b"x")),
        log("notes.txt", true, Some(b"x")),
        log("dir.log", false, None),
        log("unreadable.log", true, None),
    ];
    let session = Some(vec![file("summary.json", b"{}")]);
    let archive = copy_session_dir_to_memory(&session, &logs, PathStyle::Posix);
    assert_eq!(archive.files.len(), 2);
    assert_eq!(archive.files[0].name, "summary.json");
    assert_eq!(archive.files[1].name, "mcp_stderr/server.log");
    assert_eq!(archive.files[1].data, b"warning");
    let mut files = Vec::new();
    collect_mcp_stderr_logs(&logs, &mut files);
    assert_eq!(files.len(), 1);
}

#[test]
fn large_prompts_have_numbered_files() {
    let parts = |dir: &str, name: &str| (dir.to_string(), name.to_string());
    assert_eq!(get_prompt_file_path(0), parts("prompts", "prompt_0.txt"));
    assert_eq!(get_prompt_file_path(1207), parts("prompts", "prompt_1207.txt"));
}

#[test]
fn names_are_joined_as_the_platform_writes_paths() {
    let session = Some(vec![dir("a", vec![dir("b", vec![file("c", b"x")])])]);
    let name = |style| copy_session_dir_to_memory(&session, &vec![], style).files[0].name.clone();
    assert_eq!(name(PathStyle::Posix), "a/b/c");
    assert_eq!(name(PathStyle::Windows), "a\\b\\c");
}
