//! Names of locks, stages and directories derived from session ids and
//! working directories.

use vstd::prelude::*;
use vstd::string::*;
use vstd::utf8::encode_utf8;

use sha2::Digest;

use crate::io_error::{ErrorKind, IoError};
use crate::text::{before, owned, same_text, text_before, text_order};

verus! {

/// The file that keeps a freshly created session out of every discovery path
/// until its publication commits.
pub const UNPUBLISHED_SESSION_MARKER: &'static str = ".unpublished";

/// The SHA-256 digest of bytes.
pub uninterp spec fn sha256(bytes: Seq<u8>) -> Seq<u8>;

/// `sha2::Sha256::digest`: the digest is a function of the bytes and has 32
/// bytes.
#[verifier::external_body]
fn sha256_digest(bytes: &[u8]) -> (r: Vec<u8>)
    ensures
        r@ == sha256(bytes@),
        r@.len() == 32,
{
    sha2::Sha256::digest(bytes).to_vec()
}

/// The lower-case hexadecimal digit of a value below 16.
pub open spec fn hex_digit(v: int) -> char {
    if v < 10 {
        (48 + v) as char
    } else {
        (87 + v) as char
    }
}

/// Bytes in lower-case hexadecimal, two digits each.
pub open spec fn hex(bytes: Seq<u8>) -> Seq<char>
    decreases bytes.len(),
{
    if bytes.len() == 0 {
        Seq::empty()
    } else {
        hex(bytes.drop_last()) + seq![
            hex_digit(bytes.last() as int / 16),
            hex_digit(bytes.last() as int % 16),
        ]
    }
}

fn lower_hex_digit(v: u8) -> (r: char)
    requires
        v < 16,
    ensures
        r == hex_digit(v as int),
{
    if v < 10 {
        (48 + v) as char
    } else {
        (87 + v) as char
    }
}

fn to_hex(bytes: &Vec<u8>) -> (r: String)
    ensures
        r@ == hex(bytes@),
{
    let mut out = String::new();
    let mut i: usize = 0;
    assert(bytes@.take(0) =~= Seq::<u8>::empty());
    while i < bytes.len()
        invariant
            i <= bytes@.len(),
            out@ == hex(bytes@.take(i as int)),
        decreases bytes@.len() - i,
    {
        let b: u8 = bytes[i];
        let ghost next = bytes@.take(i as int + 1);
        assert(next.drop_last() =~= bytes@.take(i as int));
        assert(next.last() == b);
        let ghost done = out@;
        out.push(lower_hex_digit(b / 16));
        out.push(lower_hex_digit(b % 16));
        assert(out@ =~= done + seq![hex_digit(b as int / 16), hex_digit(b as int % 16)]);
        i += 1;
    }
    assert(bytes@.take(i as int) =~= bytes@);
    out
}

/// What every lock and stage name of a session begins with: the hexadecimal
/// digest of its id.
pub open spec fn lock_stem(session_id: Seq<char>) -> Seq<char> {
    hex(sha256(encode_utf8(session_id)))
}

pub open spec fn stage_container_name(session_id: Seq<char>) -> Seq<char> {
    "session-"@ + lock_stem(session_id)
}

pub open spec fn namespace_lock_name(session_id: Seq<char>) -> Seq<char> {
    lock_stem(session_id) + ".namespace.lock"@
}

pub open spec fn mutation_lock_name(session_id: Seq<char>) -> Seq<char> {
    lock_stem(session_id) + ".mutation.lock"@
}

/// The names that are made of the digest of a session id.
#[derive(Debug)]
pub struct SessionNames {
    pub stem: String,
    pub stage_container: String,
    pub namespace_lock: String,
    pub mutation_lock: String,
}

/// The names for a session id whose digest is given.
pub fn session_names(digest: &Vec<u8>) -> (r: SessionNames)
    ensures
        r.stem@ == hex(digest@),
        r.stage_container@ == "session-"@ + hex(digest@),
        r.namespace_lock@ == hex(digest@) + ".namespace.lock"@,
        r.mutation_lock@ == hex(digest@) + ".mutation.lock"@,
{
    let stem = to_hex(digest);
    let mut stage_container = owned("session-");
    stage_container.append(stem.as_str());
    let mut namespace_lock = stem.clone();
    namespace_lock.append(".namespace.lock");
    let mut mutation_lock = stem.clone();
    mutation_lock.append(".mutation.lock");
    SessionNames { stem, stage_container, namespace_lock, mutation_lock }
}

pub fn session_claim_lock_stem(session_id: &str) -> (r: String)
    ensures
        r@ == lock_stem(session_id@),
{
    session_names(&sha256_digest(session_id.as_bytes())).stem
}

/// The private directory in which the session is staged.
pub fn session_stage_container_name(session_id: &str) -> (r: String)
    ensures
        r@ == stage_container_name(session_id@),
{
    session_names(&sha256_digest(session_id.as_bytes())).stage_container
}

/// The lock file of the session's place in the namespace.
pub fn session_claim_lock_name(session_id: &str) -> (r: String)
    ensures
        r@ == namespace_lock_name(session_id@),
{
    session_names(&sha256_digest(session_id.as_bytes())).namespace_lock
}

/// The lock file of the session's content.
pub fn session_mutation_lock_name(session_id: &str) -> (r: String)
    ensures
        r@ == mutation_lock_name(session_id@),
{
    session_names(&sha256_digest(session_id.as_bytes())).mutation_lock
}

/// The bytes that percent-encoding leaves alone.
pub open spec fn unreserved(b: u8) -> bool {
    ||| 48 <= b <= 57
    ||| 65 <= b <= 90
    ||| 97 <= b <= 122
    ||| b == 45
    ||| b == 46
    ||| b == 95
    ||| b == 126
}

/// The upper-case hexadecimal digit of a value below 16.
pub open spec fn upper_hex_digit(v: int) -> char {
    if v < 10 {
        (48 + v) as char
    } else {
        (55 + v) as char
    }
}

/// Percent-encoding: letters, digits, `-`, `_`, `.` and `~` stay, every other
/// byte becomes `%` and its two upper-case hexadecimal digits.
pub open spec fn percent_encoded(bytes: Seq<u8>) -> Seq<char>
    decreases bytes.len(),
{
    if bytes.len() == 0 {
        Seq::empty()
    } else {
        let b = bytes.last();
        percent_encoded(bytes.drop_last()) + if unreserved(b) {
            seq![b as char]
        } else {
            seq!['%', upper_hex_digit(b as int / 16), upper_hex_digit(b as int % 16)]
        }
    }
}

/// `urlencoding::encode`: percent-encodes every byte of the text's UTF-8 form
/// but letters, digits, `-`, `_`, `.` and `~`.
#[verifier::external_body]
fn url_encode(s: &str) -> (r: String)
    ensures
        r@ == percent_encoded(encode_utf8(s@)),
{
    urlencoding::encode(s).into_owned()
}

/// Whether a cwd directory needs a `.cwd` file: its name is not the plain
/// encoding of the working directory, so the name alone does not tell it.
pub open spec fn needs_cwd_file(encoded_parent: Seq<char>, cwd: Seq<char>) -> bool {
    encoded_parent != percent_encoded(encode_utf8(cwd))
}

pub fn needs_cwd_metadata(encoded_parent: &str, cwd: &str) -> (r: bool)
    ensures
        r == needs_cwd_file(encoded_parent@, cwd@),
{
    let plain = url_encode(cwd);
    !same_text(encoded_parent, plain.as_str())
}

/// Whether the content of a `.cwd` file is exactly the working directory.
pub fn cwd_metadata_matches(bytes: &Vec<u8>, cwd: &str) -> (r: bool)
    ensures
        r == (bytes@ == encode_utf8(cwd@)),
{
    let want = cwd.as_bytes();
    if bytes.len() != want.len() {
        return false;
    }
    let mut i: usize = 0;
    while i < bytes.len()
        invariant
            want@ == encode_utf8(cwd@),
            bytes@.len() == want@.len(),
            i <= bytes@.len(),
            forall|j: int| 0 <= j < i ==> bytes@[j] == want@[j],
        decreases bytes@.len() - i,
    {
        if bytes[i] != want[i] {
            return false;
        }
        i += 1;
    }
    assert(bytes@ =~= want@);
    true
}

/// How a platform writes paths.
#[derive(Debug, Clone, Copy, PartialEq, Eq, Structural)]
pub enum PathStyle {
    /// Only `/` separates.
    Posix,
    /// Both `\` and `/` separate, and a path can begin with a drive.
    Windows,
}

impl PathStyle {
    /// Whether a character separates the components of a path.
    pub open spec fn separates(self, c: char) -> bool {
        c == '/' || (self == PathStyle::Windows && c == '\\')
    }

    /// What stands between two components where they are joined.
    pub open spec fn joint(self) -> Seq<char> {
        match self {
            PathStyle::Posix => "/"@,
            PathStyle::Windows => "\\"@,
        }
    }

    pub fn is_separator(self, c: char) -> (r: bool)
        ensures
            r == self.separates(c),
    {
        match self {
            PathStyle::Posix => c == '/',
            PathStyle::Windows => c == '/' || c == '\\',
        }
    }

    pub fn separator(self) -> (r: &'static str)
        ensures
            r@ == self.joint(),
    {
        match self {
            PathStyle::Posix => "/",
            PathStyle::Windows => "\\",
        }
    }
}

/// Whether a text begins with a letter and a colon, as a drive is written.
pub open spec fn begins_with_drive(s: Seq<char>) -> bool {
    &&& s.len() >= 2
    &&& 'a' <= s[0] <= 'z' || 'A' <= s[0] <= 'Z'
    &&& s[1] == ':'
}

/// Whether a session id is a single component of a path that names something:
/// not empty, without a separator, neither `.` nor `..`, and without a drive
/// where the platform has drives.
pub open spec fn single_component(id: Seq<char>, style: PathStyle) -> bool {
    &&& id.len() > 0
    &&& forall|i: int| 0 <= i < id.len() ==> !style.separates(#[trigger] id[i])
    &&& id != "."@
    &&& id != ".."@
    &&& !(style == PathStyle::Windows && begins_with_drive(id))
}

fn has_drive(s: &str) -> (r: bool)
    ensures
        r == begins_with_drive(s@),
{
    if s.unicode_len() < 2 {
        return false;
    }
    let c = s.get_char(0);
    (('a' <= c && c <= 'z') || ('A' <= c && c <= 'Z')) && s.get_char(1) == ':'
}

/// Accepts a session id that is a single path component.
pub fn validate_session_path_component(session_id: &str, style: PathStyle) -> (r: Result<
    (),
    IoError,
>)
    ensures
        r is Ok <==> single_component(session_id@, style),
        r matches Err(e) ==> e.says(
            ErrorKind::InvalidInput,
            "session id must be a single path component"@,
        ),
{
    let n: usize = session_id.unicode_len();
    let mut separated = false;
    let mut i: usize = 0;
    while i < n
        invariant
            n == session_id@.len(),
            i <= n,
            separated == (exists|j: int| 0 <= j < i && style.separates(#[trigger] session_id@[j])),
        decreases n - i,
    {
        if style.is_separator(session_id.get_char(i)) {
            separated = true;
        }
        i += 1;
    }
    let drive = match style {
        PathStyle::Posix => false,
        PathStyle::Windows => has_drive(session_id),
    };
    if n > 0 && !separated && !drive && !same_text(session_id, ".") && !same_text(
        session_id,
        "..",
    ) {
        Ok(())
    } else {
        Err(
            IoError::new(
                ErrorKind::InvalidInput,
                "session id must be a single path component",
            ),
        )
    }
}

/// In which order the two locks of a copy are taken.
#[derive(Debug, Clone, Copy, PartialEq, Eq, Structural)]
pub enum CopyLockOrder {
    SourceFirst,
    TargetFirst,
}

/// The order of two locks, given the names of their lock files.
pub open spec fn name_order(source_lock: Seq<char>, target_lock: Seq<char>) -> CopyLockOrder {
    if text_before(source_lock, target_lock) {
        CopyLockOrder::SourceFirst
    } else {
        CopyLockOrder::TargetFirst
    }
}

/// The order of the locks of a copy: that of the names of their lock files.
pub open spec fn copy_order(source_id: Seq<char>, target_id: Seq<char>) -> CopyLockOrder {
    name_order(namespace_lock_name(source_id), namespace_lock_name(target_id))
}

/// The order of two locks, given the names of their lock files.
pub fn lock_order(source_lock: &str, target_lock: &str) -> (r: CopyLockOrder)
    ensures
        r == name_order(source_lock@, target_lock@),
{
    if before(source_lock, target_lock) {
        CopyLockOrder::SourceFirst
    } else {
        CopyLockOrder::TargetFirst
    }
}

/// The session whose lock is taken first.
pub open spec fn first_locked(source_id: Seq<char>, target_id: Seq<char>) -> Seq<char> {
    match copy_order(source_id, target_id) {
        CopyLockOrder::SourceFirst => source_id,
        CopyLockOrder::TargetFirst => target_id,
    }
}

/// The session whose lock is taken second.
pub open spec fn second_locked(source_id: Seq<char>, target_id: Seq<char>) -> Seq<char> {
    match copy_order(source_id, target_id) {
        CopyLockOrder::SourceFirst => target_id,
        CopyLockOrder::TargetFirst => source_id,
    }
}

/// In which order a copy takes its shared source lock and its exclusive target
/// lock; source and target must differ.
pub fn ordered_copy_locks(source_id: &str, target_id: &str) -> (r: Result<CopyLockOrder, IoError>)
    ensures
        r is Ok <==> source_id@ != target_id@,
        r matches Ok(order) ==> order == copy_order(source_id@, target_id@),
        r matches Err(e) ==> e.says(
            ErrorKind::InvalidInput,
            "fork source and target session ids must differ"@,
        ),
{
    if same_text(source_id, target_id) {
        return Err(
            IoError::new(
                ErrorKind::InvalidInput,
                "fork source and target session ids must differ",
            ),
        );
    }
    let source_name = session_claim_lock_name(source_id);
    let target_name = session_claim_lock_name(target_id);
    Ok(lock_order(source_name.as_str(), target_name.as_str()))
}

/// Copies cannot deadlock on each other: every copy takes its locks in
/// ascending order of the lock files' names.
pub proof fn copy_locks_ascend(source_id: Seq<char>, target_id: Seq<char>)
    ensures
        !text_before(
            namespace_lock_name(second_locked(source_id, target_id)),
            namespace_lock_name(first_locked(source_id, target_id)),
        ),
{
    text_order(namespace_lock_name(source_id), namespace_lock_name(target_id));
}

/// Copies in opposite directions take the same lock first, unless both ids
/// share one lock file.
pub proof fn opposite_copies_agree(a: Seq<char>, b: Seq<char>)
    requires
        namespace_lock_name(a) != namespace_lock_name(b),
    ensures
        first_locked(a, b) == first_locked(b, a),
        second_locked(a, b) == second_locked(b, a),
{
    text_order(namespace_lock_name(a), namespace_lock_name(b));
}

/// The namespace lock and the mutation lock of a session are different files.
pub proof fn lock_files_differ(session_id: Seq<char>)
    ensures
        namespace_lock_name(session_id) != mutation_lock_name(session_id),
{
    reveal_strlit(".namespace.lock");
    reveal_strlit(".mutation.lock");
    let stem = lock_stem(session_id);
    assert(namespace_lock_name(session_id).len() == stem.len() + 15);
    assert(mutation_lock_name(session_id).len() == stem.len() + 14);
}

} // verus!
