//! What a forked session takes over from its source: its summary, and the chat
//! with the pointers in it bound to the fork's own files.

use vstd::prelude::*;
use vstd::string::*;

use crate::summary::{CHAT_FORMAT_VERSION, Info, Summary};
use crate::text::{copy_opt, has_suffix, owned, same_text, strip_suffix};
use crate::timestamp::Timestamp;

verus! {

/// What to copy into a fork, and what to call it.
#[derive(Debug)]
pub struct CopySessionOptions {
    /// Keep the chat up to this prompt, the prompt included.
    pub target_prompt_index: Option<usize>,
    /// Start a subagent: filter the chat and take no transcript.
    pub fork_filter: bool,
    pub inherited_prefix_len: Option<usize>,
    pub skip_cwd_transform: bool,
    pub copy_compaction_segments: bool,
    pub strip_reasoning: bool,
    pub copy_plan_state: bool,
    pub copy_signals: bool,
    pub copy_plan_mode_state: bool,
    pub copy_tool_state: bool,
    pub copy_announcement_state: bool,
    pub new_model_id: Option<String>,
    pub parent_session_id: Option<String>,
    pub prompt_display_cwd: Option<String>,
    pub session_kind: Option<String>,
    pub fork_context_source: Option<String>,
    pub fork_parent_prompt_id: Option<String>,
    pub source_workspace_dir: Option<String>,
}

/// What a copy has counted.
#[derive(Debug, Clone, Copy, PartialEq, Eq, Structural)]
pub struct ForkCounters {
    pub num_messages: usize,
    pub num_chat_messages: usize,
    pub cwd_switch_bookkeeping_generation: u64,
    pub inherited_prefix_len: Option<usize>,
}

/// When a fork is made, and where on this machine sessions are stored.
#[derive(Debug)]
pub struct ForkStamp {
    pub created_at: Timestamp,
    pub updated_at: Timestamp,
    pub forked_at: Timestamp,
    pub grok_home: Option<String>,
}

/// Whether `r` is the summary of a fork: counters of this copy, identity from
/// the options, and of the source what the fork goes on with. A fork under
/// another model keeps neither the catalog selection nor the agent, and a fork
/// of a part of the chat keeps no summary of the last turn.
pub open spec fn is_fork_summary(
    r: Summary,
    source: Summary,
    target_info: Info,
    options: CopySessionOptions,
    counters: ForkCounters,
    stamp: ForkStamp,
) -> bool {
    &&& match options.session_kind {
        Some(kind) => r.session_kind == Some(kind),
        None => r.session_kind is Some && r.session_kind->0@ == "fork"@,
    }
    &&& r.git_remotes@.len() == 0
    &&& r == Summary {
        info: target_info,
        cwd_generation: source.cwd_generation,
        previous_cwd: source.previous_cwd,
        pending_cwd_switch_reminder: None,
        cwd_switch_bookkeeping_generation: counters.cwd_switch_bookkeeping_generation,
        session_summary: source.session_summary,
        created_at: stamp.created_at,
        updated_at: stamp.updated_at,
        num_messages: counters.num_messages,
        num_chat_messages: counters.num_chat_messages,
        current_model_id: match options.new_model_id {
            Some(model) => model,
            None => source.current_model_id,
        },
        catalog_identity: if options.new_model_id is None {
            source.catalog_identity
        } else {
            None
        },
        parent_session_id: options.parent_session_id,
        forked_at: Some(stamp.forked_at),
        collection_id: None,
        next_trace_turn: 0,
        chat_format_version: CHAT_FORMAT_VERSION,
        prompt_display_cwd: options.prompt_display_cwd,
        session_kind: r.session_kind,
        fork_context_source: options.fork_context_source,
        fork_parent_prompt_id: options.fork_parent_prompt_id,
        inherited_prefix_len: counters.inherited_prefix_len,
        hidden: None,
        source_workspace_dir: options.source_workspace_dir,
        git_root_dir: None,
        git_remotes: r.git_remotes,
        head_commit: source.head_commit,
        head_branch: source.head_branch,
        request_id: None,
        grok_home: stamp.grok_home,
        last_active_at: source.last_active_at,
        generated_title: source.generated_title,
        title_is_manual: source.title_is_manual,
        worktree_label: source.worktree_label,
        agent_name: if options.new_model_id is None {
            source.agent_name
        } else {
            None
        },
        sandbox_profile: source.sandbox_profile,
        reasoning_effort: source.reasoning_effort,
        last_turn_summary: if options.target_prompt_index is Some {
            None
        } else {
            source.last_turn_summary
        },
        last_turn_summary_prompt_id: if options.target_prompt_index is Some {
            None
        } else {
            source.last_turn_summary_prompt_id
        },
    }
}

/// The summary of a fork.
pub fn fork_summary(
    source: Summary,
    target_info: &Info,
    options: &CopySessionOptions,
    counters: ForkCounters,
    stamp: ForkStamp,
) -> (r: Summary)
    ensures
        is_fork_summary(r, source, *target_info, *options, counters, stamp),
{
    let same_model = options.new_model_id.is_none();
    let whole = options.target_prompt_index.is_none();
    Summary {
        info: target_info.clone(),
        cwd_generation: source.cwd_generation,
        previous_cwd: source.previous_cwd,
        pending_cwd_switch_reminder: None,
        cwd_switch_bookkeeping_generation: counters.cwd_switch_bookkeeping_generation,
        session_summary: source.session_summary,
        created_at: stamp.created_at,
        updated_at: stamp.updated_at,
        num_messages: counters.num_messages,
        num_chat_messages: counters.num_chat_messages,
        current_model_id: match &options.new_model_id {
            Some(model) => model.clone(),
            None => source.current_model_id,
        },
        catalog_identity: if same_model {
            source.catalog_identity
        } else {
            None
        },
        parent_session_id: copy_opt(&options.parent_session_id),
        forked_at: Some(stamp.forked_at),
        collection_id: None,
        next_trace_turn: 0,
        chat_format_version: CHAT_FORMAT_VERSION,
        prompt_display_cwd: copy_opt(&options.prompt_display_cwd),
        session_kind: match &options.session_kind {
            Some(kind) => Some(kind.clone()),
            None => Some(owned("fork")),
        },
        fork_context_source: copy_opt(&options.fork_context_source),
        fork_parent_prompt_id: copy_opt(&options.fork_parent_prompt_id),
        inherited_prefix_len: counters.inherited_prefix_len,
        hidden: None,
        source_workspace_dir: copy_opt(&options.source_workspace_dir),
        git_root_dir: None,
        git_remotes: Vec::new(),
        head_commit: source.head_commit,
        head_branch: source.head_branch,
        request_id: None,
        grok_home: stamp.grok_home,
        last_active_at: source.last_active_at,
        generated_title: source.generated_title,
        title_is_manual: source.title_is_manual,
        worktree_label: source.worktree_label,
        agent_name: if same_model {
            source.agent_name
        } else {
            None
        },
        sandbox_profile: source.sandbox_profile,
        reasoning_effort: source.reasoning_effort,
        last_turn_summary: if whole {
            source.last_turn_summary
        } else {
            None
        },
        last_turn_summary_prompt_id: if whole {
            source.last_turn_summary_prompt_id
        } else {
            None
        },
    }
}

/// A fork that is not named otherwise shows in listings, whatever its source
/// was and however it was hidden.
pub proof fn plain_fork_is_listed(
    r: Summary,
    source: Summary,
    target_info: Info,
    options: CopySessionOptions,
    counters: ForkCounters,
    stamp: ForkStamp,
)
    requires
        is_fork_summary(r, source, target_info, options, counters, stamp),
        options.session_kind is None,
    ensures
        !r.hidden_from_listings(),
{
    reveal_strlit("fork");
    reveal_strlit("subagent");
}

// The chat of a fork.

/// A change to the chat on its way into a fork.
#[derive(Debug, Clone, Copy, PartialEq, Eq, Structural)]
pub enum ChatTransform {
    /// Keep what comes before the prompt of this number.
    CutBeforePrompt(usize),
    ForkFilter,
    RewriteCwd,
    /// Bind pointers to the compaction archive to the fork's archive.
    RebindSegments,
    /// Bind pointers to the transcript to the fork's transcript.
    RebindTranscript,
    StripReasoning,
}

pub open spec fn one_if(wanted: bool, transform: ChatTransform) -> Seq<ChatTransform> {
    if wanted {
        seq![transform]
    } else {
        seq![]
    }
}

/// The changes that decide how much of the chat the fork inherits.
pub open spec fn selecting_transforms(options: CopySessionOptions) -> Seq<ChatTransform> {
    (match options.target_prompt_index {
        Some(index) => seq![ChatTransform::CutBeforePrompt((index + 1) as usize)],
        None => seq![],
    }) + one_if(options.fork_filter, ChatTransform::ForkFilter)
}

/// The changes to what the fork inherits. The working directory is rewritten
/// only if it differs and the fork does not show the old one anyway; a fork
/// without a transcript does not claim to have one.
pub open spec fn rewriting_transforms(
    options: CopySessionOptions,
    source_cwd: Seq<char>,
    target_cwd: Seq<char>,
) -> Seq<ChatTransform> {
    one_if(!options.skip_cwd_transform && source_cwd != target_cwd, ChatTransform::RewriteCwd)
        + one_if(options.copy_compaction_segments, ChatTransform::RebindSegments) + one_if(
        !options.fork_filter,
        ChatTransform::RebindTranscript,
    ) + one_if(options.strip_reasoning, ChatTransform::StripReasoning)
}

/// The changes that decide how much of the chat the fork inherits, in order.
pub fn select_chat(options: &CopySessionOptions) -> (r: Vec<ChatTransform>)
    requires
        options.target_prompt_index matches Some(index) ==> index < usize::MAX,
    ensures
        r@ == selecting_transforms(*options),
{
    let mut out: Vec<ChatTransform> = Vec::new();
    if let Some(index) = options.target_prompt_index {
        out.push(ChatTransform::CutBeforePrompt(index + 1));
    }
    if options.fork_filter {
        out.push(ChatTransform::ForkFilter);
    }
    assert(out@ =~= selecting_transforms(*options));
    out
}

/// The changes to what the fork inherits, in order.
pub fn rewrite_chat(options: &CopySessionOptions, source: &Info, target: &Info) -> (r: Vec<
    ChatTransform,
>)
    ensures
        r@ == rewriting_transforms(*options, source.cwd@, target.cwd@),
{
    let mut out: Vec<ChatTransform> = Vec::new();
    if !options.skip_cwd_transform && !same_text(source.cwd.as_str(), target.cwd.as_str()) {
        out.push(ChatTransform::RewriteCwd);
    }
    if options.copy_compaction_segments {
        out.push(ChatTransform::RebindSegments);
    }
    if !options.fork_filter {
        out.push(ChatTransform::RebindTranscript);
    }
    if options.strip_reasoning {
        out.push(ChatTransform::StripReasoning);
    }
    assert(out@ =~= rewriting_transforms(*options, source.cwd@, target.cwd@));
    out
}

/// How many chat items count as inherited: all that were selected for a
/// subagent, else as told.
pub open spec fn inherited(options: CopySessionOptions, selected_len: usize) -> Option<usize> {
    if options.fork_filter {
        Some(selected_len)
    } else {
        options.inherited_prefix_len
    }
}

pub fn inherited_prefix_len(options: &CopySessionOptions, selected_len: usize) -> (r: Option<usize>)
    ensures
        r == inherited(*options, selected_len),
{
    if options.fork_filter {
        Some(selected_len)
    } else {
        options.inherited_prefix_len
    }
}

/// The latest switch of the working directory that the chat tells of; zero
/// where it tells of none.
pub fn bookkeeping_generation(generations: &Vec<Option<u64>>) -> (r: u64)
    ensures
        forall|i: int|
            0 <= i < generations@.len() ==> ((#[trigger] generations@[i]) matches Some(g) ==> g <= r),
        r == 0 || exists|i: int|
            0 <= i < generations@.len() && #[trigger] generations@[i] == Some(r),
{
    let mut latest: u64 = 0;
    let mut i: usize = 0;
    while i < generations.len()
        invariant
            i <= generations.len(),
            forall|k: int|
                0 <= k < i ==> ((#[trigger] generations@[k]) matches Some(g) ==> g <= latest),
            latest == 0 || exists|k: int| 0 <= k < i && #[trigger] generations@[k] == Some(latest),
        decreases generations.len() - i,
    {
        if let Some(g) = generations[i] {
            if g > latest {
                latest = g;
                assert(generations@[i as int] == Some(latest));
            }
        }
        i = i + 1;
    }
    latest
}

/// A part of a message. `X` stands for what is not text.
#[derive(Debug)]
pub enum ContentPart<X> {
    Text(String),
    Other(X),
}

/// A chat item. `X` stands for everything that a pointer cannot stand in.
#[derive(Debug)]
pub enum ConversationItem<X> {
    User { compaction_meta: bool, content: Vec<ContentPart<X>> },
    Other(X),
}

/// The text with its pointer bound anew: only a pointer that ends the text is
/// one that a compaction wrote.
pub open spec fn rebound(
    text: Seq<char>,
    source_hint: Seq<char>,
    target_hint: Seq<char>,
) -> Seq<char> {
    if has_suffix(text, source_hint) {
        text.take(text.len() - source_hint.len()) + target_hint
    } else {
        text
    }
}

pub open spec fn rebound_part<X>(
    old_part: ContentPart<X>,
    new_part: ContentPart<X>,
    source_hint: Seq<char>,
    target_hint: Seq<char>,
) -> bool {
    match old_part {
        ContentPart::Text(text) => new_part matches ContentPart::Text(t) && t@ == rebound(
            text@,
            source_hint,
            target_hint,
        ),
        ContentPart::Other(_) => new_part == old_part,
    }
}

pub open spec fn rebound_item<X>(
    old_item: ConversationItem<X>,
    new_item: ConversationItem<X>,
    source_hint: Seq<char>,
    target_hint: Seq<char>,
) -> bool {
    match old_item {
        ConversationItem::User { compaction_meta, content } if compaction_meta => {
            &&& new_item matches ConversationItem::User { compaction_meta: meta, content: parts }
            &&& meta
            &&& parts@.len() == content@.len()
            &&& forall|i: int|
                0 <= i < content@.len() ==> #[trigger] rebound_part(
                    content@[i],
                    parts@[i],
                    source_hint,
                    target_hint,
                )
        },
        _ => new_item == old_item,
    }
}

/// Whether binding anew changes a part.
pub open spec fn part_changes<X>(
    part: ContentPart<X>,
    source_hint: Seq<char>,
    target_hint: Seq<char>,
) -> bool {
    part matches ContentPart::Text(text) && has_suffix(text@, source_hint) && source_hint
        != target_hint
}

/// Whether binding anew changes an item.
pub open spec fn item_changes<X>(
    item: ConversationItem<X>,
    source_hint: Seq<char>,
    target_hint: Seq<char>,
) -> bool {
    &&& item matches ConversationItem::User { compaction_meta, content }
    &&& compaction_meta
    &&& exists|i: int|
        0 <= i < content@.len() && #[trigger] part_changes(content@[i], source_hint, target_hint)
}

/// A pointer to bind anew: from what, and to what.
#[derive(Debug, Clone, Copy)]
pub struct Rebind<'a> {
    pub source_hint: &'a str,
    pub target_hint: &'a str,
}

/// Whether `new_items` are `old_items` with their pointers bound anew, where
/// there are any to bind.
pub open spec fn all_rebound<X>(
    old_items: Seq<ConversationItem<X>>,
    new_items: Seq<ConversationItem<X>>,
    rebind: Option<Rebind>,
) -> bool {
    match rebind {
        None => new_items == old_items,
        Some(bind) => {
            &&& new_items.len() == old_items.len()
            &&& forall|i: int|
                0 <= i < old_items.len() ==> #[trigger] rebound_item(
                    old_items[i],
                    new_items[i],
                    bind.source_hint@,
                    bind.target_hint@,
                )
        },
    }
}

/// Whether binding pointers anew changes any of some items.
pub open spec fn any_changes<X>(items: Seq<ConversationItem<X>>, rebind: Option<Rebind>) -> bool {
    rebind matches Some(bind) && exists|i: int|
        0 <= i < items.len() && #[trigger] item_changes(
            items[i],
            bind.source_hint@,
            bind.target_hint@,
        )
}

fn rebind_part<X>(part: ContentPart<X>, bind: Rebind) -> (r: (ContentPart<X>, bool))
    ensures
        rebound_part(part, r.0, bind.source_hint@, bind.target_hint@),
        r.1 == part_changes(part, bind.source_hint@, bind.target_hint@),
{
    match part {
        ContentPart::Text(text) => match strip_suffix(text.as_str(), bind.source_hint) {
            Some(prefix) => {
                let mut bound = prefix;
                bound.append(bind.target_hint);
                (ContentPart::Text(bound), !same_text(bind.source_hint, bind.target_hint))
            },
            None => (ContentPart::Text(text), false),
        },
        other => (other, false),
    }
}

fn rebind_parts<X>(content: Vec<ContentPart<X>>, bind: Rebind) -> (r: (Vec<ContentPart<X>>, bool))
    ensures
        r.0@.len() == content@.len(),
        forall|i: int|
            0 <= i < content@.len() ==> #[trigger] rebound_part(
                content@[i],
                r.0@[i],
                bind.source_hint@,
                bind.target_hint@,
            ),
        r.1 <==> exists|i: int|
            0 <= i < content@.len() && #[trigger] part_changes(
                content@[i],
                bind.source_hint@,
                bind.target_hint@,
            ),
{
    let mut parts: Vec<ContentPart<X>> = Vec::new();
    let mut changed = false;
    for part in it: content
        invariant
            it.seq() == content@,
            parts@.len() == it.index(),
            forall|k: int|
                0 <= k < parts@.len() ==> #[trigger] rebound_part(
                    content@[k],
                    parts@[k],
                    bind.source_hint@,
                    bind.target_hint@,
                ),
            changed <==> exists|k: int|
                0 <= k < it.index() && #[trigger] part_changes(
                    content@[k],
                    bind.source_hint@,
                    bind.target_hint@,
                ),
    {
        assert(part == content@[it.index() as int]);
        let (bound, differs) = rebind_part(part, bind);
        if differs {
            assert(part_changes(
                content@[it.index() as int],
                bind.source_hint@,
                bind.target_hint@,
            ));
            changed = true;
        }
        parts.push(bound);
    }
    (parts, changed)
}

fn rebind_items<X>(items: Vec<ConversationItem<X>>, rebind: Option<Rebind>) -> (r: (
    Vec<ConversationItem<X>>,
    bool,
))
    ensures
        all_rebound(items@, r.0@, rebind),
        r.1 == any_changes(items@, rebind),
        rebind is None ==> r.0 == items,
{
    let bind = match rebind {
        Some(bind) => bind,
        None => {
            return (items, false);
        },
    };
    let mut out: Vec<ConversationItem<X>> = Vec::new();
    let mut changed = false;
    for item in it: items
        invariant
            it.seq() == items@,
            rebind == Some(bind),
            out@.len() == it.index(),
            forall|k: int|
                0 <= k < out@.len() ==> #[trigger] rebound_item(
                    items@[k],
                    out@[k],
                    bind.source_hint@,
                    bind.target_hint@,
                ),
            changed <==> exists|k: int|
                0 <= k < it.index() && #[trigger] item_changes(
                    items@[k],
                    bind.source_hint@,
                    bind.target_hint@,
                ),
    {
        let ghost was = item;
        assert(was == items@[it.index() as int]);
        let (bound, differs) = match item {
            ConversationItem::User { compaction_meta, content } => {
                if compaction_meta {
                    let (parts, differs) = rebind_parts(content, bind);
                    (ConversationItem::User { compaction_meta, content: parts }, differs)
                } else {
                    (ConversationItem::User { compaction_meta, content }, false)
                }
            },
            other => (other, false),
        };
        assert(rebound_item(was, bound, bind.source_hint@, bind.target_hint@));
        assert(differs == item_changes(was, bind.source_hint@, bind.target_hint@));
        if differs {
            changed = true;
        }
        out.push(bound);
    }
    (out, changed)
}

/// Binds the pointers of compaction summaries in a chat to the fork's files.
/// Nothing changes where the mode writes no pointers.
pub fn rebind_compaction_hint<X>(items: Vec<ConversationItem<X>>, rebind: Option<Rebind>) -> (r: Vec<
    ConversationItem<X>,
>)
    ensures
        all_rebound(items@, r@, rebind),
        rebind is None ==> r == items,
{
    rebind_items(items, rebind).0
}

/// Binds the pointers in the history of a compaction checkpoint to the fork's
/// files: those to the archive, if it is copied, and those to the transcript.
/// Where that changes nothing the checkpoint is to be copied as it is, and
/// nothing is given.
pub fn rebind_checkpoint<X>(
    history: Vec<ConversationItem<X>>,
    segments: Option<Rebind>,
    transcript: Option<Rebind>,
) -> (r: Option<Vec<ConversationItem<X>>>)
    ensures
        exists|between: Seq<ConversationItem<X>>| #[trigger]
            all_rebound(history@, between, segments) && (r is Some <==> any_changes(
                history@,
                segments,
            ) || any_changes(between, transcript)) && (r matches Some(out) ==> all_rebound(
                between,
                out@,
                transcript,
            )),
{
    let (between, first) = rebind_items(history, segments);
    let ghost middle = between@;
    let (out, second) = rebind_items(between, transcript);
    assert(all_rebound(history@, middle, segments));
    if first || second {
        Some(out)
    } else {
        None
    }
}

/// Only what a compaction wrote is bound anew: an item of a user or of the
/// model stays as it is, whatever it quotes.
pub proof fn authored_text_is_kept<X>(
    old_item: ConversationItem<X>,
    new_item: ConversationItem<X>,
    source_hint: Seq<char>,
    target_hint: Seq<char>,
)
    requires
        rebound_item(old_item, new_item, source_hint, target_hint),
        !(old_item matches ConversationItem::User { compaction_meta, .. } && compaction_meta),
    ensures
        new_item == old_item,
{
}

/// Binding a pointer to a fork and back restores the text.
pub proof fn rebinding_is_undone(text: Seq<char>, source_hint: Seq<char>, target_hint: Seq<char>)
    requires
        has_suffix(text, source_hint),
    ensures
        rebound(rebound(text, source_hint, target_hint), target_hint, source_hint) == text,
{
    let prefix = text.take(text.len() - source_hint.len());
    let moved = prefix + target_hint;
    assert(moved.skip(moved.len() - target_hint.len()) =~= target_hint);
    assert(moved.take(moved.len() - target_hint.len()) =~= prefix);
    assert(prefix + source_hint =~= text);
}

/// Whether an optional file of a session is copied: when it is wanted and is a
/// regular file.
pub fn copy_sidecar_file(enabled: bool, is_file: bool) -> (r: bool)
    ensures
        r == (enabled && is_file),
{
    enabled && is_file
}

// What a fork takes over, as its reader sees it.

/// The items of a chat that are left where it is cut before the first item of
/// prompt `prompt`; each item bears the number of its prompt.
pub open spec fn cut_before<A>(chat: Seq<(int, A)>, prompt: int) -> Seq<(int, A)>
    decreases chat.len(),
{
    if chat.len() == 0 || chat[0].0 == prompt {
        seq![]
    } else {
        seq![chat[0]] + cut_before(chat.skip(1), prompt)
    }
}

/// What a change that selects from the chat leaves of it; `filter` is what a
/// subagent's filter leaves. Other changes select nothing.
pub open spec fn selected_by<A>(
    chat: Seq<(int, A)>,
    transform: ChatTransform,
    filter: spec_fn(Seq<(int, A)>) -> Seq<(int, A)>,
) -> Seq<(int, A)> {
    match transform {
        ChatTransform::CutBeforePrompt(prompt) => cut_before(chat, prompt as int),
        ChatTransform::ForkFilter => filter(chat),
        _ => chat,
    }
}

/// What changes leave of the chat, made one after the other.
pub open spec fn selected<A>(
    chat: Seq<(int, A)>,
    transforms: Seq<ChatTransform>,
    filter: spec_fn(Seq<(int, A)>) -> Seq<(int, A)>,
) -> Seq<(int, A)>
    decreases transforms.len(),
{
    if transforms.len() == 0 {
        chat
    } else {
        selected_by(selected(chat, transforms.drop_last(), filter), transforms.last(), filter)
    }
}

proof fn cut_is_where_the_prompt_begins<A>(chat: Seq<(int, A)>, prompt: int, at: int)
    requires
        0 <= at <= chat.len(),
        forall|i: int| 0 <= i < at ==> (#[trigger] chat[i]).0 != prompt,
        at < chat.len() ==> chat[at].0 == prompt,
    ensures
        cut_before(chat, prompt) == chat.take(at),
    decreases chat.len(),
{
    if at == 0 {
        assert(chat.take(0) =~= seq![]);
    } else {
        let rest = chat.skip(1);
        assert forall|i: int| 0 <= i < at - 1 implies (#[trigger] rest[i]).0 != prompt by {
            assert(rest[i] == chat[i + 1]);
        }
        if at - 1 < rest.len() {
            assert(rest[at - 1] == chat[at]);
        }
        cut_is_where_the_prompt_begins(rest, prompt, at - 1);
        assert(seq![chat[0]] + rest.take(at - 1) =~= chat.take(at));
    }
}

proof fn selection_of<A>(
    chat: Seq<(int, A)>,
    options: CopySessionOptions,
    filter: spec_fn(Seq<(int, A)>) -> Seq<(int, A)>,
)
    ensures
        ({
            let cut = match options.target_prompt_index {
                Some(index) => selected_by(
                    chat,
                    selecting_transforms(options)[0],
                    filter,
                ),
                None => chat,
            };
            selected(chat, selecting_transforms(options), filter) == if options.fork_filter {
                filter(cut)
            } else {
                cut
            }
        }),
{
    reveal_with_fuel(selected, 3);
    let all = selecting_transforms(options);
    if all.len() == 2 {
        assert(all.drop_last().drop_last() =~= seq![]);
        assert(all.drop_last().last() == all[0]);
    } else if all.len() == 1 {
        assert(all.drop_last() =~= seq![]);
    }
}

/// A fork at prompt `index` keeps the items that come before the first item of
/// the prompt after it, all of them and no other; a subagent gets of those what
/// its filter leaves. Without a prompt, nothing is cut. `at` is where the next
/// prompt begins, or the end of the chat.
pub proof fn fork_keeps_the_chat_up_to_its_prompt<A>(
    chat: Seq<(int, A)>,
    options: CopySessionOptions,
    filter: spec_fn(Seq<(int, A)>) -> Seq<(int, A)>,
    at: int,
)
    requires
        options.target_prompt_index matches Some(index) ==> {
            &&& index < usize::MAX
            &&& 0 <= at <= chat.len()
            &&& forall|i: int| 0 <= i < at ==> (#[trigger] chat[i]).0 != index + 1
            &&& at < chat.len() ==> chat[at].0 == index + 1
        },
    ensures
        selected(chat, selecting_transforms(options), filter) == ({
            let kept = if options.target_prompt_index is Some {
                chat.take(at)
            } else {
                chat
            };
            if options.fork_filter {
                filter(kept)
            } else {
                kept
            }
        }),
{
    selection_of(chat, options, filter);
    if let Some(index) = options.target_prompt_index {
        cut_is_where_the_prompt_begins(chat, index + 1, at);
    }
}

/// Whether an item of the chat belongs to a prompt.
pub open spec fn has_prompt<A>(chat: Seq<(int, A)>, prompt: int) -> bool {
    exists|i: int| 0 <= i < chat.len() && (#[trigger] chat[i]).0 == prompt
}

/// Whether the prompts of a chat are numbered from zero on, one after the other.
pub open spec fn numbered<A>(chat: Seq<(int, A)>) -> bool {
    &&& forall|i: int, j: int|
        0 <= i <= j < chat.len() ==> (#[trigger] chat[i]).0 <= (#[trigger] chat[j]).0
    &&& forall|i: int, prompt: int|
        0 <= i < chat.len() && 0 <= prompt <= (#[trigger] chat[i]).0 ==> #[trigger] has_prompt(
            chat,
            prompt,
        )
}

proof fn first_from<A>(chat: Seq<(int, A)>, prompt: int, n: int) -> (at: int)
    requires
        0 <= n <= chat.len(),
        forall|i: int, j: int|
            0 <= i <= j < chat.len() ==> (#[trigger] chat[i]).0 <= (#[trigger] chat[j]).0,
    ensures
        0 <= at <= n,
        forall|i: int| 0 <= i < at ==> (#[trigger] chat[i]).0 < prompt,
        forall|i: int| at <= i < n ==> (#[trigger] chat[i]).0 >= prompt,
    decreases n,
{
    if n == 0 {
        0
    } else {
        let at = first_from(chat, prompt, n - 1);
        if at == n - 1 && chat[n - 1].0 < prompt {
            n
        } else {
            if at < n - 1 {
                assert(chat[at].0 <= chat[n - 1].0);
            }
            at
        }
    }
}

proof fn cut_of_numbered<A>(chat: Seq<(int, A)>, prompt: int) -> (at: int)
    requires
        numbered(chat),
        prompt >= 0,
    ensures
        0 <= at <= chat.len(),
        forall|i: int| 0 <= i < at ==> (#[trigger] chat[i]).0 < prompt,
        forall|i: int| at <= i < chat.len() ==> (#[trigger] chat[i]).0 >= prompt,
        at < chat.len() ==> chat[at].0 == prompt,
{
    let at = first_from(chat, prompt, chat.len() as int);
    if at < chat.len() {
        assert(chat[at].0 >= prompt);
        assert(has_prompt(chat, prompt));
        let j = choose|j: int| 0 <= j < chat.len() && (#[trigger] chat[j]).0 == prompt;
        assert(chat[at].0 <= chat[j].0);
    }
    at
}

/// Of a chat whose prompts are numbered one after the other, a fork at prompt
/// `index` has exactly the items of the prompts up to `index`, that one
/// included: they come first, and every item of a later prompt is left out.
pub proof fn fork_has_its_prompt_and_none_later<A>(
    chat: Seq<(int, A)>,
    options: CopySessionOptions,
    filter: spec_fn(Seq<(int, A)>) -> Seq<(int, A)>,
    index: usize,
)
    requires
        numbered(chat),
        options.target_prompt_index == Some(index),
        index < usize::MAX,
        !options.fork_filter,
    ensures
        ({
            let kept = selected(chat, selecting_transforms(options), filter);
            &&& kept.len() <= chat.len()
            &&& kept == chat.take(kept.len() as int)
            &&& forall|i: int|
                0 <= i < chat.len() ==> (i < kept.len() <==> (#[trigger] chat[i]).0 <= index)
        }),
{
    let at = cut_of_numbered(chat, index + 1);
    fork_keeps_the_chat_up_to_its_prompt(chat, options, filter, at);
}

/// Each change to what a fork inherits is made if and only if it is called for,
/// at most once, and before those that work on its result: pointers are bound
/// in a chat whose paths are those of the fork, and reasoning is stripped last.
pub proof fn rewriting_is_made_where_called_for(
    options: CopySessionOptions,
    source_cwd: Seq<char>,
    target_cwd: Seq<char>,
)
    ensures
        ({
            let all = rewriting_transforms(options, source_cwd, target_cwd);
            &&& all.contains(ChatTransform::RewriteCwd) <==> source_cwd != target_cwd
                && !options.skip_cwd_transform
            &&& all.contains(ChatTransform::RebindSegments) <==> options.copy_compaction_segments
            &&& all.contains(ChatTransform::RebindTranscript) <==> !options.fork_filter
            &&& all.contains(ChatTransform::StripReasoning) <==> options.strip_reasoning
            &&& !all.contains(ChatTransform::ForkFilter)
            &&& forall|i: int|
                0 <= i < all.len() ==> !((#[trigger] all[i]) is CutBeforePrompt)
            &&& all.no_duplicates()
            &&& forall|i: int, j: int|
                0 <= i < j < all.len() ==> (#[trigger] all[j]) != ChatTransform::RewriteCwd && (
                #[trigger] all[i]) != ChatTransform::StripReasoning
        }),
{
    let cwd = one_if(
        !options.skip_cwd_transform && source_cwd != target_cwd,
        ChatTransform::RewriteCwd,
    );
    let segments = one_if(options.copy_compaction_segments, ChatTransform::RebindSegments);
    let transcript = one_if(!options.fork_filter, ChatTransform::RebindTranscript);
    let strip = one_if(options.strip_reasoning, ChatTransform::StripReasoning);
    let all = rewriting_transforms(options, source_cwd, target_cwd);
    assert(all =~= cwd + segments + transcript + strip);
    if cwd.len() > 0 {
        assert(all[0] == ChatTransform::RewriteCwd);
    }
    if segments.len() > 0 {
        assert(all[cwd.len() as int] == ChatTransform::RebindSegments);
    }
    if transcript.len() > 0 {
        assert(all[(cwd.len() + segments.len()) as int] == ChatTransform::RebindTranscript);
    }
    if strip.len() > 0 {
        assert(all[all.len() - 1] == ChatTransform::StripReasoning);
    }
}

/// A fork is a session of its own: it has its own place, its own times and
/// counts, and its parent; it is not hidden by what hid its source, and nothing
/// that belongs to the source's runs goes on in it.
pub proof fn fork_is_a_session_of_its_own(
    r: Summary,
    source: Summary,
    target_info: Info,
    options: CopySessionOptions,
    counters: ForkCounters,
    stamp: ForkStamp,
)
    requires
        is_fork_summary(r, source, target_info, options, counters, stamp),
    ensures
        r.info == target_info,
        r.chat_format_version == CHAT_FORMAT_VERSION,
        r.parent_session_id == options.parent_session_id,
        r.created_at == stamp.created_at && r.updated_at == stamp.updated_at,
        r.forked_at == Some(stamp.forked_at),
        r.num_messages == counters.num_messages,
        r.num_chat_messages == counters.num_chat_messages,
        r.cwd_switch_bookkeeping_generation == counters.cwd_switch_bookkeeping_generation,
        r.inherited_prefix_len == counters.inherited_prefix_len,
        r.hidden is None,
        r.collection_id is None && r.request_id is None && r.next_trace_turn == 0,
        r.pending_cwd_switch_reminder is None,
        r.git_root_dir is None && r.git_remotes@.len() == 0,
        r.grok_home == stamp.grok_home,
        r.prompt_display_cwd == options.prompt_display_cwd,
        r.fork_context_source == options.fork_context_source,
        r.fork_parent_prompt_id == options.fork_parent_prompt_id,
        r.source_workspace_dir == options.source_workspace_dir,
        options.session_kind matches Some(kind) ==> r.session_kind == Some(kind),
        options.session_kind is None ==> r.session_kind is Some && r.session_kind->0@ == "fork"@,
{
}

/// A fork goes on with what its source was about: its texts and title, its
/// commit, its sandbox, its effort and the directories it was in. Under the same
/// model it keeps the model's selection and the agent; under another it has that
/// model and neither. What was said of the last turn is kept by a fork of the
/// whole chat only.
pub proof fn fork_goes_on_with_its_source(
    r: Summary,
    source: Summary,
    target_info: Info,
    options: CopySessionOptions,
    counters: ForkCounters,
    stamp: ForkStamp,
)
    requires
        is_fork_summary(r, source, target_info, options, counters, stamp),
    ensures
        r.session_summary == source.session_summary,
        r.generated_title == source.generated_title,
        r.title_is_manual == source.title_is_manual,
        r.cwd_generation == source.cwd_generation && r.previous_cwd == source.previous_cwd,
        r.head_commit == source.head_commit && r.head_branch == source.head_branch,
        r.last_active_at == source.last_active_at,
        r.worktree_label == source.worktree_label,
        r.sandbox_profile == source.sandbox_profile,
        r.reasoning_effort == source.reasoning_effort,
        match options.new_model_id {
            None => r.current_model_id == source.current_model_id && r.catalog_identity
                == source.catalog_identity && r.agent_name == source.agent_name,
            Some(model) => r.current_model_id == model && r.catalog_identity is None && r.agent_name
                is None,
        },
        match options.target_prompt_index {
            None => r.last_turn_summary == source.last_turn_summary && r.last_turn_summary_prompt_id
                == source.last_turn_summary_prompt_id,
            Some(_) => r.last_turn_summary is None && r.last_turn_summary_prompt_id is None,
        },
{
}

/// A subagent counts as inherited all that was selected for it; any other fork
/// what it is told.
pub proof fn subagent_inherits_its_selection(options: CopySessionOptions, selected_len: usize)
    ensures
        options.fork_filter ==> inherited(options, selected_len) == Some(selected_len),
        !options.fork_filter ==> inherited(options, selected_len) == options.inherited_prefix_len,
{
}

/// A pointer that ends a text of a compaction is bound to the fork: what stands
/// before it is kept, and a text that does not end in it is kept whole. So are
/// parts that are no text, in their places.
pub proof fn pointers_are_bound_to_the_fork<X>(
    old_item: ConversationItem<X>,
    new_item: ConversationItem<X>,
    source_hint: Seq<char>,
    target_hint: Seq<char>,
    i: int,
    said: Seq<char>,
)
    requires
        rebound_item(old_item, new_item, source_hint, target_hint),
        old_item matches ConversationItem::User { compaction_meta, content } && compaction_meta
            && 0 <= i < content@.len(),
    ensures
        new_item is User,
        new_item->User_compaction_meta,
        new_item->User_content@.len() == old_item->User_content@.len(),
        ({
            let old_part = old_item->User_content@[i];
            let new_part = new_item->User_content@[i];
            &&& old_part is Other ==> new_part == old_part
            &&& old_part is Text ==> new_part is Text
            &&& old_part is Text && old_part->Text_0@ == said + source_hint ==> new_part->Text_0@
                == said + target_hint
            &&& old_part is Text && !(exists|before: Seq<char>| old_part->Text_0@ == #[trigger] (
            before + source_hint)) ==> new_part->Text_0@ == old_part->Text_0@
        }),
{
    let old_part = old_item->User_content@[i];
    let new_part = new_item->User_content@[i];
    assert(rebound_part(old_part, new_part, source_hint, target_hint));
    if old_part is Text {
        let text = old_part->Text_0@;
        if has_suffix(text, source_hint) {
            let before = text.take(text.len() - source_hint.len());
            assert(text =~= before + source_hint);
            if text == said + source_hint {
                assert(before =~= said);
            }
        } else if text == said + source_hint {
            assert(text.skip(text.len() - source_hint.len()) =~= source_hint);
        }
    }
}

/// A checkpoint is written anew if a text of a compaction in it ends in a
/// pointer that is not the fork's already.
pub proof fn changed_pointer_is_seen<X>(
    items: Seq<ConversationItem<X>>,
    rebind: Option<Rebind>,
    i: int,
    j: int,
    said: Seq<char>,
)
    requires
        0 <= i < items.len(),
        items[i] is User && items[i]->User_compaction_meta,
        0 <= j < items[i]->User_content@.len(),
        items[i]->User_content@[j] is Text,
        rebind is Some,
        items[i]->User_content@[j]->Text_0@ == said + rebind->0.source_hint@,
        rebind->0.source_hint@ != rebind->0.target_hint@,
    ensures
        any_changes(items, rebind),
{
    let (source_hint, target_hint) = (rebind->0.source_hint@, rebind->0.target_hint@);
    let text = items[i]->User_content@[j]->Text_0@;
    assert(text.skip(text.len() - source_hint.len()) =~= source_hint);
    assert(part_changes(items[i]->User_content@[j], source_hint, target_hint));
    assert(item_changes(items[i], source_hint, target_hint));
}

/// A checkpoint is not written anew where nothing is to be bound, where the
/// pointer is the fork's already, and where no compaction wrote any of it.
pub proof fn unchanged_pointers_change_nothing<X>(
    items: Seq<ConversationItem<X>>,
    rebind: Rebind,
)
    ensures
        !any_changes(items, None),
        rebind.source_hint@ == rebind.target_hint@ ==> !any_changes(items, Some(rebind)),
        (forall|k: int|
            0 <= k < items.len() ==> !((#[trigger] items[k]) is User
                && items[k]->User_compaction_meta)) ==> !any_changes(items, Some(rebind)),
{
    if any_changes(items, Some(rebind)) {
        let k = choose|k: int|
            0 <= k < items.len() && #[trigger] item_changes(
                items[k],
                rebind.source_hint@,
                rebind.target_hint@,
            );
        assert(item_changes(items[k], rebind.source_hint@, rebind.target_hint@));
    }
}

/// Binding pointers anew keeps every item of a chat in its place, and those that
/// no compaction wrote as they are; where nothing is to be bound all stay.
pub proof fn items_keep_their_places<X>(
    old_items: Seq<ConversationItem<X>>,
    new_items: Seq<ConversationItem<X>>,
    rebind: Option<Rebind>,
    i: int,
)
    requires
        all_rebound(old_items, new_items, rebind),
        0 <= i < old_items.len(),
    ensures
        new_items.len() == old_items.len(),
        rebind is None ==> new_items[i] == old_items[i],
        old_items[i] is Other ==> new_items[i] == old_items[i],
        old_items[i] is User && !old_items[i]->User_compaction_meta ==> new_items[i]
            == old_items[i],
        rebind matches Some(bind) ==> rebound_item(
            old_items[i],
            new_items[i],
            bind.source_hint@,
            bind.target_hint@,
        ),
{
    if let Some(bind) = rebind {
        assert(rebound_item(
            old_items[i],
            new_items[i],
            bind.source_hint@,
            bind.target_hint@,
        ));
    }
}

} // verus!
