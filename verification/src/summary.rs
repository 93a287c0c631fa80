//! The summary that is stored with every session.

use vstd::prelude::*;

use crate::text::{has_prefix, owned, starts_with, trim, trimmed};
use crate::timestamp::Timestamp;

verus! {

/// The chat history format that is written now.
pub const CHAT_FORMAT_VERSION: u8 = 1;

/// A session's id and the directory that it works in.
#[derive(Debug)]
pub struct Info {
    pub id: String,
    pub cwd: String,
}

impl Clone for Info {
    fn clone(&self) -> (r: Info)
        ensures
            r == *self,
    {
        Info { id: self.id.clone(), cwd: self.cwd.clone() }
    }
}

/// Whether a counter is left out of the stored summary.
pub fn is_zero(value: u64) -> (r: bool)
    ensures
        r == (value == 0),
{
    value == 0
}

/// A reminder that the working directory has changed, kept until it is in the
/// chat.
#[derive(Debug, Clone)]
pub struct PendingCwdSwitchReminder {
    pub cwd_generation: u64,
    pub previous_cwd: String,
    pub destination_cwd: String,
    pub content: String,
    pub destination_project_instructions: Option<String>,
}

/// What is known of a session without reading its chat.
#[derive(Debug, Clone)]
pub struct Summary {
    pub info: Info,
    /// Monotonic generation of the working directory in `info.cwd`.
    pub cwd_generation: u64,
    /// The working directory before the current generation.
    pub previous_cwd: Option<String>,
    /// A reminder to be appended exactly once when a relocation completes.
    pub pending_cwd_switch_reminder: Option<PendingCwdSwitchReminder>,
    /// The latest switch generation that `num_chat_messages` counts.
    pub cwd_switch_bookkeeping_generation: u64,
    pub session_summary: String,
    pub created_at: Timestamp,
    pub updated_at: Timestamp,
    pub num_messages: usize,
    pub num_chat_messages: usize,
    pub current_model_id: String,
    /// The catalog selection of the model, as stored.
    pub catalog_identity: Option<String>,
    /// The session that this one was forked from.
    pub parent_session_id: Option<String>,
    pub forked_at: Option<Timestamp>,
    pub collection_id: Option<String>,
    pub next_trace_turn: u64,
    pub chat_format_version: u8,
    /// The path shown to the model in place of `info.cwd`.
    pub prompt_display_cwd: Option<String>,
    /// What made this session, such as `fork` or `subagent`.
    pub session_kind: Option<String>,
    pub fork_context_source: Option<String>,
    pub fork_parent_prompt_id: Option<String>,
    /// The number of chat items taken over from the parent.
    pub inherited_prefix_len: Option<usize>,
    /// Whether listings leave the session out; without it, by `session_kind`.
    pub hidden: Option<bool>,
    pub source_workspace_dir: Option<String>,
    pub git_root_dir: Option<String>,
    pub git_remotes: Vec<String>,
    pub head_commit: Option<String>,
    pub head_branch: Option<String>,
    pub request_id: Option<String>,
    pub grok_home: Option<String>,
    /// When a user or a model last added to the session.
    pub last_active_at: Option<Timestamp>,
    /// A title that stands before `session_summary`.
    pub generated_title: Option<String>,
    /// Whether `generated_title` was given by hand.
    pub title_is_manual: bool,
    pub worktree_label: Option<String>,
    pub agent_name: Option<String>,
    /// The sandbox profile that the session ran under.
    pub sandbox_profile: Option<String>,
    pub reasoning_effort: Option<String>,
    pub last_turn_summary: Option<String>,
    pub last_turn_summary_prompt_id: Option<String>,
}

/// What a new summary takes from the machine: the clock, the repository around
/// the working directory, and where sessions are stored.
#[derive(Debug)]
pub struct Surroundings {
    pub created_at: Timestamp,
    pub updated_at: Timestamp,
    pub git_root_dir: Option<String>,
    pub git_remotes: Vec<String>,
    pub head_commit: Option<String>,
    pub head_branch: Option<String>,
    pub grok_home: Option<String>,
    pub worktree_label: Option<String>,
}

/// The generated title where it is not blank, else the session's summary.
pub open spec fn title_text(s: Summary) -> Seq<char> {
    match s.generated_title {
        Some(t) if trimmed(t@).len() > 0 => trimmed(t@),
        _ => s.session_summary@,
    }
}

impl Summary {
    /// Whether listings leave this session out.
    pub open spec fn hidden_from_listings(self) -> bool {
        match self.hidden {
            Some(hidden) => hidden,
            None => self.session_kind matches Some(kind) && has_prefix(kind@, "subagent"@),
        }
    }

    /// When the session last changed: its last activity, else its last write.
    pub open spec fn last_change(self) -> Timestamp {
        match self.last_active_at {
            Some(at) => at,
            None => self.updated_at,
        }
    }

    /// The summary of a session that nothing has happened in.
    pub fn new(info: &Info, model_id: String, around: Surroundings) -> (r: Summary)
        ensures
            r.session_summary@ == ""@,
            r == (Summary {
                info: *info,
                cwd_generation: 0,
                previous_cwd: None,
                pending_cwd_switch_reminder: None,
                cwd_switch_bookkeeping_generation: 0,
                session_summary: r.session_summary,
                created_at: around.created_at,
                updated_at: around.updated_at,
                num_messages: 0,
                num_chat_messages: 0,
                current_model_id: model_id,
                catalog_identity: None,
                parent_session_id: None,
                forked_at: None,
                collection_id: None,
                next_trace_turn: 0,
                chat_format_version: CHAT_FORMAT_VERSION,
                prompt_display_cwd: None,
                session_kind: None,
                fork_context_source: None,
                fork_parent_prompt_id: None,
                inherited_prefix_len: None,
                hidden: None,
                source_workspace_dir: None,
                git_root_dir: around.git_root_dir,
                git_remotes: around.git_remotes,
                head_commit: around.head_commit,
                head_branch: around.head_branch,
                request_id: None,
                grok_home: around.grok_home,
                last_active_at: None,
                generated_title: None,
                title_is_manual: false,
                worktree_label: around.worktree_label,
                agent_name: None,
                sandbox_profile: None,
                reasoning_effort: None,
                last_turn_summary: None,
                last_turn_summary_prompt_id: None,
            }),
    {
        Summary {
            info: info.clone(),
            cwd_generation: 0,
            previous_cwd: None,
            pending_cwd_switch_reminder: None,
            cwd_switch_bookkeeping_generation: 0,
            session_summary: owned(""),
            created_at: around.created_at,
            updated_at: around.updated_at,
            num_messages: 0,
            num_chat_messages: 0,
            current_model_id: model_id,
            catalog_identity: None,
            parent_session_id: None,
            forked_at: None,
            collection_id: None,
            next_trace_turn: 0,
            chat_format_version: CHAT_FORMAT_VERSION,
            prompt_display_cwd: None,
            session_kind: None,
            fork_context_source: None,
            fork_parent_prompt_id: None,
            inherited_prefix_len: None,
            hidden: None,
            source_workspace_dir: None,
            git_root_dir: around.git_root_dir,
            git_remotes: around.git_remotes,
            head_commit: around.head_commit,
            head_branch: around.head_branch,
            request_id: None,
            grok_home: around.grok_home,
            last_active_at: None,
            generated_title: None,
            title_is_manual: false,
            worktree_label: around.worktree_label,
            agent_name: None,
            sandbox_profile: None,
            reasoning_effort: None,
            last_turn_summary: None,
            last_turn_summary_prompt_id: None,
        }
    }

    /// Whether listings leave this session out: as told, else if a subagent
    /// made it.
    pub fn is_hidden(&self) -> (r: bool)
        ensures
            r == self.hidden_from_listings(),
    {
        match self.hidden {
            Some(hidden) => hidden,
            None => match &self.session_kind {
                Some(kind) => starts_with(kind.as_str(), "subagent"),
                None => false,
            },
        }
    }

    /// The title to show.
    pub fn display_title(&self) -> (r: String)
        ensures
            r@ == title_text(*self),
    {
        if let Some(title) = &self.generated_title {
            let title = trim(title.as_str());
            if title.as_str().unicode_len() > 0 {
                return title;
            }
        }
        self.session_summary.clone()
    }

    /// The title to show, trimmed; nothing where it is blank.
    pub fn display_title_opt(&self) -> (r: Option<String>)
        ensures
            r is Some <==> trimmed(title_text(*self)).len() > 0,
            r matches Some(title) ==> title@ == trimmed(title_text(*self)),
    {
        let title = self.display_title();
        let title = trim(title.as_str());
        if title.as_str().unicode_len() > 0 {
            Some(title)
        } else {
            None
        }
    }

    /// The title given by hand, trimmed; nothing where there is none or it is
    /// blank.
    pub fn manual_title_opt(&self) -> (r: Option<String>)
        ensures
            r is Some <==> self.title_is_manual && (self.generated_title matches Some(t)
                && trimmed(t@).len() > 0),
            r matches Some(title) ==> title@ == trimmed(self.generated_title->0@),
    {
        if !self.title_is_manual {
            return None;
        }
        match &self.generated_title {
            Some(title) => {
                let title = trim(title.as_str());
                if title.as_str().unicode_len() > 0 {
                    Some(title)
                } else {
                    None
                }
            },
            None => None,
        }
    }

    /// When the session last changed, in milliseconds since the epoch.
    pub fn last_change_unix_ms(&self) -> (r: i64)
        requires
            self.last_change().wf(),
        ensures
            r == self.last_change().millis(),
    {
        match self.last_active_at {
            Some(at) => at.timestamp_millis(),
            None => self.updated_at.timestamp_millis(),
        }
    }
}

/// A title given by hand is the title shown.
pub proof fn manual_title_is_shown(s: Summary)
    requires
        s.title_is_manual,
        s.generated_title matches Some(t) && trimmed(t@).len() > 0,
    ensures
        trimmed(title_text(s)) == trimmed(s.generated_title->0@),
        trimmed(title_text(s)).len() > 0,
{
    crate::text::trim_twice(s.generated_title->0@);
}

} // verus!
