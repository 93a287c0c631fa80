//! Entries of the side-question and feedback logs.

use vstd::prelude::*;

use crate::timestamp::Timestamp;

verus! {

/// A side question with its answer, as kept in `btw_history.jsonl`.
#[derive(Debug, Clone)]
pub struct BtwEntry {
    pub btw_session_id: String,
    pub parent_session_id: String,
    pub asked_at: Timestamp,
    pub question: String,
    /// Empty if the request failed.
    pub answer: String,
    pub model: String,
    pub success: bool,
    pub error: Option<String>,
    /// Model calls made; 1 means no retry.
    pub attempts: u32,
}

/// The attempts of an entry that was written without the field.
pub fn default_btw_attempts() -> (r: u32)
    ensures
        r == 1,
{
    1
}

/// An entry of `feedback.jsonl`.
#[derive(Debug, Clone)]
pub enum LocalFeedbackEntry<P> {
    UserFeedback(UserFeedbackEntry<P>),
}

/// Feedback of a user: thumbs, stars, text or a dismissal.
#[derive(Debug, Clone)]
pub struct UserFeedbackEntry<P> {
    pub submitted_at: Timestamp,
    pub session_id: String,
    pub turn_number: Option<i64>,
    /// Whether this answers a feedback request of the server.
    pub solicited: bool,
    pub request_id: Option<String>,
    /// Whether the user dismissed the request without an answer.
    pub dismissed: bool,
    /// The payload; absent when dismissed.
    pub submission: Option<P>,
}

/// Whether a flag is left out of a stored entry.
pub fn is_false(v: &bool) -> (r: bool)
    ensures
        r == !*v,
{
    !*v
}

} // verus!
