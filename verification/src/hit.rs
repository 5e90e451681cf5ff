//! The search hit: one matched message of one conversation.

use crate::time::Timestamp;
use vstd::prelude::*;

verus! {

/// One matched message, as the history-search service reports it.
///
/// The relevance score is a 32-bit binary floating-point number; it is held
/// here by its bit pattern, which loses nothing of it.
#[derive(Clone, Debug, PartialEq, Eq)]
pub struct SearchHit {
    pub message_id: String,
    pub conversation_id: String,
    /// Position of the message in its conversation, counted from zero.
    pub message_idx: i32,
    pub role: String,
    pub content: String,
    pub snippet: String,
    pub created_at: Option<Timestamp>,
    pub conv_created_at: Timestamp,
    pub conv_updated_at: Option<Timestamp>,
    pub score_bits: u32,
    pub source_id: String,
    pub external_id: Option<String>,
    pub title: Option<String>,
    pub workspace: Option<String>,
    pub source_adapter: String,
    pub source_path: Option<String>,
    pub host: Option<String>,
}

impl SearchHit {
    /// The time by which the hit is judged recent: when the message was
    /// made, else when the conversation was last changed, else when the
    /// conversation was made.
    pub open spec fn effective_timestamp(self) -> Timestamp {
        match self.created_at {
            Some(t) => t,
            None => match self.conv_updated_at {
                Some(t) => t,
                None => self.conv_created_at,
            },
        }
    }

    /// The session that the hit is shown under: the external identifier
    /// where there is one, else the conversation's.
    pub open spec fn effective_session(self) -> Seq<char> {
        match self.external_id {
            Some(id) => id@,
            None => self.conversation_id@,
        }
    }

    /// The effective timestamp of the hit.
    pub fn timestamp(&self) -> (t: Timestamp)
        ensures
            t == self.effective_timestamp(),
    {
        match self.created_at {
            Some(t) => t,
            None => match self.conv_updated_at {
                Some(t) => t,
                None => self.conv_created_at,
            },
        }
    }

    /// The effective session identifier of the hit.
    pub fn session(&self) -> (id: &str)
        ensures
            id@ == self.effective_session(),
    {
        match &self.external_id {
            Some(id) => id.as_str(),
            None => self.conversation_id.as_str(),
        }
    }
}

} // verus!
