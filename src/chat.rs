use crate::entity::EntityId;
use crate::table::Metadata;
use vstd::prelude::*;

verus! {

/// A moment in UTC, in milliseconds since the Unix epoch.
#[derive(Debug, Clone, Copy, PartialEq, Eq, Structural)]
pub struct Timestamp {
    pub millis: i64,
}

/// Relies on `chrono::Utc::now` and `DateTime::timestamp_millis`: the
/// current time. Nothing is promised of its value.
#[verifier::external_body]
pub(crate) fn now() -> (r: Timestamp) {
    Timestamp { millis: chrono::Utc::now().timestamp_millis() }
}

#[verifier::external_type_specification]
#[verifier::external_body]
pub struct ExUuid(uuid::Uuid);

pub assume_specification[ uuid::Uuid::new_v4 ]() -> uuid::Uuid;

/// Relies on the `Display` of `uuid::Uuid` (through `ToString`): the
/// hyphenated form, 36 characters.
#[verifier::external_body]
fn hyphenated_text(u: &uuid::Uuid) -> (r: String)
    ensures
        r@.len() == 36,
{
    u.to_string()
}

/// Relies on `uuid::Uuid::simple` and its `Display`: 32 hex digits, no
/// hyphens.
#[verifier::external_body]
pub(crate) fn simple_text(u: uuid::Uuid) -> (r: String)
    ensures
        r@.len() == 32,
{
    u.simple().to_string()
}

/// A fresh random id for a message, in the hyphenated UUID form.
pub fn new_message_id() -> (r: String)
    ensures
        r@.len() == 36,
{
    hyphenated_text(&uuid::Uuid::new_v4())
}

/// One message of a conversation.
#[derive(Debug, Clone)]
pub struct ChatMessage {
    pub id: String,
    pub chat_id: Option<String>,
    pub sender: EntityId,
    pub content: String,
    pub timestamp: Timestamp,
    pub metadata: Metadata,
}

/// A conversation between two participants.
#[derive(Debug, Clone)]
pub struct ChatSession {
    pub id: String,
    pub participant_a: EntityId,
    pub participant_b: EntityId,
    pub created_at: Timestamp,
    pub last_active_at: Timestamp,
}

impl ChatSession {
    /// A conversation that starts now: created and last active at the same
    /// moment.
    pub fn new(id: String, participant_a: EntityId, participant_b: EntityId) -> (r: Self)
        ensures
            r.id == id,
            r.participant_a == participant_a,
            r.participant_b == participant_b,
            r.created_at == r.last_active_at,
    {
        let at = now();
        ChatSession { id, participant_a, participant_b, created_at: at, last_active_at: at }
    }
}

} // verus!
