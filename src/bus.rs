use crate::chat::ChatMessage;
use crate::entity::EntityId;
use vstd::prelude::*;

verus! {

/// What travels on the process-wide event bus.
#[derive(Debug, Clone)]
pub enum Event {
    /// A new chat message was sent.
    ChatMessage(ChatMessage),
    /// A system notification; with no target it is for everyone.
    SystemNotification { level: NotificationLevel, message: String, target: Option<EntityId> },
    /// A scheduled job triggered.
    ScheduledEvent { job_id: String, payload: String },
    /// The configuration changed.
    ConfigChanged,
}

#[derive(Debug, Clone, Copy, PartialEq, Eq, Structural)]
pub enum NotificationLevel {
    Info,
    Warning,
    Error,
    Success,
}

} // verus!
