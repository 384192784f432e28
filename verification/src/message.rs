//! The two forms of a chat message: the live (wire) form that travels
//! between connections, and the persisted form held by the message store.

use vstd::prelude::*;

verus! {

/// Live form of one chat message, as routed between connections.
///
/// `timestamp` is an epoch-milliseconds value used for display ordering;
/// `session_id` names the isolation boundary the message belongs to.
pub struct ChatMessage {
    pub id: String,
    pub username: String,
    pub message: String,
    pub timestamp: u64,
    pub is_ai: bool,
    pub session_id: String,
}

impl Clone for ChatMessage {
    fn clone(&self) -> (r: Self)
        ensures
            r == *self,
    {
        ChatMessage {
            id: self.id.clone(),
            username: self.username.clone(),
            message: self.message.clone(),
            timestamp: self.timestamp,
            is_ai: self.is_ai,
            session_id: self.session_id.clone(),
        }
    }
}

/// Durable projection of a chat message: the same fields, immutable once
/// appended to the store. `timestamp` is epoch milliseconds.
pub struct PersistedMessage {
    pub id: String,
    pub username: String,
    pub message: String,
    pub timestamp: u64,
    pub is_ai: bool,
    pub session_id: String,
}

impl Clone for PersistedMessage {
    fn clone(&self) -> (r: Self)
        ensures
            r == *self,
    {
        PersistedMessage {
            id: self.id.clone(),
            username: self.username.clone(),
            message: self.message.clone(),
            timestamp: self.timestamp,
            is_ai: self.is_ai,
            session_id: self.session_id.clone(),
        }
    }
}

impl ChatMessage {
    /// The durable projection of this message, field for field.
    pub fn into_persisted(self) -> (p: PersistedMessage)
        ensures
            p.id == self.id,
            p.username == self.username,
            p.message == self.message,
            p.timestamp == self.timestamp,
            p.is_ai == self.is_ai,
            p.session_id == self.session_id,
    {
        PersistedMessage {
            id: self.id,
            username: self.username,
            message: self.message,
            timestamp: self.timestamp,
            is_ai: self.is_ai,
            session_id: self.session_id,
        }
    }
}

impl PersistedMessage {
    /// The live form of this persisted message, field for field, as sent
    /// to a client during history replay.
    pub fn into_wire(self) -> (m: ChatMessage)
        ensures
            m.id == self.id,
            m.username == self.username,
            m.message == self.message,
            m.timestamp == self.timestamp,
            m.is_ai == self.is_ai,
            m.session_id == self.session_id,
    {
        ChatMessage {
            id: self.id,
            username: self.username,
            message: self.message,
            timestamp: self.timestamp,
            is_ai: self.is_ai,
            session_id: self.session_id,
        }
    }
}

} // verus!
