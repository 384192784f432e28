//! Connection lifecycle decisions: parameter validation, attribution of
//! inbound frames, the auto-responder consultation, and idempotent
//! teardown.
//!
//! The surrounding transport runs two concurrent loops per connection
//! (inbound reads, outbound writes); every decision those loops take is a
//! function here, from plain values to plain values.

use vstd::prelude::*;
use vstd::string::StringExecFns;
use crate::ids::fresh_id;
use crate::message::ChatMessage;
use crate::policy::should_ai_respond;
use crate::policy::spec_should_respond;

verus! {

/// How many persisted messages are replayed to a freshly connected
/// client.
pub const HISTORY_REPLAY_LIMIT: usize = 50;

/// How many recent messages are fetched as conversational context for the
/// auto-responder.
pub const CONTEXT_FETCH_LIMIT: usize = 10;

/// The artificial pacing wait, in milliseconds, before an automated reply
/// is published. It exists only to make replies feel paced; it must never
/// stall another connection's delivery.
pub const AI_REPLY_DELAY_MILLIS: u64 = 1000;

/// Why a connection attempt is rejected before any handshake.
#[derive(Debug, PartialEq, Eq, Structural)]
pub enum ConnectError {
    /// The display-name parameter was absent.
    MissingUsername,
    /// The unique-identity parameter was absent.
    MissingEmail,
}

/// The two required connect-time parameters.
pub struct ConnectRequest {
    pub username: String,
    pub email: String,
}

/// Validates the connect-time parameters. Both are required; a missing
/// one rejects the attempt outright (display name checked first), and the
/// client gets no handshake and no retry.
pub fn validate_connect(username: Option<String>, email: Option<String>) -> (r: Result<
    ConnectRequest,
    ConnectError,
>)
    ensures
        username is None ==> r == Err::<ConnectRequest, ConnectError>(
            ConnectError::MissingUsername,
        ),
        username is Some && email is None ==> r == Err::<ConnectRequest, ConnectError>(
            ConnectError::MissingEmail,
        ),
        username is Some && email is Some ==> (r matches Ok(c) && c.username == username.unwrap()
            && c.email == email.unwrap()),
{
    match (username, email) {
        (Some(u), Some(m)) => Ok(ConnectRequest { username: u, email: m }),
        (None, _) => Err(ConnectError::MissingUsername),
        (Some(_), None) => Err(ConnectError::MissingEmail),
    }
}

/// Lifecycle phases of one connection.
#[derive(Debug, PartialEq, Eq, Structural, Clone, Copy)]
pub enum ConnPhase {
    /// Parameters validated, session not yet attached.
    Connecting,
    /// Session attached, history replay may run.
    Registered,
    /// Both loops running.
    Streaming,
    /// A loop ended; teardown has begun.
    Closing,
    /// Teardown finished.
    Closed,
}

/// One connection's identity, session and lifecycle state.
pub struct Connection {
    pub username: String,
    pub email: String,
    pub session_id: String,
    pub phase: ConnPhase,
}

/// What the inbound loop does with one decoded frame.
pub enum InboundAction {
    /// The frame did not decode: skipped silently, nothing surfaces to
    /// the client.
    Skip,
    /// The frame was accepted: persist and publish `message`; when
    /// `respond` holds, the auto-responder then produces a reply.
    Accept { message: ChatMessage, respond: bool },
}

impl Connection {
    /// A connection whose parameters were accepted and whose session is
    /// attached.
    pub fn register(req: ConnectRequest, session_id: String) -> (c: Connection)
        ensures
            c.username == req.username,
            c.email == req.email,
            c.session_id == session_id,
            c.phase == ConnPhase::Registered,
    {
        Connection { username: req.username, email: req.email, session_id, phase: ConnPhase::Registered }
    }

    /// History replay is done; both loops start.
    pub fn start_streaming(&mut self)
        requires
            old(self).phase == ConnPhase::Registered,
        ensures
            final(self).phase == ConnPhase::Streaming,
            final(self).username == old(self).username,
            final(self).email == old(self).email,
            final(self).session_id == old(self).session_id,
    {
        self.phase = ConnPhase::Streaming;
    }

    /// Stamps an inbound frame with this connection's authoritative
    /// attribution: whatever the client claimed, the accepted message
    /// carries the connection's author and session and is never marked
    /// automated. Body, id and timestamp are kept as sent.
    pub fn attribute_inbound(&self, claimed: ChatMessage) -> (m: ChatMessage)
        ensures
            m.is_ai == false,
            m.session_id == self.session_id,
            m.username == self.username,
            m.id == claimed.id,
            m.message == claimed.message,
            m.timestamp == claimed.timestamp,
    {
        ChatMessage {
            id: claimed.id,
            username: self.username.clone(),
            message: claimed.message,
            timestamp: claimed.timestamp,
            is_ai: false,
            session_id: self.session_id.clone(),
        }
    }

    /// One step of the inbound loop: a frame that failed to decode is
    /// skipped silently; a decoded one is attributed to this connection
    /// and the auto-responder consulted on its body.
    pub fn plan_inbound(&self, decoded: Option<ChatMessage>) -> (a: InboundAction)
        ensures
            decoded is None ==> a == InboundAction::Skip,
            decoded matches Some(claimed) ==> (a matches InboundAction::Accept {
                message,
                respond,
            } && message.is_ai == false && message.session_id == self.session_id
                && message.username == self.username && message.id == claimed.id
                && message.message == claimed.message && message.timestamp == claimed.timestamp
                && respond == spec_should_respond(claimed.message@)),
    {
        match decoded {
            None => InboundAction::Skip,
            Some(claimed) => {
                let respond = should_ai_respond(claimed.message.as_str());
                let message = self.attribute_inbound(claimed);
                InboundAction::Accept { message, respond }
            },
        }
    }

    /// Begins teardown, exactly once: the first call says the caller must
    /// detach the session; any later call is a no-op. Either loop ending
    /// funnels through this latch, so a duplicate close never detaches
    /// twice.
    pub fn begin_teardown(&mut self) -> (run_detach: bool)
        ensures
            run_detach == (old(self).phase != ConnPhase::Closing && old(self).phase
                != ConnPhase::Closed),
            final(self).phase == if old(self).phase == ConnPhase::Closed {
                ConnPhase::Closed
            } else {
                ConnPhase::Closing
            },
            final(self).username == old(self).username,
            final(self).email == old(self).email,
            final(self).session_id == old(self).session_id,
    {
        match self.phase {
            ConnPhase::Closing => false,
            ConnPhase::Closed => false,
            _ => {
                self.phase = ConnPhase::Closing;
                true
            },
        }
    }

    /// Teardown is finished; the connection is gone.
    pub fn finish_teardown(&mut self)
        requires
            old(self).phase == ConnPhase::Closing,
        ensures
            final(self).phase == ConnPhase::Closed,
            final(self).username == old(self).username,
            final(self).email == old(self).email,
            final(self).session_id == old(self).session_id,
    {
        self.phase = ConnPhase::Closed;
    }
}

/// Synthesizes the automated reply message: a fresh id, the designated
/// assistant display name, the triggering message's session, the given
/// clock reading, and the automated flag set.
pub fn make_ai_message(reply: String, session_id: String, now_millis: u64) -> (m: ChatMessage)
    ensures
        m.is_ai == true,
        m.username@ == "AI Assistant"@,
        m.message == reply,
        m.timestamp == now_millis,
        m.session_id == session_id,
        m.id@.len() == 36,
{
    ChatMessage {
        id: fresh_id(),
        username: String::from_str("AI Assistant"),
        message: reply,
        timestamp: now_millis,
        is_ai: true,
        session_id,
    }
}

} // verus!
