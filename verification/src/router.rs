//! The publish edge and the consumption-edge session filter of the
//! broadcast router.
//!
//! Fan-out itself is a shared broadcast channel: one producer side written
//! to by every connection and by the auto-responder, one consumer side per
//! connection. Delivery is best-effort and at-most-once — a bounded buffer
//! may drop messages for a lagging consumer, and history gaps are covered
//! only by store replay at connect time. The router is session-agnostic;
//! isolation is enforced per message at the consumption edge.

use vstd::prelude::*;
use crate::message::ChatMessage;
use crate::text::str_eq;

verus! {

/// tokio's broadcast sender, declared so the publish edge can hold one.
#[verifier::external_type_specification]
#[verifier::external_body]
#[verifier::reject_recursive_types(T)]
pub struct ExSender<T>(tokio::sync::broadcast::Sender<T>);

/// Relies on tokio::sync::broadcast::Sender::send: with no active
/// receiver the message comes back inside the error, otherwise the count
/// of active receivers at send time (at least one) is returned.
#[verifier::external_body]
fn send_to_subscribers(tx: &tokio::sync::broadcast::Sender<ChatMessage>, m: ChatMessage) -> (r:
    Result<usize, ChatMessage>)
    ensures
        r matches Ok(n) ==> n >= 1,
        r matches Err(back) ==> back == m,
{
    match tx.send(m) {
        Ok(n) => Ok(n),
        Err(tokio::sync::broadcast::error::SendError(back)) => Err(back),
    }
}

/// Outcome of a publish. The absence of subscribers is a named non-error:
/// the message is dropped for live delivery but has already been
/// persisted, so nothing is lost historically.
pub enum PublishOutcome {
    /// The channel accepted the message; this many subscribers were
    /// active at that moment (each still receives it only best-effort).
    Delivered { receivers: usize },
    /// No subscriber was active; the message is dropped for live
    /// delivery.
    NoSubscribers,
}

/// Publishes one message to every current subscriber of the channel.
/// Never blocks and never fails: zero subscribers is the `NoSubscribers`
/// outcome, not an error.
pub fn publish(tx: &tokio::sync::broadcast::Sender<ChatMessage>, m: ChatMessage) -> (r:
    PublishOutcome)
    ensures
        r matches PublishOutcome::Delivered { receivers } ==> receivers >= 1,
{
    match send_to_subscribers(tx, m) {
        Ok(n) => PublishOutcome::Delivered { receivers: n },
        Err(_) => PublishOutcome::NoSubscribers,
    }
}

/// The consumption-edge filter: a received message is delivered to a
/// connection exactly when the message's session is the connection's.
pub open spec fn spec_should_deliver(msg_session: Seq<char>, conn_session: Seq<char>) -> bool {
    msg_session == conn_session
}

/// Decides whether this connection's outbound loop writes `m` to its
/// client.
pub fn should_deliver(m: &ChatMessage, connection_session: &str) -> (r: bool)
    ensures
        r == spec_should_deliver(m.session_id@, connection_session@),
{
    str_eq(m.session_id.as_str(), connection_session)
}

/// Session isolation: a message tagged with one session is never
/// delivered to a connection mapped to a different session.
pub proof fn lemma_session_isolation(m: ChatMessage, s1: Seq<char>, s2: Seq<char>)
    requires
        m.session_id@ == s1,
        s1 != s2,
    ensures
        !spec_should_deliver(m.session_id@, s2),
{
}

} // verus!
