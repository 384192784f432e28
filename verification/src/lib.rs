//! Session-scoped chat relay core.
//!
//! A group-chat relay accepts client connections, attributes every inbound
//! message to exactly one session, persists it, fans it out to the
//! subscribers of that session only, and may answer it with an automated
//! reply chosen by a trigger heuristic. This crate holds the verified core
//! of that pipeline: the message store and its chronological queries, the
//! identity-to-session registry, the auto-responder policy and prompt
//! builder, the publish/filter edge of the broadcast router, and the
//! connection lifecycle decisions. Transport, persistence I/O and the HTTP
//! call to the generation service live outside, behind plain-value
//! interfaces.

pub mod connection;
pub mod ids;
pub mod message;
pub mod policy;
pub mod prompt;
pub mod registry;
pub mod router;
pub mod store;
pub mod text;
