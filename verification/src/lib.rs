//! Packet-lifecycle validation for an inter-ledger communication protocol.
//!
//! A packet committed on a source ledger may only be sent when a chain of
//! deterministic checks against the ledger's channel, connection and client
//! records succeeds.  The handler in [`send_packet`] performs those checks
//! against a read-only [`context::ChannelReader`] and either returns a
//! write-intent [`handler::HandlerOutput`] or the first failing check's
//! error, never mutating any state itself.

pub mod channel;
pub mod client;
pub mod conformance;
pub mod connection;
pub mod context;
pub mod error;
pub mod events;
pub mod handler;
pub mod height;
pub mod identifier;
pub mod mock;
pub mod packet;
pub mod send_packet;
