//! The error taxonomy of the packet handler.  Every precondition violation
//! maps to one named kind, never to a generic failure, so that a caller can
//! tell exactly which check rejected the message.

use vstd::prelude::*;
use crate::height::Height;
use crate::identifier::{ChannelId, ClientId, ConnectionId, PortId};
use crate::packet::Sequence;

verus! {

/// The mathematical value of a [`Kind`], with identifier payloads taken as
/// character sequences.
#[verifier::ext_equal]
pub enum KindView {
    ZeroPacketSequence,
    ZeroPacketTimeout,
    ZeroPacketData,
    ChannelNotFound { port_id: Seq<char>, channel_id: Seq<char> },
    ChannelClosed { channel_id: Seq<char> },
    Unauthorized,
    InvalidPacketCounterparty { port_id: Seq<char>, channel_id: Seq<char> },
    MissingConnection { connection_id: Seq<char> },
    MissingClientState { client_id: Seq<char> },
    FrozenClient { client_id: Seq<char> },
    LowPacketHeight { latest_client_height: Height, timeout_height: Height },
    MissingClientConsensusState { client_id: Seq<char>, height: Height },
    MissingHostConsensusState,
    LowPacketTimestamp,
    MissingNextSendSeq,
    InvalidPacketSequence { got: u64, expected: u64 },
}

/// One named reason for rejecting a packet-lifecycle message, carrying the
/// records or values the failing check looked at.
#[derive(Debug, PartialEq, Eq)]
pub enum Kind {
    /// The packet carries the reserved sequence 0.
    ZeroPacketSequence,
    /// Neither a height-based nor a timestamp-based timeout was requested.
    ZeroPacketTimeout,
    /// The packet carries no application data.
    ZeroPacketData,
    /// No channel record exists for the packet's source (port, channel).
    ChannelNotFound(PortId, ChannelId),
    /// The source channel is closed.
    ChannelClosed(ChannelId),
    /// The caller holds no capability for the source port.
    Unauthorized,
    /// The stored counterparty does not match the one derived from the
    /// channel record itself.
    InvalidPacketCounterparty(PortId, ChannelId),
    /// The connection named by the channel's first hop does not exist.
    MissingConnection(ConnectionId),
    /// No state is stored for the connection's client.
    MissingClientState(ClientId),
    /// The connection's client was frozen on detected misbehaviour.
    FrozenClient(ClientId),
    /// The requested timeout height is already below the client's latest
    /// height; the payload carries that latest height and the packet's
    /// timeout height.
    LowPacketHeight(Height, Height),
    /// No consensus snapshot is stored for the client at its latest height.
    MissingClientConsensusState(ClientId, Height),
    /// The host ledger has no consensus snapshot of itself.
    MissingHostConsensusState,
    /// The requested timeout timestamp is already below the client's latest
    /// proven timestamp.
    LowPacketTimestamp,
    /// No next-send-sequence counter exists for the source (port, channel).
    MissingNextSendSeq,
    /// The packet's sequence is not the expected next one; the payload
    /// carries the got and the expected sequence.
    InvalidPacketSequence(Sequence, Sequence),
}

impl View for Kind {
    type V = KindView;

    open spec fn view(&self) -> KindView {
        match self {
            Kind::ZeroPacketSequence => KindView::ZeroPacketSequence,
            Kind::ZeroPacketTimeout => KindView::ZeroPacketTimeout,
            Kind::ZeroPacketData => KindView::ZeroPacketData,
            Kind::ChannelNotFound(p, c) => KindView::ChannelNotFound {
                port_id: p@,
                channel_id: c@,
            },
            Kind::ChannelClosed(c) => KindView::ChannelClosed { channel_id: c@ },
            Kind::Unauthorized => KindView::Unauthorized,
            Kind::InvalidPacketCounterparty(p, c) => KindView::InvalidPacketCounterparty {
                port_id: p@,
                channel_id: c@,
            },
            Kind::MissingConnection(c) => KindView::MissingConnection { connection_id: c@ },
            Kind::MissingClientState(c) => KindView::MissingClientState { client_id: c@ },
            Kind::FrozenClient(c) => KindView::FrozenClient { client_id: c@ },
            Kind::LowPacketHeight(latest, timeout) => KindView::LowPacketHeight {
                latest_client_height: *latest,
                timeout_height: *timeout,
            },
            Kind::MissingClientConsensusState(c, h) => KindView::MissingClientConsensusState {
                client_id: c@,
                height: *h,
            },
            Kind::MissingHostConsensusState => KindView::MissingHostConsensusState,
            Kind::LowPacketTimestamp => KindView::LowPacketTimestamp,
            Kind::MissingNextSendSeq => KindView::MissingNextSendSeq,
            Kind::InvalidPacketSequence(got, expected) => KindView::InvalidPacketSequence {
                got: got.0,
                expected: expected.0,
            },
        }
    }
}

/// A handler error: exactly one named kind.
#[derive(Debug, PartialEq, Eq)]
pub struct Error {
    pub kind: Kind,
}

impl Error {
    pub fn new(kind: Kind) -> (r: Error)
        ensures
            r == (Error { kind }),
    {
        Error { kind }
    }

    /// The named reason this error reports.
    pub fn kind(&self) -> (r: &Kind)
        ensures
            *r == self.kind,
    {
        &self.kind
    }
}

} // verus!
