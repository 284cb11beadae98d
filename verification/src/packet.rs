//! Packets and their sequence numbers.  A packet is the unit of application
//! data committed on the source ledger for relay to the destination ledger.

use vstd::prelude::*;
use crate::height::Height;
use crate::identifier::{ChannelId, PortId};

verus! {

/// A per-channel, per-direction packet counter.  Counting starts at 1;
/// sequence 0 is reserved as invalid.
#[derive(Clone, Copy, PartialEq, Eq, Structural, Debug, Hash)]
pub struct Sequence(pub u64);

impl Sequence {
    /// True iff this is the reserved, invalid sequence.
    pub fn is_zero(&self) -> (r: bool)
        ensures
            r == (self.0 == 0),
    {
        self.0 == 0
    }
}

impl From<u64> for Sequence {
    fn from(value: u64) -> (r: Sequence) {
        Sequence(value)
    }
}

impl vstd::std_specs::convert::FromSpecImpl<u64> for Sequence {
    open spec fn obeys_from_spec() -> bool {
        true
    }

    open spec fn from_spec(value: u64) -> Sequence {
        Sequence(value)
    }
}

/// The mathematical value of a [`Packet`]: the same fields with identifiers
/// and data taken as sequences.
#[verifier::ext_equal]
pub struct PacketView {
    pub sequence: u64,
    pub source_port: Seq<char>,
    pub source_channel: Seq<char>,
    pub destination_port: Seq<char>,
    pub destination_channel: Seq<char>,
    pub data: Seq<u8>,
    pub timeout_height: Height,
    pub timeout_timestamp: u64,
}

/// An application message committed for relay: routing identifiers, opaque
/// payload bytes, and the two timeout bounds.  `timeout_height` is relative
/// to the sending ledger's current height; `timeout_timestamp` is a relative
/// number of nanoseconds, 0 meaning "no timestamp bound".
#[derive(Debug, PartialEq, Eq)]
pub struct Packet {
    pub sequence: Sequence,
    pub source_port: PortId,
    pub source_channel: ChannelId,
    pub destination_port: PortId,
    pub destination_channel: ChannelId,
    pub data: Vec<u8>,
    pub timeout_height: Height,
    pub timeout_timestamp: u64,
}

impl View for Packet {
    type V = PacketView;

    open spec fn view(&self) -> PacketView {
        PacketView {
            sequence: self.sequence.0,
            source_port: self.source_port@,
            source_channel: self.source_channel@,
            destination_port: self.destination_port@,
            destination_channel: self.destination_channel@,
            data: self.data@,
            timeout_height: self.timeout_height,
            timeout_timestamp: self.timeout_timestamp,
        }
    }
}

impl Clone for Packet {
    fn clone(&self) -> (r: Self)
        ensures
            r@ == self@,
    {
        let r = Packet {
            sequence: self.sequence,
            source_port: self.source_port.clone(),
            source_channel: self.source_channel.clone(),
            destination_port: self.destination_port.clone(),
            destination_channel: self.destination_channel.clone(),
            data: self.data.clone(),
            timeout_height: self.timeout_height,
            timeout_timestamp: self.timeout_timestamp,
        };
        proof {
            assert(r.data@ =~= self.data@);
            assert(r@ =~= self@);
        }
        r
    }
}

} // verus!
