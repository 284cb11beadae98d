//! Events emitted for relayers and observers.  Events are purely
//! observational: the handler never reads them back.

use vstd::prelude::*;
use crate::height::Height;
use crate::packet::{Packet, PacketView};

verus! {

/// The mathematical value of a [`SendPacket`] event.
#[verifier::ext_equal]
pub struct SendPacketView {
    pub height: Height,
    pub packet: PacketView,
}

/// The event recording that a packet became sendable: the height the send
/// was validated against, and the packet itself.
#[derive(Debug, PartialEq, Eq)]
pub struct SendPacket {
    pub height: Height,
    pub packet: Packet,
}

impl View for SendPacket {
    type V = SendPacketView;

    open spec fn view(&self) -> SendPacketView {
        SendPacketView { height: self.height, packet: self.packet@ }
    }
}

/// The mathematical value of an [`IbcEvent`].
#[verifier::ext_equal]
pub enum IbcEventView {
    SendPacket(SendPacketView),
}

/// A tagged event of the packet lifecycle.
#[derive(Debug, PartialEq, Eq)]
pub enum IbcEvent {
    SendPacket(SendPacket),
}

impl View for IbcEvent {
    type V = IbcEventView;

    open spec fn view(&self) -> IbcEventView {
        match self {
            IbcEvent::SendPacket(e) => IbcEventView::SendPacket(e@),
        }
    }
}

} // verus!
