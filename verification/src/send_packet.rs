//! Validation of a packet send.  `send_packet` is a pure function of the
//! read-only context and the packet: it either returns the first failing
//! check's error, or a write-intent [`PacketResult`] plus a `SendPacket`
//! event, and mutates nothing itself.

use vstd::prelude::*;
use crate::channel::{Counterparty, State};
use crate::context::ChannelReader;
use crate::error::{Error, Kind, KindView};
use crate::events::{IbcEvent, IbcEventView, SendPacket, SendPacketView};
use crate::handler::{HandlerOutput, HandlerResult};
use crate::height::Height;
use crate::identifier::{ChannelId, PortId};
use crate::packet::{Packet, PacketView, Sequence};

verus! {

/// The mathematical value of a [`PacketResult`].
#[verifier::ext_equal]
pub struct PacketResultView {
    pub port_id: Seq<char>,
    pub channel_id: Seq<char>,
    pub send_seq_number: u64,
    pub data: Seq<u8>,
    pub timeout_height: Height,
    pub timeout_timestamp: u64,
}

/// The write-intent a successful send returns: the caller must persist
/// `send_seq_number` as the new next-send counter and commit the packet's
/// data and timeouts under (port, channel, sequence).
#[derive(Debug, PartialEq, Eq)]
pub struct PacketResult {
    pub port_id: PortId,
    pub channel_id: ChannelId,
    pub send_seq_number: Sequence,
    pub data: Vec<u8>,
    pub timeout_height: Height,
    pub timeout_timestamp: u64,
}

impl View for PacketResult {
    type V = PacketResultView;

    open spec fn view(&self) -> PacketResultView {
        PacketResultView {
            port_id: self.port_id@,
            channel_id: self.channel_id@,
            send_seq_number: self.send_seq_number.0,
            data: self.data@,
            timeout_height: self.timeout_height,
            timeout_timestamp: self.timeout_timestamp,
        }
    }
}

/// What the stored records force `send_packet` to assume of them: a stored
/// channel names at least one connection hop (channel records are created
/// only by the handshake, which writes exactly one), and a send counter has
/// room for one more packet.
pub open spec fn send_ctx_wf<Ctx: ChannelReader>(
    ctx: &Ctx,
    port: Seq<char>,
    channel: Seq<char>,
) -> bool {
    &&& (ctx.spec_channel_end(port, channel) matches Some(chan)
        ==> chan.connection_hops.len() > 0)
    &&& (ctx.spec_next_sequence_send(port, channel) matches Some(next) ==> next < u64::MAX)
}

/// The outcome the checks of a send determine, in their fixed order: either
/// the first failing check's error kind, or the new next-send counter
/// together with the height the send was validated against.
pub open spec fn send_packet_outcome<Ctx: ChannelReader>(
    ctx: &Ctx,
    packet: PacketView,
) -> Result<(u64, Height), KindView> {
    if packet.sequence == 0 {
        Err(KindView::ZeroPacketSequence)
    } else if packet.timeout_height.spec_is_zero() && packet.timeout_timestamp == 0 {
        Err(KindView::ZeroPacketTimeout)
    } else if packet.data.len() == 0 {
        Err(KindView::ZeroPacketData)
    } else {
        match ctx.spec_channel_end(packet.source_port, packet.source_channel) {
            None => Err(KindView::ChannelNotFound {
                port_id: packet.source_port,
                channel_id: packet.source_channel,
            }),
            Some(chan) => {
                if chan.state is Closed {
                    Err(KindView::ChannelClosed { channel_id: packet.source_channel })
                } else if !ctx.spec_has_capability(packet.source_port) {
                    Err(KindView::Unauthorized)
                } else {
                    match ctx.spec_connection_end(chan.connection_hops[0]) {
                        None => Err(KindView::MissingConnection {
                            connection_id: chan.connection_hops[0],
                        }),
                        Some(conn) => send_packet_client_outcome(ctx, packet, conn.client_id),
                    }
                }
            },
        }
    }
}

/// The tail of the checks, once the channel and connection records are
/// resolved: client presence and freezing, the two timeout bounds, and the
/// sequence counter.
pub open spec fn send_packet_client_outcome<Ctx: ChannelReader>(
    ctx: &Ctx,
    packet: PacketView,
    client_id: Seq<char>,
) -> Result<(u64, Height), KindView> {
    match ctx.spec_client_state(client_id) {
        None => Err(KindView::MissingClientState { client_id }),
        Some(client) => {
            if client.frozen {
                Err(KindView::FrozenClient { client_id })
            } else {
                let latest_height = client.latest_height;
                let packet_height = ctx.spec_host_current_height().spec_add(
                    packet.timeout_height.revision_height,
                );
                if !packet.timeout_height.spec_is_zero() && packet_height.spec_lt(latest_height) {
                    Err(KindView::LowPacketHeight {
                        latest_client_height: latest_height,
                        timeout_height: packet.timeout_height,
                    })
                } else {
                    match ctx.spec_client_consensus_state(client_id, latest_height) {
                        None => Err(KindView::MissingClientConsensusState {
                            client_id,
                            height: latest_height,
                        }),
                        Some(consensus) => match ctx.spec_host_consensus_state() {
                            None => Err(KindView::MissingHostConsensusState),
                            Some(host_consensus) => {
                                let packet_timestamp = host_consensus.timestamp.spec_add_nanos(
                                    packet.timeout_timestamp,
                                );
                                if packet.timeout_timestamp != 0
                                    && packet_timestamp.nanoseconds
                                        < consensus.timestamp.nanoseconds {
                                    Err(KindView::LowPacketTimestamp)
                                } else {
                                    match ctx.spec_next_sequence_send(
                                        packet.source_port,
                                        packet.source_channel,
                                    ) {
                                        None => Err(KindView::MissingNextSendSeq),
                                        Some(next) => {
                                            if packet.sequence != next {
                                                Err(KindView::InvalidPacketSequence {
                                                    got: packet.sequence,
                                                    expected: next,
                                                })
                                            } else {
                                                Ok(((next + 1) as u64, packet_height))
                                            }
                                        },
                                    }
                                }
                            },
                        },
                    }
                }
            }
        },
    }
}

/// Everything `send_packet` promises of its result: the error kind equals
/// the outcome's, and on success the output carries exactly the write
/// intent, one `SendPacket` event with the packet, and one log line.
pub open spec fn send_packet_post<Ctx: ChannelReader>(
    ctx: &Ctx,
    packet: PacketView,
    r: HandlerResult<PacketResult, Error>,
) -> bool {
    match send_packet_outcome(ctx, packet) {
        Err(kind) => r matches Err(e) && e.kind@ == kind,
        Ok(success) => r matches Ok(out) && {
            &&& out.result@ == (PacketResultView {
                port_id: packet.source_port,
                channel_id: packet.source_channel,
                send_seq_number: success.0,
                data: packet.data,
                timeout_height: packet.timeout_height,
                timeout_timestamp: packet.timeout_timestamp,
            })
            &&& out.events@.len() == 1
            &&& out.events@[0]@ == IbcEventView::SendPacket(SendPacketView {
                height: success.1,
                packet,
            })
            &&& out.log@.len() == 1
            &&& out.log@[0]@ == "success: packet send "@
        },
    }
}

/// Validates that `packet` may be sent over its source channel, reading
/// records through `ctx` only.  The checks run in a fixed order and the
/// first failure is returned as its named error; on success the output's
/// counter is the stored next-send sequence plus one.
pub fn send_packet<Ctx: ChannelReader>(ctx: &Ctx, packet: Packet) -> (r: HandlerResult<
    PacketResult,
    Error,
>)
    requires
        send_ctx_wf(ctx, packet.source_port@, packet.source_channel@),
    ensures
        send_packet_post(ctx, packet@, r),
{
    let mut output = HandlerOutput::<PacketResult>::builder();

    if packet.sequence.is_zero() {
        return Err(Error::new(Kind::ZeroPacketSequence));
    }
    if packet.timeout_height.is_zero() && packet.timeout_timestamp == 0 {
        return Err(Error::new(Kind::ZeroPacketTimeout));
    }
    if packet.data.len() == 0 {
        return Err(Error::new(Kind::ZeroPacketData));
    }

    let source_channel_end = match ctx.channel_end(
        &(packet.source_port.clone(), packet.source_channel.clone()),
    ) {
        Some(ce) => ce,
        None => {
            return Err(Error::new(Kind::ChannelNotFound(
                packet.source_port,
                packet.source_channel,
            )));
        },
    };

    if source_channel_end.state_matches(&State::Closed) {
        return Err(Error::new(Kind::ChannelClosed(packet.source_channel)));
    }

    let _channel_cap = match ctx.authenticated_capability(&packet.source_port) {
        Ok(cap) => cap,
        Err(e) => {
            return Err(e);
        },
    };

    // Self-consistency check on the stored counterparty.  The comparand is
    // rebuilt from the record's own fields, so the check can never fail; the
    // contract reflects that by giving the rejection no outcome.
    let counterparty_channel_id = match source_channel_end.counterparty().channel_id() {
        Some(c) => Some(c.clone()),
        None => None,
    };
    let counterparty = Counterparty::new(
        source_channel_end.counterparty().port_id().clone(),
        counterparty_channel_id,
    );
    if !source_channel_end.counterparty_matches(&counterparty) {
        return Err(Error::new(Kind::InvalidPacketCounterparty(
            packet.source_port,
            packet.source_channel,
        )));
    }

    let hop = source_channel_end.connection_hops()[0].clone();
    let connection_end = match ctx.connection_end(&hop) {
        Some(ce) => ce,
        None => {
            return Err(Error::new(Kind::MissingConnection(hop)));
        },
    };

    let client_id = connection_end.client_id().clone();
    let client_state = match ctx.client_state(&client_id) {
        Some(cs) => cs,
        None => {
            return Err(Error::new(Kind::MissingClientState(client_id)));
        },
    };

    // A frozen client signals detected misbehaviour: nothing sent through it
    // could ever be proven on the counterparty.
    if client_state.is_frozen() {
        return Err(Error::new(Kind::FrozenClient(client_id)));
    }

    // Height-based timeout: the packet's timeout height is relative to the
    // host's current height; only its revision_height field enters the sum.
    let latest_height = client_state.latest_height();
    let packet_height = ctx.channel_host_current_height().add(
        packet.timeout_height.revision_height,
    );
    if !packet.timeout_height.is_zero() && packet_height.lt(&latest_height) {
        return Err(Error::new(Kind::LowPacketHeight(latest_height, packet.timeout_height)));
    }

    // Timestamp-based timeout, against the client's snapshot at its latest
    // height and the host's own latest snapshot.
    let consensus_state = match ctx.client_consensus_state(&client_id, latest_height) {
        Some(cs) => cs,
        None => {
            return Err(Error::new(Kind::MissingClientConsensusState(client_id, latest_height)));
        },
    };
    let latest_timestamp = consensus_state.latest_timestamp();
    let host_consensus_state = match ctx.channel_host_consensus_state() {
        Some(cs) => cs,
        None => {
            return Err(Error::new(Kind::MissingHostConsensusState));
        },
    };
    let packet_timestamp = host_consensus_state.latest_timestamp().add_nanos(
        packet.timeout_timestamp,
    );
    if packet.timeout_timestamp != 0 && packet_timestamp.lt(&latest_timestamp) {
        return Err(Error::new(Kind::LowPacketTimestamp));
    }

    // Sends must be strictly in order: only the stored next sequence is
    // accepted.
    let next_seq_send = match ctx.get_next_sequence_send(
        &(packet.source_port.clone(), packet.source_channel.clone()),
    ) {
        Some(s) => s,
        None => {
            return Err(Error::new(Kind::MissingNextSendSeq));
        },
    };
    if packet.sequence.0 != next_seq_send.0 {
        return Err(Error::new(Kind::InvalidPacketSequence(packet.sequence, next_seq_send)));
    }

    output.log("success: packet send ");

    let data = packet.data.clone();
    proof {
        assert(data@ =~= packet.data@);
    }
    let result = PacketResult {
        port_id: packet.source_port.clone(),
        channel_id: packet.source_channel.clone(),
        send_seq_number: Sequence(next_seq_send.0 + 1),
        data,
        timeout_height: packet.timeout_height,
        timeout_timestamp: packet.timeout_timestamp,
    };
    let ghost packet_view = packet@;
    output.emit(IbcEvent::SendPacket(SendPacket { height: packet_height, packet }));
    let out = output.with_result(result);
    proof {
        assert(out.result@ =~= (PacketResultView {
            port_id: packet_view.source_port,
            channel_id: packet_view.source_channel,
            send_seq_number: out.result.send_seq_number.0,
            data: packet_view.data,
            timeout_height: packet_view.timeout_height,
            timeout_timestamp: packet_view.timeout_timestamp,
        }));
    }
    Ok(out)
}

/// Law: a packet with the reserved sequence 0 is rejected as
/// `ZeroPacketSequence`, whatever its other fields and the context hold.
pub proof fn lemma_zero_sequence_rejected<Ctx: ChannelReader>(ctx: &Ctx, packet: PacketView)
    requires
        packet.sequence == 0,
    ensures
        send_packet_outcome(ctx, packet) == Result::<(u64, Height), KindView>::Err(
            KindView::ZeroPacketSequence,
        ),
{
}

/// Law: a packet that requests neither timeout bound is rejected as
/// `ZeroPacketTimeout`, whatever its other fields and the context hold —
/// except that the sequence check runs first, so a zero sequence is
/// reported instead.
pub proof fn lemma_zero_timeout_rejected<Ctx: ChannelReader>(ctx: &Ctx, packet: PacketView)
    requires
        packet.sequence != 0,
        packet.timeout_height.spec_is_zero(),
        packet.timeout_timestamp == 0,
    ensures
        send_packet_outcome(ctx, packet) == Result::<(u64, Height), KindView>::Err(
            KindView::ZeroPacketTimeout,
        ),
{
}

/// Law: a packet with no data is rejected as `ZeroPacketData`, whatever its
/// other fields and the context hold — except that the sequence and timeout
/// checks run first, so their rejections take precedence.
pub proof fn lemma_zero_data_rejected<Ctx: ChannelReader>(ctx: &Ctx, packet: PacketView)
    requires
        packet.sequence != 0,
        !(packet.timeout_height.spec_is_zero() && packet.timeout_timestamp == 0),
        packet.data.len() == 0,
    ensures
        send_packet_outcome(ctx, packet) == Result::<(u64, Height), KindView>::Err(
            KindView::ZeroPacketData,
        ),
{
}

/// Law: rejection is idempotent.  Any two results the contract of
/// `send_packet` admits for the same context and packet agree: if one is an
/// error, so is the other, with the same error kind.
pub proof fn lemma_rejection_idempotent<Ctx: ChannelReader>(
    ctx: &Ctx,
    packet: PacketView,
    r1: HandlerResult<PacketResult, Error>,
    r2: HandlerResult<PacketResult, Error>,
)
    requires
        send_packet_post(ctx, packet, r1),
        send_packet_post(ctx, packet, r2),
        r1 is Err,
    ensures
        r2 is Err,
        r1->Err_0.kind@ == r2->Err_0.kind@,
{
}

/// Law: sequencing is monotonic.  When a send is accepted, its sequence is
/// exactly the stored next-send counter, the returned counter is that value
/// plus one, and the same packet with any other non-zero sequence is
/// rejected as `InvalidPacketSequence` carrying the got and the expected
/// value.
pub proof fn lemma_monotonic_sequencing<Ctx: ChannelReader>(
    ctx: &Ctx,
    packet: PacketView,
    other: u64,
)
    requires
        send_ctx_wf(ctx, packet.source_port, packet.source_channel),
        send_packet_outcome(ctx, packet) is Ok,
        other != packet.sequence,
        other != 0,
    ensures
        ctx.spec_next_sequence_send(packet.source_port, packet.source_channel)
            == Some(packet.sequence),
        send_packet_outcome(ctx, packet)->Ok_0.0 == packet.sequence + 1,
        send_packet_outcome(ctx, PacketView { sequence: other, ..packet })
            == Result::<(u64, Height), KindView>::Err(KindView::InvalidPacketSequence {
            got: other,
            expected: packet.sequence,
        }),
{
}

/// Law: the counterparty self-consistency check can never fire.  The
/// comparand is rebuilt from the stored record's own fields, so no context
/// and no packet make `send_packet` report `InvalidPacketCounterparty`; the
/// check only guards against a future divergent storage of counterparties.
pub proof fn lemma_counterparty_check_tautological<Ctx: ChannelReader>(
    ctx: &Ctx,
    packet: PacketView,
)
    ensures
        !(send_packet_outcome(ctx, packet) matches Err(k)
            && k is InvalidPacketCounterparty),
{
}

/// Law: a frozen client rejects the send.  Once the basic checks pass and
/// the channel, connection and client records resolve, a frozen client
/// state yields `FrozenClient`, whatever the timeout and sequence fields
/// hold.
pub proof fn lemma_frozen_client_rejected<Ctx: ChannelReader>(
    ctx: &Ctx,
    packet: PacketView,
    chan: crate::channel::ChannelEndView,
    conn: crate::connection::ConnectionEndView,
    client: crate::client::ClientState,
)
    requires
        packet.sequence != 0,
        !(packet.timeout_height.spec_is_zero() && packet.timeout_timestamp == 0),
        packet.data.len() > 0,
        ctx.spec_channel_end(packet.source_port, packet.source_channel) == Some(chan),
        !(chan.state is Closed),
        ctx.spec_has_capability(packet.source_port),
        ctx.spec_connection_end(chan.connection_hops[0]) == Some(conn),
        ctx.spec_client_state(conn.client_id) == Some(client),
        client.frozen,
    ensures
        send_packet_outcome(ctx, packet) == Result::<(u64, Height), KindView>::Err(
            KindView::FrozenClient { client_id: conn.client_id },
        ),
{
}

} // verus!
