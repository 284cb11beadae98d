use ibc_packet::channel::{ChannelEnd, Counterparty, Order, State};
use ibc_packet::client::{ClientState, ConsensusState, Timestamp};
use ibc_packet::connection::get_compatible_versions;
use ibc_packet::connection::Counterparty as ConnectionCounterparty;
use ibc_packet::connection::State as ConnectionState;
use ibc_packet::connection::ConnectionEnd;
use ibc_packet::error::Kind;
use ibc_packet::events::IbcEvent;
use ibc_packet::height::Height;
use ibc_packet::identifier::{ChannelId, ClientId, ConnectionId, PortId};
use ibc_packet::mock::{MockClientRecord, MockContext};
use ibc_packet::packet::{Packet, Sequence};
use ibc_packet::send_packet::send_packet;

fn default_packet() -> Packet {
    Packet {
        sequence: Sequence::from(1),
        source_port: PortId::default(),
        source_channel: ChannelId::default(),
        destination_port: PortId::default(),
        destination_channel: ChannelId::default(),
        data: vec![0],
        timeout_height: Height::default(),
        timeout_timestamp: 6,
    }
}

fn default_channel_end() -> ChannelEnd {
    ChannelEnd::new(
        State::TryOpen,
        Order::default(),
        Counterparty::new(PortId::default(), Some(ChannelId::default())),
        vec![ConnectionId::default()],
        "ics20".to_string(),
    )
}

fn default_connection_end() -> ConnectionEnd {
    ConnectionEnd::new(
        ConnectionState::Open,
        ClientId::default(),
        ConnectionCounterparty::new(
            ClientId::default(),
            Some(ConnectionId::default()),
            Default::default(),
        ),
        get_compatible_versions(),
        0,
    )
}

/// A context on which `default_packet` passes every check, with the
/// next-send counter at `next`.
fn good_context(next: u64) -> MockContext {
    MockContext::default()
        .with_client(&ClientId::default(), Height::default())
        .with_connection(ConnectionId::default(), default_connection_end())
        .with_port_capability(PortId::default())
        .with_channel(PortId::default(), ChannelId::default(), default_channel_end())
        .with_send_sequence(PortId::default(), ChannelId::default(), next)
}

#[test]
fn zero_sequence_rejected() {
    let mut packet = default_packet();
    packet.sequence = Sequence::from(0);
    let res = send_packet(&good_context(1), packet);
    assert_eq!(res.err().unwrap().kind, Kind::ZeroPacketSequence);
}

#[test]
fn zero_timeout_rejected() {
    let mut packet = default_packet();
    packet.timeout_height = Height::new(0, 0);
    packet.timeout_timestamp = 0;
    let res = send_packet(&good_context(1), packet);
    assert_eq!(res.err().unwrap().kind, Kind::ZeroPacketTimeout);
}

#[test]
fn zero_data_rejected() {
    let mut packet = default_packet();
    packet.data = vec![];
    let res = send_packet(&good_context(1), packet);
    assert_eq!(res.err().unwrap().kind, Kind::ZeroPacketData);
}

#[test]
fn rejection_is_idempotent() {
    // An unmodified context and an already-invalid packet: the same error
    // kind comes back on both calls.
    let ctx = MockContext::default();
    let first = send_packet(&ctx, default_packet()).err().unwrap();
    let second = send_packet(&ctx, default_packet()).err().unwrap();
    assert_eq!(first.kind, second.kind);
    assert_eq!(
        first.kind,
        Kind::ChannelNotFound(PortId::default(), ChannelId::default())
    );
}

#[test]
fn monotonic_sequencing() {
    // With the counter at 2, only sequence 2 is accepted, yielding counter 3;
    // sequences 1 and 3 are rejected with got and expected values.
    let ctx = good_context(2);

    let mut accepted = default_packet();
    accepted.sequence = Sequence::from(2);
    let output = send_packet(&ctx, accepted).unwrap();
    assert_eq!(output.result.send_seq_number, Sequence::from(3));

    let mut low = default_packet();
    low.sequence = Sequence::from(1);
    assert_eq!(
        send_packet(&ctx, low).err().unwrap().kind,
        Kind::InvalidPacketSequence(Sequence::from(1), Sequence::from(2))
    );

    let mut high = default_packet();
    high.sequence = Sequence::from(3);
    assert_eq!(
        send_packet(&ctx, high).err().unwrap().kind,
        Kind::InvalidPacketSequence(Sequence::from(3), Sequence::from(2))
    );
}

#[test]
fn frozen_client_rejected() {
    let ctx = MockContext::default()
        .with_frozen_client(&ClientId::default(), Height::default())
        .with_connection(ConnectionId::default(), default_connection_end())
        .with_port_capability(PortId::default())
        .with_channel(PortId::default(), ChannelId::default(), default_channel_end())
        .with_send_sequence(PortId::default(), ChannelId::default(), 1);
    let res = send_packet(&ctx, default_packet());
    assert_eq!(res.err().unwrap().kind, Kind::FrozenClient(ClientId::default()));
}

#[test]
fn missing_channel_rejected() {
    // Scenario: an empty context and the default packet.
    let res = send_packet(&MockContext::default(), default_packet());
    assert_eq!(
        res.err().unwrap().kind,
        Kind::ChannelNotFound(PortId::default(), ChannelId::default())
    );
}

#[test]
fn missing_capability_rejected() {
    // Scenario: the channel is registered but no capability was granted.
    let ctx = MockContext::default().with_channel(
        PortId::default(),
        ChannelId::default(),
        default_channel_end(),
    );
    let res = send_packet(&ctx, default_packet());
    assert_eq!(res.err().unwrap().kind, Kind::Unauthorized);
}

#[test]
fn good_parameters_accepted() {
    // Scenario: every record registered and the counter at 1; the send is
    // accepted, the counter advances to 2, and exactly one SendPacket event
    // carries the packet at the validated height.
    let packet = default_packet();
    let output = send_packet(&good_context(1), packet.clone()).unwrap();
    assert_eq!(output.result.send_seq_number, Sequence::from(2));
    assert_eq!(output.result.port_id, PortId::default());
    assert_eq!(output.result.channel_id, ChannelId::default());
    assert_eq!(output.result.data, vec![0]);
    assert_eq!(output.result.timeout_height, Height::new(0, 0));
    assert_eq!(output.result.timeout_timestamp, 6);
    assert_eq!(output.events.len(), 1);
    match &output.events[0] {
        IbcEvent::SendPacket(e) => {
            // Host height (0, 1) plus the zero relative timeout height.
            assert_eq!(e.height, Height::new(0, 1));
            assert_eq!(e.packet, packet);
        }
    }
    assert_eq!(output.log.len(), 1);
    assert_eq!(output.log[0], "success: packet send ");
}

#[test]
fn zero_timeout_precedes_zero_data() {
    // Scenario: a good context, but the packet has empty data and no
    // timeout at all; the timeout check runs before the data check.
    let mut packet = default_packet();
    packet.data = vec![];
    packet.timeout_timestamp = 0;
    let res = send_packet(&good_context(1), packet);
    assert_eq!(res.err().unwrap().kind, Kind::ZeroPacketTimeout);
}

#[test]
fn closed_channel_rejected() {
    let channel_end = ChannelEnd::new(
        State::Closed,
        Order::default(),
        Counterparty::new(PortId::default(), Some(ChannelId::default())),
        vec![ConnectionId::default()],
        "ics20".to_string(),
    );
    let ctx = MockContext::default().with_channel(
        PortId::default(),
        ChannelId::default(),
        channel_end,
    );
    let res = send_packet(&ctx, default_packet());
    assert_eq!(res.err().unwrap().kind, Kind::ChannelClosed(ChannelId::default()));
}

#[test]
fn missing_connection_rejected() {
    let ctx = MockContext::default()
        .with_port_capability(PortId::default())
        .with_channel(PortId::default(), ChannelId::default(), default_channel_end());
    let res = send_packet(&ctx, default_packet());
    assert_eq!(
        res.err().unwrap().kind,
        Kind::MissingConnection(ConnectionId::default())
    );
}

#[test]
fn missing_client_state_rejected() {
    let ctx = MockContext::default()
        .with_connection(ConnectionId::default(), default_connection_end())
        .with_port_capability(PortId::default())
        .with_channel(PortId::default(), ChannelId::default(), default_channel_end());
    let res = send_packet(&ctx, default_packet());
    assert_eq!(res.err().unwrap().kind, Kind::MissingClientState(ClientId::default()));
}

#[test]
fn low_timeout_height_rejected() {
    // The client is already at height (0, 100); a relative timeout of 5
    // blocks from host height (0, 1) would expire before it could be
    // relayed.
    let ctx = MockContext::default()
        .with_client(&ClientId::default(), Height::new(0, 100))
        .with_connection(ConnectionId::default(), default_connection_end())
        .with_port_capability(PortId::default())
        .with_channel(PortId::default(), ChannelId::default(), default_channel_end())
        .with_send_sequence(PortId::default(), ChannelId::default(), 1);
    let mut packet = default_packet();
    packet.timeout_height = Height::new(0, 5);
    let res = send_packet(&ctx, packet);
    assert_eq!(
        res.err().unwrap().kind,
        Kind::LowPacketHeight(Height::new(0, 100), Height::new(0, 5))
    );
}

#[test]
fn missing_client_consensus_state_rejected() {
    // A client whose record lacks the snapshot at its latest height.
    let mut ctx = MockContext::default()
        .with_connection(ConnectionId::default(), default_connection_end())
        .with_port_capability(PortId::default())
        .with_channel(PortId::default(), ChannelId::default(), default_channel_end());
    ctx.clients.push((
        ClientId::default(),
        MockClientRecord {
            client_state: ClientState::new(Height::default(), false),
            consensus_states: vec![],
        },
    ));
    let res = send_packet(&ctx, default_packet());
    assert_eq!(
        res.err().unwrap().kind,
        Kind::MissingClientConsensusState(ClientId::default(), Height::default())
    );
}

#[test]
fn missing_host_consensus_state_rejected() {
    let mut ctx = good_context(1);
    ctx.host_consensus_state = None;
    let res = send_packet(&ctx, default_packet());
    assert_eq!(res.err().unwrap().kind, Kind::MissingHostConsensusState);
}

#[test]
fn low_timeout_timestamp_rejected() {
    // The client's latest snapshot is at 1000 ns; a relative timeout of 6 ns
    // from the host's snapshot at 0 ns lies in the counterparty's past.
    let mut ctx = MockContext::default()
        .with_connection(ConnectionId::default(), default_connection_end())
        .with_port_capability(PortId::default())
        .with_channel(PortId::default(), ChannelId::default(), default_channel_end())
        .with_send_sequence(PortId::default(), ChannelId::default(), 1);
    ctx.clients.push((
        ClientId::default(),
        MockClientRecord {
            client_state: ClientState::new(Height::default(), false),
            consensus_states: vec![(
                Height::default(),
                ConsensusState::new(Timestamp::new(1000)),
            )],
        },
    ));
    let res = send_packet(&ctx, default_packet());
    assert_eq!(res.err().unwrap().kind, Kind::LowPacketTimestamp);
}

#[test]
fn missing_send_sequence_rejected() {
    let ctx = MockContext::default()
        .with_client(&ClientId::default(), Height::default())
        .with_connection(ConnectionId::default(), default_connection_end())
        .with_port_capability(PortId::default())
        .with_channel(PortId::default(), ChannelId::default(), default_channel_end());
    let res = send_packet(&ctx, default_packet());
    assert_eq!(res.err().unwrap().kind, Kind::MissingNextSendSeq);
}
