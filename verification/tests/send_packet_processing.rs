use ibc_packet::channel::{ChannelEnd, Counterparty, Order, State};
use ibc_packet::connection::get_compatible_versions;
use ibc_packet::connection::Counterparty as ConnectionCounterparty;
use ibc_packet::connection::State as ConnectionState;
use ibc_packet::connection::ConnectionEnd;
use ibc_packet::events::IbcEvent;
use ibc_packet::height::Height;
use ibc_packet::identifier::{ChannelId, ClientId, ConnectionId, PortId};
use ibc_packet::mock::MockContext;
use ibc_packet::packet::{Packet, Sequence};
use ibc_packet::send_packet::send_packet;

struct Test {
    name: String,
    ctx: MockContext,
    packet: Packet,
    want_pass: bool,
}

#[test]
fn send_packet_processing() {
    let context = MockContext::default();

    let packet = Packet {
        sequence: <Sequence as From<u64>>::from(1),
        source_port: PortId::default(),
        source_channel: ChannelId::default(),
        destination_port: PortId::default(),
        destination_channel: ChannelId::default(),
        data: vec![0],
        timeout_height: Height::default(),
        timeout_timestamp: 6,
    };

    let packet_untimed = Packet {
        sequence: <Sequence as From<u64>>::from(1),
        source_port: PortId::default(),
        source_channel: ChannelId::default(),
        destination_port: PortId::default(),
        destination_channel: ChannelId::default(),
        data: vec![],
        timeout_height: Height::default(),
        timeout_timestamp: 0,
    };

    let channel_end = ChannelEnd::new(
        State::TryOpen,
        Order::default(),
        Counterparty::new(PortId::default(), Some(ChannelId::default())),
        vec![ConnectionId::default()],
        "ics20".to_string(),
    );

    let connection_end = ConnectionEnd::new(
        ConnectionState::Open,
        ClientId::default(),
        ConnectionCounterparty::new(
            ClientId::default(),
            Some(ConnectionId::default()),
            Default::default(),
        ),
        get_compatible_versions(),
        0,
    );

    let tests: Vec<Test> = vec![
        Test {
            name: "Processing fails because no channel exists in the context".to_string(),
            ctx: context.clone(),
            packet: packet.clone(),
            want_pass: false,
        },
        Test {
            name: "Processing fails because the port does not have a capability associated"
                .to_string(),
            ctx: context.clone().with_channel(
                PortId::default(),
                ChannelId::default(),
                channel_end.clone(),
            ),
            packet: packet.clone(),
            want_pass: false,
        },
        Test {
            name: "Good parameters".to_string(),
            ctx: context
                .clone()
                .with_client(&ClientId::default(), Height::default())
                .with_connection(ConnectionId::default(), connection_end.clone())
                .with_port_capability(PortId::default())
                .with_channel(PortId::default(), ChannelId::default(), channel_end.clone())
                .with_send_sequence(PortId::default(), ChannelId::default(), 1),
            packet,
            want_pass: true,
        },
        Test {
            name: "Zero timeout".to_string(),
            ctx: context
                .with_client(&ClientId::default(), Height::default())
                .with_connection(ConnectionId::default(), connection_end)
                .with_port_capability(PortId::default())
                .with_channel(PortId::default(), ChannelId::default(), channel_end)
                .with_send_sequence(PortId::default(), ChannelId::default(), 1),
            packet: packet_untimed,
            want_pass: false,
        },
    ]
    .into_iter()
    .collect();

    for test in tests {
        let res = send_packet(&test.ctx, test.packet.clone());
        // Additionally check the events and the output objects in the result.
        match res {
            Ok(proto_output) => {
                assert_eq!(
                    test.want_pass,
                    true,
                    "send_packet: test passed but was supposed to fail for test: {}, \nparams {:?} {:?}",
                    test.name,
                    test.packet.clone(),
                    test.ctx.clone()
                );
                assert_ne!(proto_output.events.is_empty(), true); // Some events must exist.

                for e in proto_output.events.iter() {
                    assert!(matches!(e, &IbcEvent::SendPacket(_)));
                }
            }
            Err(e) => {
                assert_eq!(
                    test.want_pass,
                    false,
                    "send_packet: did not pass test: {}, \nparams {:?} {:?} error: {:?}",
                    test.name,
                    test.packet.clone(),
                    test.ctx.clone(),
                    e,
                );
            }
        }
    }
}
