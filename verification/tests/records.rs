use ibc_packet::conformance::{connection_id_from_model, Action, ActionOutcome, Chain, Step};
use ibc_packet::height::Height;
use ibc_packet::identifier::{ChannelId, ClientId, ConnectionId, PortId};

#[test]
fn height_order_is_lexicographic() {
    assert!(Height::new(0, 5).lt(&Height::new(1, 0)));
    assert!(Height::new(1, 0).lt(&Height::new(1, 1)));
    assert!(!Height::new(1, 1).lt(&Height::new(1, 1)));
    assert!(!Height::new(2, 0).lt(&Height::new(1, 9)));
}

#[test]
fn height_add_saturates() {
    assert_eq!(Height::new(3, 10).add(5), Height::new(3, 15));
    assert_eq!(Height::new(3, u64::MAX - 1).add(7), Height::new(3, u64::MAX));
    assert_eq!(Height::new(3, u64::MAX).add(u64::MAX), Height::new(3, u64::MAX));
}

#[test]
fn height_zero_sentinel() {
    assert!(Height::new(0, 0).is_zero());
    assert!(!Height::new(0, 1).is_zero());
    assert!(!Height::new(1, 0).is_zero());
    assert!(Height::default().is_zero());
}

#[test]
fn identifier_defaults() {
    assert_eq!(PortId::default().0, "defaultPort");
    assert_eq!(ChannelId::default().0, "defaultChannel");
    assert_eq!(ConnectionId::default().0, "defaultConnection");
    assert_eq!(ClientId::default().0, "defaultClient");
}

#[test]
fn connection_id_sentinel_decodes_to_absent() {
    assert_eq!(connection_id_from_model(None), None);
    assert_eq!(connection_id_from_model(Some(-1)), None);
    assert_eq!(connection_id_from_model(Some(0)), Some(0));
    assert_eq!(connection_id_from_model(Some(7)), Some(7));
    // Any other negative keeps its two's-complement bits.
    assert_eq!(connection_id_from_model(Some(-2)), Some(u64::MAX - 1));
}

#[test]
fn conformance_step_holds_its_fields() {
    let step = Step {
        action: Action::ICS02CreateClient {
            chain_id: "chain-A".to_string(),
            client_state: 4,
            consensus_state: 4,
        },
        action_outcome: ActionOutcome::ICS02CreateOK,
        chains: vec![("chain-A".to_string(), Chain { height: 4 })],
    };
    assert_eq!(step.action_outcome, ActionOutcome::ICS02CreateOK);
    assert!(matches!(step.action, Action::ICS02CreateClient { .. }));
    assert_eq!(step.chains[0].1, Chain { height: 4 });
}
