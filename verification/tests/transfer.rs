use solana_ibc::solana_store::{AnyClientState, ExecutionContext, SolanaIbcStore, ValidationContext};
use solana_ibc::transfer::TransferModule;
use solana_ibc::types::{ClientError, ContextError, PacketError};

use ibc::apps::transfer::types::{Coin, PrefixedDenom};
use ibc::primitives::Signer;
use ibc_core_channel_types::channel::{ChannelEnd, Counterparty, Order, State};
use ibc_core_channel_types::Version;
use ibc_core_handler_types::events::{IbcEvent, MessageEvent};

fn coin() -> Coin<PrefixedDenom> {
    "100uatom".parse().unwrap()
}

fn signer(name: &str) -> Signer {
    Signer::from(name.to_string())
}

#[test]
fn transfer_module_checks_accept_everything() {
    let mut module = TransferModule;
    let (alice, bob) = (signer("alice"), signer("bob"));
    assert_eq!(module.get_port(), Ok("transfer".to_string()));
    assert!(module.can_send_coins().is_ok());
    assert!(module.can_receive_coins().is_ok());
    assert!(module.send_coins_validate(&alice, &bob, &coin()).is_ok());
    assert!(module.mint_coins_validate(&alice, &coin()).is_ok());
    assert!(module.burn_coins_validate(&bob, &coin()).is_ok());
    assert!(module.send_coins_execute(&alice, &bob, &coin()).is_ok());
    assert!(module.mint_coins_execute(&alice, &coin()).is_ok());
    assert!(module.burn_coins_execute(&bob, &coin()).is_ok());
    let store = SolanaIbcStore::new();
    assert!(store.validate_message_signer(&alice).is_ok());
}

#[test]
fn transfer_module_sends_through_the_store() {
    let mut module = TransferModule;
    let mut store = SolanaIbcStore::new();
    let (p, c) = ("transfer".to_string(), "channel-0".to_string());
    assert_eq!(
        module.get_next_sequence_send(&store, &p, &c).err(),
        Some(ContextError::PacketError(PacketError::MissingNextSendSeq {
            port_id: p.clone(),
            channel_id: c.clone()
        }))
    );
    assert!(module.store_next_sequence_send(&mut store, p.clone(), c.clone(), 4).is_ok());
    assert_eq!(module.get_next_sequence_send(&store, &p, &c), Ok(4));
    assert!(module.store_packet_commitment(&mut store, p.clone(), c.clone(), 4, vec![1, 2]).is_ok());
    assert_eq!(store.get_packet_commitment(&p, &c, &4), Ok(vec![1, 2]));
    let end = ChannelEnd::new(
        State::Open,
        Order::Unordered,
        Counterparty::new("transfer".parse().unwrap(), Some("channel-5".parse().unwrap())),
        vec!["connection-0".parse().unwrap()],
        Version::new("ics20-1".to_string()),
    )
    .unwrap();
    assert!(module.channel_end(&store, &p, &c).is_err());
    assert!(store.store_channel(p.clone(), c.clone(), end.clone()).is_ok());
    assert_eq!(module.channel_end(&store, &p, &c), Ok(end));
    assert!(module.connection_end(&store, &"connection-0".to_string()).is_err());
    let id = "06-solomachine-0".to_string();
    assert_eq!(
        module.client_state(&store, &id).err(),
        Some(ContextError::ClientError(ClientError::ClientStateNotFound { client_id: id.clone() }))
    );
    assert!(store.store_client_state(id.clone(), "06-solomachine".to_string(), vec![3]).is_ok());
    assert!(matches!(module.client_state(&store, &id), Ok(AnyClientState::Solomachine(_))));
    assert!(store.store_consensus_state(id.clone(), 1, 1, vec![4]).is_ok());
    assert!(module.client_consensus_state(&store, &id, 1, 1).is_ok());
    assert!(module.client_consensus_state(&store, &id, 1, 2).is_err());
}

#[test]
fn transfer_module_events_and_logs_keep_order() {
    let mut module = TransferModule;
    let mut store = SolanaIbcStore::new();
    module.emit_ibc_event(&mut store, IbcEvent::Message(MessageEvent::Channel));
    module.emit_ibc_event(&mut store, IbcEvent::Message(MessageEvent::Client));
    module.log_message(&mut store, "sent".to_string());
    assert_eq!(
        store.events,
        vec![IbcEvent::Message(MessageEvent::Channel), IbcEvent::Message(MessageEvent::Client)]
    );
    assert_eq!(store.logs, vec!["sent".to_string()]);
}
