use solana_ibc::solana_store::{
    AnyClientState, AnyConsensusState, ExecutionContext, SolanaIbcStore, ValidationContext,
};
use solana_ibc::types::{
    ChannelError, ClientError, ConnectionError, ContextError, Height, PacketError, Receipt,
};

use ibc::clients::tendermint::consensus_state::ConsensusState as TmConsensusState;
use ibc::primitives::proto::{Any, Protobuf};
use ibc_core_channel_types::channel::{ChannelEnd, Counterparty, Order, State};
use ibc_core_channel_types::Version;
use ibc_core_connection_types::version::Version as ConnectionVersion;
use ibc_core_connection_types::{
    ConnectionEnd, Counterparty as ConnectionCounterparty, State as ConnectionState,
};

fn solana_channel(counterparty_channel: &str) -> ChannelEnd {
    ChannelEnd::new(
        State::Init,
        Order::Ordered,
        Counterparty::new("transfer".parse().unwrap(), Some(counterparty_channel.parse().unwrap())),
        vec!["connection-3".parse().unwrap()],
        Version::new("ics20-1".to_string()),
    )
    .unwrap()
}

fn solana_connection(client: &str) -> ConnectionEnd {
    ConnectionEnd::new(
        ConnectionState::Init,
        client.parse().unwrap(),
        ConnectionCounterparty::new("07-tendermint-4".parse().unwrap(), None, vec![7u8].into()),
        ConnectionVersion::compatibles(),
        std::time::Duration::from_secs(5),
    )
    .unwrap()
}

fn ht(revision_number: u64, revision_height: u64) -> Height {
    Height { revision_number, revision_height }
}

fn st(text: &str) -> String {
    text.to_string()
}

/// A Tendermint consensus state as a protobuf `Any`, encoded by hand.
fn good_consensus_bytes() -> Vec<u8> {
    let mut value = vec![0x0a, 0x02, 0x08, 0x01, 0x12, 0x03, 0x0a, 0x01, 0x01, 0x1a, 0x20];
    value.extend(std::iter::repeat(0u8).take(32));
    let url = b"/ibc.lightclients.tendermint.v1.ConsensusState";
    let mut any = vec![0x0a, url.len() as u8];
    any.extend_from_slice(url);
    any.push(0x12);
    any.push(value.len() as u8);
    any.extend(value);
    any
}

#[test]
fn solana_store_client_type_accepts_known_types_only() {
    let mut store = SolanaIbcStore::new();
    let id = st("07-tendermint-0");
    assert_eq!(
        store.client_type(&id),
        Err(ClientError::Other { description: st("Client(07-tendermint-0) not found!") })
    );
    assert!(store.store_client_state(id.clone(), st("07-tendermint"), vec![1]).is_ok());
    assert_eq!(store.client_type(&id), Ok(st("07-tendermint")));
    let solo = st("06-solomachine-1");
    assert!(store.store_client_state(solo.clone(), st("06-solomachine"), vec![2]).is_ok());
    assert_eq!(store.client_type(&solo), Ok(st("06-solomachine")));
    let other = st("09-localhost-0");
    assert!(store.store_client_state(other.clone(), st("09-localhost"), vec![3]).is_ok());
    assert_eq!(
        store.client_type(&other),
        Err(ClientError::UnknownClientStateType { client_state_type: st("09-localhost") })
    );
}

#[test]
fn solana_store_client_state_by_type() {
    let mut store = SolanaIbcStore::new();
    let id = st("07-tendermint-0");
    assert_eq!(
        store.client_state(&id).err(),
        Some(ContextError::ClientError(ClientError::ClientStateNotFound { client_id: id.clone() }))
    );
    assert!(store.store_client_state(id.clone(), st("07-tendermint"), vec![0xff, 0x01]).is_ok());
    match store.client_state(&id) {
        Err(ContextError::ClientError(ClientError::Other { description })) => {
            assert!(description.starts_with("Decode Ics07ClientState failed: "))
        }
        other => panic!("unexpected {:?}", other.err()),
    }
    let solo = st("06-solomachine-0");
    assert!(store.store_client_state(solo.clone(), st("06-solomachine"), vec![4, 5]).is_ok());
    match store.client_state(&solo) {
        Ok(AnyClientState::Solomachine(bytes)) => assert_eq!(bytes, vec![4, 5]),
        other => panic!("unexpected {:?}", other.err()),
    }
    let other = st("09-localhost-0");
    assert!(store.store_client_state(other.clone(), st("09-localhost"), vec![6]).is_ok());
    assert_eq!(
        store.client_state(&other).err(),
        Some(ContextError::ClientError(ClientError::UnknownClientStateType {
            client_state_type: st("09-localhost")
        }))
    );
}

#[test]
fn solana_store_decode_client_state_order() {
    let store = SolanaIbcStore::new();
    let url = st("/ibc.lightclients.solomachine.v3.ClientState");
    match store.decode_client_state(url.clone(), vec![1], Some(42u8)) {
        Ok(AnyClientState::Solomachine(v)) => assert_eq!(v, 42),
        other => panic!("unexpected {:?}", other.err()),
    }
    assert_eq!(
        store.decode_client_state::<u8>(url.clone(), vec![1], None).err(),
        Some(ContextError::ClientError(ClientError::UnknownClientStateType {
            client_state_type: url
        }))
    );
}

#[test]
fn solana_store_consensus_state_read_after_store() {
    let mut store = SolanaIbcStore::new();
    let id = st("07-tendermint-0");
    assert_eq!(
        store.consensus_state(&id, 0, 0).err(),
        Some(ContextError::ClientError(ClientError::InvalidHeight))
    );
    assert_eq!(
        store.consensus_state(&id, 0, 4).err(),
        Some(ContextError::ClientError(ClientError::ConsensusStateNotFound {
            client_id: id.clone(),
            height: ht(0, 4)
        }))
    );
    assert!(store.store_client_state(id.clone(), st("07-tendermint"), vec![]).is_ok());
    assert!(store.store_consensus_state(id.clone(), 0, 4, good_consensus_bytes()).is_ok());
    assert!(matches!(store.consensus_state(&id, 0, 4), Ok(AnyConsensusState::Tendermint(_))));
    assert!(store.store_consensus_state(id.clone(), 0, 5, vec![0xff]).is_ok());
    match store.consensus_state(&id, 0, 5) {
        Err(ContextError::ClientError(ClientError::Other { description })) => {
            assert!(description.starts_with("Decode Ics07ConsensusState failed: "))
        }
        other => panic!("unexpected {:?}", other.err()),
    }
    let solo = st("06-solomachine-0");
    assert!(store.store_client_state(solo.clone(), st("06-solomachine"), vec![]).is_ok());
    assert!(store.store_consensus_state(solo.clone(), 2, 9, vec![8, 8]).is_ok());
    match store.consensus_state(&solo, 2, 9) {
        Ok(AnyConsensusState::Solomachine(bytes)) => assert_eq!(bytes, vec![8, 8]),
        other => panic!("unexpected {:?}", other.err()),
    }
}

#[test]
fn solana_store_refused_height_creates_empty_record() {
    let mut store = SolanaIbcStore::new();
    let id = st("07-tendermint-0");
    assert_eq!(
        store.next_consensus_state(&id, &ht(0, 1)).err(),
        Some(ContextError::ClientError(ClientError::ClientStateNotFound { client_id: id.clone() }))
    );
    assert_eq!(
        store.store_consensus_state(id.clone(), 3, 0, vec![1]),
        Err(ContextError::ClientError(ClientError::Other {
            description: st("Construct Height failed(invalid height; cannot be zero or negative)")
        }))
    );
    // The client now has an empty record: the searches find nothing.
    assert!(matches!(store.next_consensus_state(&id, &ht(0, 1)), Ok(None)));
    assert!(matches!(store.prev_consensus_state(&id, &ht(9, 9)), Ok(None)));
    assert!(store.consensus_state(&id, 3, 1).is_err());
}

#[test]
fn solana_store_next_and_prev_pick_nearest() {
    let mut store = SolanaIbcStore::new();
    let id = st("06-solomachine-0");
    assert!(store.store_client_state(id.clone(), st("06-solomachine"), vec![]).is_ok());
    for (rn, rh) in [(1, 10), (0, 3), (1, 2), (0, 8)] {
        assert!(store.store_consensus_state(id.clone(), rn, rh, vec![rn as u8, rh as u8]).is_ok());
    }
    let next = |store: &SolanaIbcStore, rn, rh| match store.next_consensus_state(&id, &ht(rn, rh)) {
        Ok(Some(AnyConsensusState::Solomachine(b))) => Some(b),
        Ok(None) => None,
        other => panic!("unexpected {:?}", other.err()),
    };
    let prev = |store: &SolanaIbcStore, rn, rh| match store.prev_consensus_state(&id, &ht(rn, rh)) {
        Ok(Some(AnyConsensusState::Solomachine(b))) => Some(b),
        Ok(None) => None,
        other => panic!("unexpected {:?}", other.err()),
    };
    assert_eq!(next(&store, 0, 0), Some(vec![0, 3]));
    assert_eq!(next(&store, 0, 3), Some(vec![0, 8]));
    assert_eq!(next(&store, 0, 9), Some(vec![1, 2]));
    assert_eq!(next(&store, 1, 2), Some(vec![1, 10]));
    assert_eq!(next(&store, 1, 10), None);
    assert_eq!(prev(&store, 5, 0), Some(vec![1, 10]));
    assert_eq!(prev(&store, 1, 10), Some(vec![1, 2]));
    assert_eq!(prev(&store, 1, 1), Some(vec![0, 8]));
    assert_eq!(prev(&store, 0, 4), Some(vec![0, 3]));
    assert_eq!(prev(&store, 0, 3), None);
}

#[test]
fn solana_store_channels_packets_and_sequences() {
    let mut store = SolanaIbcStore::new();
    let (p, c) = (st("transfer"), st("channel-4"));
    assert_eq!(
        store.channel_end(&p, &c).err(),
        Some(ContextError::ChannelError(ChannelError::ChannelNotFound {
            port_id: p.clone(),
            channel_id: c.clone()
        }))
    );
    assert!(store.store_channel(p.clone(), c.clone(), solana_channel("channel-1")).is_ok());
    assert_eq!(store.channel_end(&p, &c), Ok(solana_channel("channel-1")));
    assert_eq!(
        store.get_next_sequence_send(&p, &c).err(),
        Some(ContextError::PacketError(PacketError::MissingNextSendSeq {
            port_id: p.clone(),
            channel_id: c.clone()
        }))
    );
    assert!(store.store_next_sequence_send(p.clone(), c.clone(), 1).is_ok());
    assert!(store.store_next_sequence_recv(p.clone(), c.clone(), 2).is_ok());
    assert!(store.store_next_sequence_ack(p.clone(), c.clone(), 3).is_ok());
    assert_eq!(store.get_next_sequence_send(&p, &c), Ok(1));
    assert_eq!(store.get_next_sequence_recv(&p, &c), Ok(2));
    assert_eq!(store.get_next_sequence_ack(&p, &c), Ok(3));
    assert!(store.store_packet_commitment(p.clone(), c.clone(), 1, vec![1]).is_ok());
    assert_eq!(store.get_packet_commitment(&p, &c, &1), Ok(vec![1]));
    assert!(store.delete_packet_commitment(&p, &c, &1).is_ok());
    assert_eq!(
        store.get_packet_commitment(&p, &c, &1).err(),
        Some(ContextError::PacketError(PacketError::PacketCommitmentNotFound { sequence: 1 }))
    );
    assert!(store.store_packet_receipt(p.clone(), c.clone(), 1, Receipt::NotReceived).is_ok());
    assert_eq!(store.get_packet_receipt(&p, &c, &1), Ok(Receipt::NotReceived));
    assert_eq!(
        store.get_packet_receipt(&p, &c, &2).err(),
        Some(ContextError::PacketError(PacketError::PacketReceiptNotFound { sequence: 2 }))
    );
    assert!(store.store_packet_acknowledgement(p.clone(), c.clone(), 1, vec![2]).is_ok());
    assert_eq!(store.get_packet_acknowledgement(&p, &c, &1), Ok(vec![2]));
    assert!(store.delete_packet_acknowledgement(&p, &c, &1).is_ok());
    assert_eq!(
        store.get_packet_acknowledgement(&p, &c, &1).err(),
        Some(ContextError::PacketError(PacketError::PacketAcknowledgementNotFound {
            sequence: 1
        }))
    );
}

#[test]
fn solana_store_connections_updates_and_counters() {
    let mut store = SolanaIbcStore::new();
    let conn = st("connection-3");
    assert_eq!(
        store.connection_end(&conn).err(),
        Some(ContextError::ConnectionError(ConnectionError::ConnectionNotFound {
            connection_id: conn.clone()
        }))
    );
    assert!(store.store_connection(conn.clone(), solana_connection("07-tendermint-2")).is_ok());
    assert_eq!(store.connection_end(&conn), Ok(solana_connection("07-tendermint-2")));
    assert!(store.store_connection_to_client(st("07-tendermint-2"), conn.clone()).is_ok());
    assert_eq!(store.client_connections.get(&st("07-tendermint-2")), Some(&conn));
    let id = st("07-tendermint-2");
    assert_eq!(
        store.client_update_time(&id, &ht(0, 2)).err(),
        Some(ContextError::ChannelError(ChannelError::ProcessedTimeNotFound {
            client_id: id.clone(),
            height: ht(0, 2)
        }))
    );
    assert_eq!(
        store.client_update_height(&id, &ht(0, 2)).err(),
        Some(ContextError::ChannelError(ChannelError::ProcessedHeightNotFound {
            client_id: id.clone(),
            height: ht(0, 2)
        }))
    );
    assert!(store.store_update_time(id.clone(), ht(0, 2), 77).is_ok());
    assert!(store.store_update_height(id.clone(), ht(0, 2), ht(1, 1)).is_ok());
    assert_eq!(store.client_update_time(&id, &ht(0, 2)), Ok(77));
    assert_eq!(store.client_update_height(&id, &ht(0, 2)), Ok(ht(1, 1)));
    store.increase_client_counter();
    store.increase_connection_counter();
    store.increase_connection_counter();
    store.increase_channel_counter();
    assert_eq!(store.client_counter(), Ok(1));
    assert_eq!(store.connection_counter(), Ok(2));
    assert_eq!(store.channel_counter(), Ok(1));
}

#[test]
fn solana_store_prefix_ports_and_logs() {
    let mut store = SolanaIbcStore::new();
    assert_eq!(store.commitment_prefix().bytes, b"solana".to_vec());
    assert_eq!(store.lookup_module_by_port(&st("transfer")), Some(st("transfer")));
    assert_eq!(store.lookup_module_by_port(&st("oracle")), None);
    assert!(store.validate_self_client(st("x"), vec![]).is_ok());
    store.log_message(st("first"));
    store.log_message(st("second"));
    assert_eq!(store.logs, vec![st("first"), st("second")]);
    assert!(store.events.is_empty());
}

/// The value of a Tendermint client state, encoded by hand: chain `ibc-1`,
/// trust level 1/3, trusting and unbonding periods of 1 and 2 seconds, a
/// clock drift of 1 second, not frozen, latest height 0-10 and one proof spec.
fn tendermint_client_state_value() -> Vec<u8> {
    let mut value = vec![0x0a, 0x05];
    value.extend_from_slice(b"ibc-1");
    value.extend_from_slice(&[0x12, 0x04, 0x08, 0x01, 0x10, 0x03]);
    value.extend_from_slice(&[0x1a, 0x02, 0x08, 0x01]);
    value.extend_from_slice(&[0x22, 0x02, 0x08, 0x02]);
    value.extend_from_slice(&[0x2a, 0x02, 0x08, 0x01]);
    value.extend_from_slice(&[0x32, 0x00]);
    value.extend_from_slice(&[0x3a, 0x02, 0x10, 0x0a]);
    value.extend_from_slice(&[0x42, 0x00]);
    value
}

/// The same client state as a protobuf `Any`.
fn tendermint_client_state_any() -> Vec<u8> {
    let value = tendermint_client_state_value();
    let url = b"/ibc.lightclients.tendermint.v1.ClientState";
    let mut any = vec![0x0a, url.len() as u8];
    any.extend_from_slice(url);
    any.push(0x12);
    any.push(value.len() as u8);
    any.extend(value);
    any
}

#[test]
fn solana_store_tendermint_client_state_decodes() {
    let mut store = SolanaIbcStore::new();
    let id = st("07-tendermint-0");
    assert!(store.store_client_state(id.clone(), st("07-tendermint"), tendermint_client_state_any()).is_ok());
    assert!(matches!(store.client_state(&id), Ok(AnyClientState::Tendermint(_))));
    // A Tendermint state comes first, whatever the solo machine decoder found.
    let url = st("/ibc.lightclients.tendermint.v1.ClientState");
    assert!(matches!(
        store.decode_client_state(url, tendermint_client_state_value(), Some(7u8)),
        Ok(AnyClientState::Tendermint(_))
    ));
}

#[test]
fn solana_store_counters_saturate() {
    let mut store = SolanaIbcStore::new();
    store.client_ids_counter = u64::MAX;
    store.connection_ids_counter = u64::MAX - 1;
    store.channel_ids_counter = u64::MAX;
    store.increase_client_counter();
    store.increase_connection_counter();
    store.increase_connection_counter();
    store.increase_channel_counter();
    assert_eq!(store.client_counter(), Ok(u64::MAX));
    assert_eq!(store.connection_counter(), Ok(u64::MAX));
    assert_eq!(store.channel_counter(), Ok(u64::MAX));
}

/// A Tendermint consensus state as a protobuf `Any`, whose commitment root is
/// the one byte `root`.
fn consensus_bytes_with_root(root: u8) -> Vec<u8> {
    let mut value = vec![0x0a, 0x02, 0x08, 0x01, 0x12, 0x03, 0x0a, 0x01, root, 0x1a, 0x20];
    value.extend(std::iter::repeat(0u8).take(32));
    let url = b"/ibc.lightclients.tendermint.v1.ConsensusState";
    let mut any = vec![0x0a, url.len() as u8];
    any.extend_from_slice(url);
    any.push(0x12);
    any.push(value.len() as u8);
    any.extend(value);
    any
}

fn tendermint_of(r: Result<Option<AnyConsensusState<Vec<u8>>>, ContextError>) -> Option<TmConsensusState> {
    match r {
        Ok(Some(AnyConsensusState::Tendermint(st))) => Some(st),
        Ok(None) => None,
        _ => panic!("not a Tendermint state"),
    }
}

#[test]
fn solana_store_searches_return_the_state_stored_at_the_height_found() {
    let mut store = SolanaIbcStore::new();
    let id = st("07-tendermint-0");
    assert!(store.store_client_state(id.clone(), st("07-tendermint"), vec![]).is_ok());
    let states = [consensus_bytes_with_root(1), consensus_bytes_with_root(2), consensus_bytes_with_root(3)];
    for (i, bytes) in states.iter().enumerate() {
        assert!(store.store_consensus_state(id.clone(), 1, i as u64 + 1, bytes.clone()).is_ok());
    }
    let decoded = |b: &Vec<u8>| <TmConsensusState as Protobuf<Any>>::decode_vec(b).unwrap();
    assert_ne!(decoded(&states[0]), decoded(&states[2]));
    assert_eq!(tendermint_of(store.prev_consensus_state(&id, &ht(1, 4))), Some(decoded(&states[2])));
    assert_eq!(tendermint_of(store.next_consensus_state(&id, &ht(1, 1))), Some(decoded(&states[1])));
    assert_eq!(tendermint_of(store.next_consensus_state(&id, &ht(1, 3))), None);
    match store.consensus_state(&id, 1, 2) {
        Ok(AnyConsensusState::Tendermint(s)) => assert_eq!(s, decoded(&states[1])),
        _ => panic!("not a Tendermint state"),
    }
}
