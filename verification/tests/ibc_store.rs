use solana_ibc::ibc_store::channel::{ChannelKeeper, ChannelReader};
use solana_ibc::ibc_store::client::{ClientKeeper, ClientReader};
use solana_ibc::ibc_store::connection::{ConnectionKeeper, ConnectionReader};
use solana_ibc::ibc_store::IbcStore;
use solana_ibc::types::{
    ChannelError, ClientError, ConnectionError, Height, PacketError, Receipt,
};

use ibc::clients::tendermint::client_state::ClientState as TmClientState;
use ibc::clients::tendermint::consensus_state::ConsensusState as TmConsensusState;
use ibc::primitives::proto::{Any, Protobuf};
use ibc_core_channel_types::channel::{ChannelEnd, Counterparty, Order, State};
use ibc_core_channel_types::Version;
use ibc_core_connection_types::version::Version as ConnectionVersion;
use ibc_core_connection_types::{
    ConnectionEnd, Counterparty as ConnectionCounterparty, State as ConnectionState,
};

fn channel(counterparty_channel: &str) -> ChannelEnd {
    ChannelEnd::new(
        State::Open,
        Order::Unordered,
        Counterparty::new("transfer".parse().unwrap(), Some(counterparty_channel.parse().unwrap())),
        vec!["connection-0".parse().unwrap()],
        Version::new("ics20-1".to_string()),
    )
    .unwrap()
}

fn connection(client: &str) -> ConnectionEnd {
    ConnectionEnd::new(
        ConnectionState::Init,
        client.parse().unwrap(),
        ConnectionCounterparty::new("07-tendermint-9".parse().unwrap(), None, vec![1u8, 2].into()),
        ConnectionVersion::compatibles(),
        std::time::Duration::from_secs(0),
    )
    .unwrap()
}

fn h(revision_number: u64, revision_height: u64) -> Height {
    Height { revision_number, revision_height }
}

fn s(text: &str) -> String {
    text.to_string()
}

/// A Tendermint consensus state as a protobuf `Any`, encoded by hand, whose
/// commitment root is the one byte `root`.
fn consensus_state_bytes_with_root(root: u8) -> Vec<u8> {
    let mut value = vec![0x0a, 0x02, 0x08, 0x01, 0x12, 0x03, 0x0a, 0x01, root, 0x1a, 0x20];
    value.extend(std::iter::repeat(0u8).take(32));
    let url = b"/ibc.lightclients.tendermint.v1.ConsensusState";
    let mut any = vec![0x0a, url.len() as u8];
    any.extend_from_slice(url);
    any.push(0x12);
    any.push(value.len() as u8);
    any.extend(value);
    any
}

/// A Tendermint consensus state as a protobuf `Any`.
fn tendermint_consensus_state_bytes() -> Vec<u8> {
    consensus_state_bytes_with_root(1)
}

#[test]
fn ibc_store_channel_read_after_store() {
    let mut store = IbcStore::new();
    assert_eq!(
        ChannelReader::channel_end(&store, &s("transfer"), &s("channel-0")),
        Err(ChannelError::ChannelNotFound { port_id: s("transfer"), channel_id: s("channel-0") })
    );
    assert!(store.store_channel(s("transfer"), s("channel-0"), channel("channel-7")).is_ok());
    assert!(store.store_channel(s("transfer"), s("channel-1"), channel("channel-8")).is_ok());
    assert_eq!(ChannelReader::channel_end(&store, &s("transfer"), &s("channel-0")), Ok(channel("channel-7")));
    assert_eq!(ChannelReader::channel_end(&store, &s("transfer"), &s("channel-1")), Ok(channel("channel-8")));
    assert!(store.store_channel(s("transfer"), s("channel-0"), channel("channel-9")).is_ok());
    assert_eq!(ChannelReader::channel_end(&store, &s("transfer"), &s("channel-0")), Ok(channel("channel-9")));
    assert_eq!(ChannelReader::channel_end(&store, &s("transfer"), &s("channel-1")), Ok(channel("channel-8")));
    assert!(ChannelReader::channel_end(&store, &s("oracle"), &s("channel-0")).is_err());
}

#[test]
fn ibc_store_connection_read_after_store() {
    let mut store = IbcStore::new();
    assert_eq!(
        ConnectionReader::connection_end(&store, &s("connection-0")),
        Err(ConnectionError::ConnectionNotFound { connection_id: s("connection-0") })
    );
    assert_eq!(
        ChannelReader::connection_end(&store, &s("connection-0")),
        Err(ChannelError::Connection(ConnectionError::ConnectionNotFound {
            connection_id: s("connection-0")
        }))
    );
    assert!(store.store_connection(s("connection-0"), connection("07-tendermint-0")).is_ok());
    assert_eq!(
        ConnectionReader::connection_end(&store, &s("connection-0")),
        Ok(connection("07-tendermint-0"))
    );
    assert_eq!(
        ChannelReader::connection_end(&store, &s("connection-0")),
        Ok(connection("07-tendermint-0"))
    );
    assert!(store.store_connection_to_client(s("connection-0"), s("07-tendermint-0")).is_ok());
    assert_eq!(store.client_connections.get(&s("07-tendermint-0")), Some(&s("connection-0")));
}

#[test]
fn ibc_store_connection_channels_keep_order() {
    let mut store = IbcStore::new();
    assert_eq!(store.connection_channels(&s("connection-0")), Err(ChannelError::MissingChannel));
    assert!(store.store_connection_channels(s("connection-0"), s("transfer"), s("channel-0")).is_ok());
    assert!(store.store_connection_channels(s("connection-0"), s("oracle"), s("channel-1")).is_ok());
    assert!(store.store_connection_channels(s("connection-1"), s("transfer"), s("channel-2")).is_ok());
    assert_eq!(
        store.connection_channels(&s("connection-0")),
        Ok(vec![(s("transfer"), s("channel-0")), (s("oracle"), s("channel-1"))])
    );
    assert_eq!(
        store.connection_channels(&s("connection-1")),
        Ok(vec![(s("transfer"), s("channel-2"))])
    );
}

#[test]
fn ibc_store_sequences_read_after_store() {
    let mut store = IbcStore::new();
    let (p, c) = (s("transfer"), s("channel-0"));
    assert_eq!(
        store.get_next_sequence_send(&p, &c),
        Err(PacketError::MissingNextSendSeq { port_id: p.clone(), channel_id: c.clone() })
    );
    assert_eq!(
        store.get_next_sequence_recv(&p, &c),
        Err(PacketError::MissingNextRecvSeq { port_id: p.clone(), channel_id: c.clone() })
    );
    assert_eq!(
        store.get_next_sequence_ack(&p, &c),
        Err(PacketError::MissingNextAckSeq { port_id: p.clone(), channel_id: c.clone() })
    );
    assert!(store.store_next_sequence_send(p.clone(), c.clone(), 5).is_ok());
    assert_eq!(store.get_next_sequence_send(&p, &c), Ok(5));
    assert!(store.get_next_sequence_recv(&p, &c).is_err());
    assert!(store.store_next_sequence_recv(p.clone(), c.clone(), 6).is_ok());
    assert!(store.store_next_sequence_ack(p.clone(), c.clone(), 7).is_ok());
    assert_eq!(store.get_next_sequence_recv(&p, &c), Ok(6));
    assert_eq!(store.get_next_sequence_ack(&p, &c), Ok(7));
    assert!(store.store_next_sequence_send(p.clone(), c.clone(), 8).is_ok());
    assert_eq!(store.get_next_sequence_send(&p, &c), Ok(8));
    assert!(store.get_next_sequence_send(&p, &s("channel-1")).is_err());
}

#[test]
fn ibc_store_packet_commitment_store_and_delete() {
    let mut store = IbcStore::new();
    let (p, c) = (s("transfer"), s("channel-0"));
    assert_eq!(
        store.get_packet_commitment(&p, &c, &1),
        Err(PacketError::PacketCommitmentNotFound { sequence: 1 })
    );
    assert!(store.store_packet_commitment(p.clone(), c.clone(), 1, vec![1, 2, 3]).is_ok());
    assert!(store.store_packet_commitment(p.clone(), c.clone(), 2, vec![4]).is_ok());
    assert_eq!(store.get_packet_commitment(&p, &c, &1), Ok(vec![1, 2, 3]));
    assert!(store.delete_packet_commitment(&p, &c, &1).is_ok());
    assert_eq!(
        store.get_packet_commitment(&p, &c, &1),
        Err(PacketError::PacketCommitmentNotFound { sequence: 1 })
    );
    assert_eq!(store.get_packet_commitment(&p, &c, &2), Ok(vec![4]));
    // Deleting what is not there changes nothing.
    assert!(store.delete_packet_commitment(&p, &c, &9).is_ok());
    assert_eq!(store.get_packet_commitment(&p, &c, &2), Ok(vec![4]));
}

#[test]
fn ibc_store_receipts_and_acknowledgements() {
    let mut store = IbcStore::new();
    let (p, c) = (s("transfer"), s("channel-0"));
    assert_eq!(
        store.get_packet_receipt(&p, &c, &3),
        Err(PacketError::PacketReceiptNotFound { sequence: 3 })
    );
    assert!(store.store_packet_receipt(p.clone(), c.clone(), 3, Receipt::Received).is_ok());
    assert_eq!(store.get_packet_receipt(&p, &c, &3), Ok(Receipt::Received));
    assert_eq!(
        store.get_packet_acknowledgement(&p, &c, &3),
        Err(PacketError::PacketAcknowledgementNotFound { sequence: 3 })
    );
    assert!(store.store_packet_acknowledgement(p.clone(), c.clone(), 3, vec![9, 9]).is_ok());
    assert_eq!(store.get_packet_acknowledgement(&p, &c, &3), Ok(vec![9, 9]));
    assert!(store.delete_packet_acknowledgement(&p, &c, &3).is_ok());
    assert!(store.get_packet_acknowledgement(&p, &c, &3).is_err());
    assert_eq!(store.get_packet_receipt(&p, &c, &3), Ok(Receipt::Received));
}

#[test]
fn ibc_store_counters_saturate() {
    let mut store = IbcStore::new();
    assert_eq!(ClientReader::client_counter(&store), Ok(0));
    store.increase_client_counter();
    store.increase_client_counter();
    assert_eq!(ClientReader::client_counter(&store), Ok(2));
    store.increase_connection_counter();
    assert_eq!(store.connection_counter(), Ok(1));
    store.increase_channel_counter();
    assert_eq!(store.channel_counter(), Ok(1));
    store.client_ids_counter = u64::MAX;
    store.increase_client_counter();
    assert_eq!(ClientReader::client_counter(&store), Ok(u64::MAX));
    store.connection_ids_counter = u64::MAX - 1;
    store.increase_connection_counter();
    store.increase_connection_counter();
    assert_eq!(store.connection_counter(), Ok(u64::MAX));
    store.channel_ids_counter = u64::MAX;
    store.increase_channel_counter();
    assert_eq!(store.channel_counter(), Ok(u64::MAX));
}

#[test]
fn ibc_store_client_type_and_errors() {
    let mut store = IbcStore::new();
    let id = s("07-tendermint-0");
    assert_eq!(
        ClientReader::client_type(&store, &id),
        Err(ClientError::ClientNotFound { client_id: id.clone() })
    );
    assert!(store.store_client_type(id.clone(), s("07-tendermint")).is_ok());
    assert_eq!(ClientReader::client_type(&store, &id), Ok(s("07-tendermint")));
    // A client without a stored state is not found.
    assert_eq!(
        ClientReader::client_state(&store, &id).err(),
        Some(ClientError::ClientNotFound { client_id: id.clone() })
    );
    // A stored state that does not decode reports the decoder's failure.
    assert!(ClientKeeper::store_client_state(&mut store, id.clone(), vec![1, 2, 3]).is_ok());
    match ClientReader::client_state(&store, &id) {
        Err(ClientError::Other { description }) => {
            assert!(description.starts_with("Decode Ics07ClientState failed: "));
            assert!(description.len() > "Decode Ics07ClientState failed: ".len());
        }
        other => panic!("unexpected {:?}", other.err()),
    }
    // A client of another type is refused by name.
    let other = s("06-solomachine-0");
    assert!(store.store_client_type(other.clone(), s("06-solomachine")).is_ok());
    assert!(ClientKeeper::store_client_state(&mut store, other.clone(), vec![1]).is_ok());
    assert_eq!(
        ClientReader::client_state(&store, &other).err(),
        Some(ClientError::UnknownClientStateType { client_state_type: s("06-solomachine") })
    );
    // The connection and channel readers wrap the same errors.
    assert_eq!(
        ConnectionReader::client_state(&store, &other).err(),
        Some(ConnectionError::Client(ClientError::UnknownClientStateType {
            client_state_type: s("06-solomachine")
        }))
    );
    assert_eq!(
        ChannelReader::client_state(&store, &other).err(),
        Some(ChannelError::Connection(ConnectionError::Client(
            ClientError::UnknownClientStateType { client_state_type: s("06-solomachine") }
        )))
    );
}

#[test]
fn ibc_store_decode_client_state_refuses_other_types() {
    let store = IbcStore::new();
    let url = s("/ibc.lightclients.solomachine.v3.ClientState");
    assert_eq!(
        ClientReader::decode_client_state(&store, url.clone(), vec![1, 2]).err(),
        Some(ClientError::UnknownClientStateType { client_state_type: url.clone() })
    );
    assert_eq!(
        ConnectionReader::decode_client_state(&store, url.clone(), vec![]).err(),
        Some(ConnectionError::Client(ClientError::UnknownClientStateType {
            client_state_type: url
        }))
    );
    let tm = s("/ibc.lightclients.tendermint.v1.ClientState");
    assert!(ClientReader::decode_client_state(&store, tm, vec![0xff]).is_err());
}

#[test]
fn ibc_store_consensus_state_read_after_store() {
    let mut store = IbcStore::new();
    let id = s("07-tendermint-0");
    assert_eq!(
        ClientReader::consensus_state(&store, &id, &h(0, 5)).err(),
        Some(ClientError::ConsensusStateNotFound { client_id: id.clone(), height: h(0, 5) })
    );
    assert!(store.store_client_type(id.clone(), s("07-tendermint")).is_ok());
    assert!(store
        .store_consensus_state(id.clone(), h(0, 5), tendermint_consensus_state_bytes())
        .is_ok());
    assert!(store.store_consensus_state(id.clone(), h(0, 6), vec![7, 7]).is_ok());
    assert!(ClientReader::consensus_state(&store, &id, &h(0, 5)).is_ok());
    assert!(ChannelReader::client_consensus_state(&store, &id, &h(0, 5)).is_ok());
    assert!(ConnectionReader::client_consensus_state(&store, &id, &h(0, 5)).is_ok());
    // A state that does not decode is an implementation-specific failure.
    assert_eq!(
        ClientReader::consensus_state(&store, &id, &h(0, 6)).err(),
        Some(ClientError::ImplementationSpecific)
    );
    assert_eq!(
        ClientReader::consensus_state(&store, &id, &h(1, 5)).err(),
        Some(ClientError::ConsensusStateNotFound { client_id: id.clone(), height: h(1, 5) })
    );
    // A client of unknown type.
    let other = s("09-localhost-0");
    assert!(store.store_client_type(other.clone(), s("09-localhost")).is_ok());
    assert!(store.store_consensus_state(other.clone(), h(0, 1), vec![1]).is_ok());
    assert_eq!(
        ClientReader::consensus_state(&store, &other, &h(0, 1)).err(),
        Some(ClientError::UnknownClientStateType { client_state_type: s("09-localhost") })
    );
}

#[test]
fn ibc_store_next_and_prev_consensus_states() {
    let mut store = IbcStore::new();
    let id = s("07-tendermint-0");
    assert_eq!(
        store.next_consensus_state(&id, &h(0, 1)).err(),
        Some(ClientError::ClientNotFound { client_id: id.clone() })
    );
    assert_eq!(
        store.prev_consensus_state(&id, &h(0, 1)).err(),
        Some(ClientError::ClientNotFound { client_id: id.clone() })
    );
    assert!(store.store_client_type(id.clone(), s("07-tendermint")).is_ok());
    let good = tendermint_consensus_state_bytes();
    for (rn, rh) in [(1, 10), (0, 3), (1, 2), (0, 8)] {
        assert!(store.store_consensus_state(id.clone(), h(rn, rh), good.clone()).is_ok());
    }
    // Nothing above the highest height, nothing below the lowest.
    assert!(matches!(store.next_consensus_state(&id, &h(1, 10)), Ok(None)));
    assert!(matches!(store.prev_consensus_state(&id, &h(0, 3)), Ok(None)));
    assert!(matches!(store.next_consensus_state(&id, &h(0, 3)), Ok(Some(_))));
    assert!(matches!(store.prev_consensus_state(&id, &h(1, 10)), Ok(Some(_))));
    // The lowest height above (0, 8) is (1, 2): make it undecodable to see it picked.
    assert!(store.store_consensus_state(id.clone(), h(1, 2), vec![0xff]).is_ok());
    match store.next_consensus_state(&id, &h(0, 8)) {
        Err(ClientError::Other { description }) => {
            assert!(description.starts_with("Decode Ics07ConsensusState failed: "))
        }
        other => panic!("unexpected {:?}", other.err()),
    }
    assert!(matches!(store.next_consensus_state(&id, &h(1, 2)), Ok(Some(_))));
    // The backward search picks the highest height below.
    assert!(matches!(store.prev_consensus_state(&id, &h(1, 10)), Err(ClientError::Other { .. })));
    assert!(matches!(store.prev_consensus_state(&id, &h(1, 2)), Ok(Some(_))));
    assert!(store.store_consensus_state(id.clone(), h(0, 3), vec![0xfe]).is_ok());
    assert!(matches!(store.prev_consensus_state(&id, &h(0, 4)), Err(ClientError::Other { .. })));
    assert!(matches!(store.prev_consensus_state(&id, &h(0, 8)), Err(ClientError::Other { .. })));
    assert!(matches!(store.prev_consensus_state(&id, &h(0, 9)), Ok(Some(_))));
    assert!(matches!(store.prev_consensus_state(&id, &h(0, 3)), Ok(None)));
}

#[test]
fn ibc_store_searches_return_the_state_stored_at_the_height_found() {
    let mut store = IbcStore::new();
    let id = s("07-tendermint-0");
    assert!(store.store_client_type(id.clone(), s("07-tendermint")).is_ok());
    let (low, mid, high) = (consensus_state_bytes_with_root(1), consensus_state_bytes_with_root(2), consensus_state_bytes_with_root(3));
    assert!(store.store_consensus_state(id.clone(), h(1, 1), low.clone()).is_ok());
    assert!(store.store_consensus_state(id.clone(), h(1, 2), mid.clone()).is_ok());
    assert!(store.store_consensus_state(id.clone(), h(1, 3), high.clone()).is_ok());
    let decoded = |b: &Vec<u8>| <TmConsensusState as Protobuf<Any>>::decode_vec(b).unwrap();
    assert_ne!(decoded(&low), decoded(&high));
    assert_eq!(store.prev_consensus_state(&id, &h(1, 4)), Ok(Some(decoded(&high))));
    assert_eq!(store.prev_consensus_state(&id, &h(1, 3)), Ok(Some(decoded(&mid))));
    assert_eq!(store.next_consensus_state(&id, &h(1, 1)), Ok(Some(decoded(&mid))));
    assert_eq!(store.next_consensus_state(&id, &h(0, 9)), Ok(Some(decoded(&low))));
    assert_eq!(store.next_consensus_state(&id, &h(1, 3)), Ok(None));
    assert_eq!(ClientReader::consensus_state(&store, &id, &h(1, 2)), Ok(decoded(&mid)));
}

#[test]
fn ibc_store_update_times_and_heights() {
    let mut store = IbcStore::new();
    let id = s("07-tendermint-0");
    assert_eq!(
        store.client_update_time(&id, &h(0, 1)),
        Err(ChannelError::ProcessedTimeNotFound { client_id: id.clone(), height: h(0, 1) })
    );
    assert_eq!(
        store.client_update_height(&id, &h(0, 1)),
        Err(ChannelError::ProcessedHeightNotFound { client_id: id.clone(), height: h(0, 1) })
    );
    assert!(store.store_update_time(id.clone(), h(0, 1), 1_000).is_ok());
    assert!(store.store_update_height(id.clone(), h(0, 1), h(3, 33)).is_ok());
    assert_eq!(store.client_update_time(&id, &h(0, 1)), Ok(1_000));
    assert_eq!(store.client_update_height(&id, &h(0, 1)), Ok(h(3, 33)));
    assert!(store.client_update_time(&id, &h(0, 2)).is_err());
}

#[test]
fn ibc_store_host_states_are_unavailable() {
    let store = IbcStore::new();
    assert_eq!(
        ClientReader::host_consensus_state(&store, &h(0, 1)).err(),
        Some(ClientError::ImplementationSpecific)
    );
    assert_eq!(
        ClientReader::pending_host_consensus_state(&store).err(),
        Some(ClientError::ImplementationSpecific)
    );
    assert_eq!(
        ConnectionReader::host_consensus_state(&store, &h(0, 1)).err(),
        Some(ConnectionError::Client(ClientError::ImplementationSpecific))
    );
    assert_eq!(
        ChannelReader::pending_host_consensus_state(&store).err(),
        Some(ChannelError::Connection(ConnectionError::Client(
            ClientError::ImplementationSpecific
        )))
    );
    assert!(store.validate_self_client(s("any"), vec![]).is_ok());
    assert_eq!(store.commitment_prefix().bytes, b"Ibc".to_vec());
}

#[test]
fn ibc_store_hash_is_sha256() {
    let store = IbcStore::new();
    let digest = store.hash(b"abc");
    let expected = [
        0xba, 0x78, 0x16, 0xbf, 0x8f, 0x01, 0xcf, 0xea, 0x41, 0x41, 0x40, 0xde, 0x5d, 0xae, 0x22,
        0x23, 0xb0, 0x03, 0x61, 0xa3, 0x96, 0x17, 0x7a, 0x9c, 0xb4, 0x10, 0xff, 0x61, 0xf2, 0x00,
        0x15, 0xad,
    ];
    assert_eq!(digest, expected.to_vec());
    assert_eq!(store.hash(b"").len(), 32);
}

/// The value of a Tendermint client state, encoded by hand: chain `ibc-1`,
/// trust level 1/3, trusting and unbonding periods of 1 and 2 seconds, a
/// clock drift of 1 second, not frozen, latest height 0-10 and one proof spec.
fn tendermint_client_state_value() -> Vec<u8> {
    let mut value = vec![0x0a, 0x05];
    value.extend_from_slice(b"ibc-1");
    value.extend_from_slice(&[0x12, 0x04, 0x08, 0x01, 0x10, 0x03]);
    value.extend_from_slice(&[0x1a, 0x02, 0x08, 0x01]);
    value.extend_from_slice(&[0x22, 0x02, 0x08, 0x02]);
    value.extend_from_slice(&[0x2a, 0x02, 0x08, 0x01]);
    value.extend_from_slice(&[0x32, 0x00]);
    value.extend_from_slice(&[0x3a, 0x02, 0x10, 0x0a]);
    value.extend_from_slice(&[0x42, 0x00]);
    value
}

/// The same client state as a protobuf `Any`.
fn tendermint_client_state_any() -> Vec<u8> {
    let value = tendermint_client_state_value();
    let url = b"/ibc.lightclients.tendermint.v1.ClientState";
    let mut any = vec![0x0a, url.len() as u8];
    any.extend_from_slice(url);
    any.push(0x12);
    any.push(value.len() as u8);
    any.extend(value);
    any
}

#[test]
fn ibc_store_tendermint_client_state_decodes() {
    let mut store = IbcStore::new();
    let id = s("07-tendermint-0");
    assert!(store.store_client_type(id.clone(), s("07-tendermint")).is_ok());
    assert!(ClientKeeper::store_client_state(&mut store, id.clone(), tendermint_client_state_any()).is_ok());
    let expected = <TmClientState as Protobuf<Any>>::decode_vec(&tendermint_client_state_any()).unwrap();
    assert_eq!(ClientReader::client_state(&store, &id), Ok(expected.clone()));
    assert_eq!(ConnectionReader::client_state(&store, &id), Ok(expected.clone()));
    assert!(ChannelReader::client_state(&store, &id).is_ok());
    let url = s("/ibc.lightclients.tendermint.v1.ClientState");
    assert_eq!(
        ClientReader::decode_client_state(&store, url.clone(), tendermint_client_state_value()),
        Ok(expected)
    );
    assert!(ConnectionReader::decode_client_state(&store, url, tendermint_client_state_value()).is_ok());
}
