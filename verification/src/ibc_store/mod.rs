//! An IBC host store read and written through the client, connection and
//! channel reader and keeper interfaces. It knows Tendermint light clients.
use vstd::prelude::*;

pub mod channel;
pub mod client;
pub mod connection;

use crate::heights;
use crate::keyed_map::KeyedMap;
use crate::outside::{
    decode_tendermint_client_state, decode_tendermint_consensus_state, sha256, sha256_digest,
    tendermint_client_state_decoding, tendermint_client_state_from_any,
    tendermint_client_state_from_any_succeeds, tendermint_client_state_of,
    tendermint_client_state_of_any, tendermint_consensus_state_decoding,
    tendermint_consensus_state_of,
};
use crate::store_state::{greatest_height_below, least_height_above, saturating_succ, StoreState};
use crate::types::{
    AcknowledgementCommitment, ChannelError, ChannelErrorView, ChannelId, ClientError,
    ClientErrorView, ClientId, ClientType, CommitmentPrefix, ConnectionError, ConnectionErrorView,
    ConnectionId, Height, ModuleId, PacketCommitment, PacketError, PacketErrorView, PortId,
    Receipt, Sequence, Timestamp, TENDERMINT_CLIENT_TYPE,
};
use ibc::clients::tendermint::client_state::ClientState as TmClientState;
use ibc::clients::tendermint::consensus_state::ConsensusState as TmConsensusState;
use ibc_core_channel_types::channel::ChannelEnd;
use ibc_core_connection_types::ConnectionEnd;

verus! {

/// Everything an IBC host keeps: clients, connections, channels and packets.
pub struct IbcStore {
    /// The type of each client, indexed by client id.
    pub client_types: KeyedMap<ClientId, ClientType>,
    /// The encoded state of each client.
    pub client_state: KeyedMap<ClientId, Vec<u8>>,
    /// The encoded consensus states of each client, by height.
    pub consensus_states: KeyedMap<ClientId, KeyedMap<Height, Vec<u8>>>,
    /// The host time at which a client was updated to a height.
    pub client_processed_times: KeyedMap<(ClientId, Height), Timestamp>,
    /// The host height at which a client was updated to a height.
    pub client_processed_heights: KeyedMap<(ClientId, Height), Height>,
    /// How many client identifiers have been handed out.
    pub client_ids_counter: u64,
    /// The connection of each client.
    pub client_connections: KeyedMap<ClientId, ConnectionId>,
    /// All the connections.
    pub connections: KeyedMap<ConnectionId, ConnectionEnd>,
    /// How many connection identifiers have been handed out.
    pub connection_ids_counter: u64,
    /// The channels of each connection, in the order in which they were added.
    pub connection_channels: KeyedMap<ConnectionId, Vec<(PortId, ChannelId)>>,
    /// How many channel identifiers have been handed out.
    pub channel_ids_counter: u64,
    /// All the channels, by port and channel.
    pub channels: KeyedMap<(PortId, ChannelId), ChannelEnd>,
    /// The sequence number of the next packet to send on a channel.
    pub next_sequence_send: KeyedMap<(PortId, ChannelId), Sequence>,
    /// The sequence number of the next packet to receive on a channel.
    pub next_sequence_recv: KeyedMap<(PortId, ChannelId), Sequence>,
    /// The sequence number of the next packet to acknowledge on a channel.
    pub next_sequence_ack: KeyedMap<(PortId, ChannelId), Sequence>,
    /// Acknowledgement commitments, by port, channel and sequence.
    pub packet_acknowledgement: KeyedMap<(PortId, ChannelId, Sequence), AcknowledgementCommitment>,
    /// The module that owns each port.
    pub port_to_module: KeyedMap<PortId, ModuleId>,
    /// Commitments to sent packets, by port, channel and sequence.
    pub packet_commitment: KeyedMap<(PortId, ChannelId, Sequence), PacketCommitment>,
    /// Receipts of received packets, by port, channel and sequence.
    pub packet_receipt: KeyedMap<(PortId, ChannelId, Sequence), Receipt>,
}

impl View for IbcStore {
    type V = StoreState;

    closed spec fn view(&self) -> StoreState {
        StoreState {
            client_types: self.client_types@.map_values(|t: String| t@),
            client_states: self.client_state@.map_values(|b: Vec<u8>| b@),
            consensus_states: self.consensus_states@.map_values(
                |m: KeyedMap<Height, Vec<u8>>| m@.map_values(|b: Vec<u8>| b@),
            ),
            client_processed_times: self.client_processed_times@,
            client_processed_heights: self.client_processed_heights@,
            client_ids_counter: self.client_ids_counter,
            client_connections: self.client_connections@.map_values(|c: String| c@),
            connections: self.connections@,
            connection_ids_counter: self.connection_ids_counter,
            connection_channels: self.connection_channels@.map_values(
                |v: Vec<(String, String)>| v@.map_values(|p: (String, String)| p@),
            ),
            channel_ids_counter: self.channel_ids_counter,
            channels: self.channels@,
            next_sequence_send: self.next_sequence_send@,
            next_sequence_recv: self.next_sequence_recv@,
            next_sequence_ack: self.next_sequence_ack@,
            packet_acknowledgement: self.packet_acknowledgement@.map_values(|b: Vec<u8>| b@),
            port_to_module: self.port_to_module@.map_values(|m: String| m@),
            packet_commitment: self.packet_commitment@.map_values(|b: Vec<u8>| b@),
            packet_receipt: self.packet_receipt@,
        }
    }
}

/// The name of the Tendermint client type, as characters.
pub open spec fn tendermint_type() -> Seq<char> {
    TENDERMINT_CLIENT_TYPE@
}

/// A decoding that succeeded with `value`, or the error that reports its
/// failure under the prefix.
pub open spec fn decode_outcome<T>(decoding: Option<Seq<char>>, value: T, prefix: Seq<char>) -> Result<
    T,
    ClientErrorView,
> {
    match decoding {
        None => Ok(value),
        Some(msg) => Err(ClientErrorView::Other(prefix + msg)),
    }
}

/// What [`client::ClientReader::client_type`] answers.
pub open spec fn client_type_outcome(s: StoreState, client: Seq<char>) -> Result<
    Seq<char>,
    ClientErrorView,
> {
    match s.client_type(client) {
        Some(t) => Ok(t),
        None => Err(ClientErrorView::ClientNotFound(client)),
    }
}

/// What [`client::ClientReader::client_state`] answers: the decoding of the
/// client's stored state, by the decoder of its type.
pub open spec fn client_state_outcome(s: StoreState, client: Seq<char>) -> Result<
    TmClientState,
    ClientErrorView,
> {
    match s.client_state(client) {
        None => Err(ClientErrorView::ClientNotFound(client)),
        Some(bytes) => match client_type_outcome(s, client) {
            Err(e) => Err(e),
            Ok(t) => if t == tendermint_type() {
                decode_outcome(
                    tendermint_client_state_decoding(bytes),
                    tendermint_client_state_of(bytes),
                    "Decode Ics07ClientState failed: "@,
                )
            } else {
                Err(ClientErrorView::UnknownClientStateType(t))
            },
        },
    }
}

/// What [`client::ClientReader::decode_client_state`] answers.
pub open spec fn decode_client_state_outcome(type_url: Seq<char>, value: Seq<u8>) -> Result<
    TmClientState,
    ClientErrorView,
> {
    if tendermint_client_state_from_any_succeeds(type_url, value) {
        Ok(tendermint_client_state_of_any(type_url, value))
    } else {
        Err(ClientErrorView::UnknownClientStateType(type_url))
    }
}

/// What [`client::ClientReader::consensus_state`] answers: the decoding of the
/// consensus state stored for the client at the height.
pub open spec fn consensus_state_outcome(s: StoreState, client: Seq<char>, height: Height) -> Result<
    TmConsensusState,
    ClientErrorView,
> {
    match s.consensus_state(client, height) {
        None => Err(ClientErrorView::ConsensusStateNotFound(client, height)),
        Some(bytes) => match client_type_outcome(s, client) {
            Err(e) => Err(e),
            Ok(t) => if t == tendermint_type() {
                if tendermint_consensus_state_decoding(bytes) is None {
                    Ok(tendermint_consensus_state_of(bytes))
                } else {
                    Err(ClientErrorView::ImplementationSpecific)
                }
            } else {
                Err(ClientErrorView::UnknownClientStateType(t))
            },
        },
    }
}

/// The answer to a search of the client's consensus states that picked
/// `found`: the decoding of the state stored at that height, or the error.
pub open spec fn search_outcome(s: StoreState, client: Seq<char>, found: Option<Height>) -> Result<
    Option<TmConsensusState>,
    ClientErrorView,
> {
    match found {
        None => Ok(None),
        Some(k) => match client_type_outcome(s, client) {
            Err(e) => Err(e),
            Ok(t) => if t == tendermint_type() {
                match decode_outcome(
                    tendermint_consensus_state_decoding(s.consensus_states[client][k]),
                    tendermint_consensus_state_of(s.consensus_states[client][k]),
                    "Decode Ics07ConsensusState failed: "@,
                ) {
                    Ok(state) => Ok(Some(state)),
                    Err(e) => Err(e),
                }
            } else {
                Err(ClientErrorView::UnknownClientStateType(t))
            },
        },
    }
}

/// What [`client::ClientReader::next_consensus_state`] answers: the decoded state at
/// the lowest height above `height`.
pub open spec fn next_consensus_outcome(s: StoreState, client: Seq<char>, height: Height) -> Result<
    Option<TmConsensusState>,
    ClientErrorView,
> {
    if !s.consensus_states.contains_key(client) {
        Err(ClientErrorView::ClientNotFound(client))
    } else {
        search_outcome(s, client, least_height_above(s.consensus_states[client].dom(), height))
    }
}

/// What [`client::ClientReader::prev_consensus_state`] answers: the decoded state at
/// the highest height below `height`.
pub open spec fn prev_consensus_outcome(s: StoreState, client: Seq<char>, height: Height) -> Result<
    Option<TmConsensusState>,
    ClientErrorView,
> {
    if !s.consensus_states.contains_key(client) {
        Err(ClientErrorView::ClientNotFound(client))
    } else {
        search_outcome(s, client, greatest_height_below(s.consensus_states[client].dom(), height))
    }
}

impl IbcStore {
    /// A store that holds nothing, with every counter at zero.
    pub fn new() -> (s: IbcStore)
        ensures
            s@ == StoreState::empty(),
    {
        let s = IbcStore {
            client_types: KeyedMap::new(),
            client_state: KeyedMap::new(),
            consensus_states: KeyedMap::new(),
            client_processed_times: KeyedMap::new(),
            client_processed_heights: KeyedMap::new(),
            client_ids_counter: 0,
            client_connections: KeyedMap::new(),
            connections: KeyedMap::new(),
            connection_ids_counter: 0,
            connection_channels: KeyedMap::new(),
            channel_ids_counter: 0,
            channels: KeyedMap::new(),
            next_sequence_send: KeyedMap::new(),
            next_sequence_recv: KeyedMap::new(),
            next_sequence_ack: KeyedMap::new(),
            packet_acknowledgement: KeyedMap::new(),
            port_to_module: KeyedMap::new(),
            packet_commitment: KeyedMap::new(),
            packet_receipt: KeyedMap::new(),
        };
        assert(s@ =~= StoreState::empty());
        s
    }
}

/// The height of the entry that a search found.
pub open spec fn found_height(found: Option<(Height, &Vec<u8>)>) -> Option<Height> {
    match found {
        Some((k, _)) => Some(k),
        None => None,
    }
}

/// A client's answer as a connection-level answer.
pub open spec fn in_connection<T>(o: Result<T, ClientErrorView>) -> Result<T, ConnectionErrorView> {
    match o {
        Ok(v) => Ok(v),
        Err(e) => Err(ConnectionErrorView::Client(e)),
    }
}

/// A connection-level answer as a channel-level answer.
pub open spec fn in_channel<T>(o: Result<T, ConnectionErrorView>) -> Result<T, ChannelErrorView> {
    match o {
        Ok(v) => Ok(v),
        Err(e) => Err(ChannelErrorView::Connection(e)),
    }
}

/// The bytes of the commitment prefix of this store: `Ibc`.
pub open spec fn ibc_prefix() -> Seq<u8> {
    seq![73u8, 98u8, 99u8]
}

} // verus!
