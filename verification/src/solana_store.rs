//! An IBC host store read through the validation interface and written
//! through the execution interface, with the events and log messages of the
//! handlers. It knows Tendermint and solo machine light clients.
use vstd::prelude::*;

use crate::heights;
use crate::ibc_store::tendermint_type;
use crate::keyed_map::KeyedMap;
use crate::outside::{
    decode_tendermint_client_state, decode_tendermint_consensus_state,
    tendermint_client_state_decoding, tendermint_client_state_from_any,
    tendermint_client_state_from_any_succeeds, tendermint_client_state_of,
    tendermint_client_state_of_any, tendermint_consensus_state_decoding,
    tendermint_consensus_state_of,
};
use crate::store_state::{greatest_height_below, least_height_above, saturating_succ, StoreState};
use crate::types::{
    AcknowledgementCommitment, ChannelError, ChannelErrorView, ChannelId, ClientError,
    ClientErrorView, ClientId, ClientType, CommitmentPrefix, ConnectionError, ConnectionErrorView,
    ConnectionId, ContextError, ContextErrorView, Height, ModuleId, PacketCommitment, PacketError,
    PacketErrorView, PortId, Receipt, Sequence, Timestamp, SOLOMACHINE_CLIENT_TYPE,
    TENDERMINT_CLIENT_TYPE,
};
use ibc::clients::tendermint::client_state::ClientState as TmClientState;
use ibc::clients::tendermint::consensus_state::ConsensusState as TmConsensusState;
use ibc::primitives::Signer;
use ibc_core_channel_types::channel::ChannelEnd;
use ibc_core_connection_types::ConnectionEnd;
use ibc_core_handler_types::events::IbcEvent;

verus! {

/// The port of the token transfer application.
pub const TRANSFER_PORT_ID: &'static str = "transfer";

/// The module of the token transfer application.
pub const TRANSFER_MODULE_ID: &'static str = "transfer";

/// Everything an IBC host on Solana keeps, with the events and log messages
/// that its handlers emit.
pub struct SolanaIbcStore {
    /// The encoded state of each client, indexed by client id.
    pub client_states: KeyedMap<ClientId, Vec<u8>>,
    /// The encoded consensus states of each client, by height.
    pub consensus_states: KeyedMap<ClientId, KeyedMap<Height, Vec<u8>>>,
    /// The type of each client.
    pub client_types: KeyedMap<ClientId, ClientType>,
    /// The host time at which a client was updated to a height.
    pub client_processed_times: KeyedMap<(ClientId, Height), Timestamp>,
    /// The host height at which a client was updated to a height.
    pub client_processed_heights: KeyedMap<(ClientId, Height), Height>,
    /// How many client identifiers have been handed out.
    pub client_ids_counter: u64,
    /// The connection of each client.
    pub client_connections: KeyedMap<ClientId, ConnectionId>,
    /// All the connections.
    pub connections: KeyedMap<ConnectionId, ConnectionEnd>,
    /// How many connection identifiers have been handed out.
    pub connection_ids_counter: u64,
    /// The channels of each connection, in the order in which they were added.
    pub connection_channels: KeyedMap<ConnectionId, Vec<(PortId, ChannelId)>>,
    /// How many channel identifiers have been handed out.
    pub channel_ids_counter: u64,
    /// All the channels, by port and channel.
    pub channels: KeyedMap<(PortId, ChannelId), ChannelEnd>,
    /// The sequence number of the next packet to send on a channel.
    pub next_sequence_send: KeyedMap<(PortId, ChannelId), Sequence>,
    /// The sequence number of the next packet to receive on a channel.
    pub next_sequence_recv: KeyedMap<(PortId, ChannelId), Sequence>,
    /// The sequence number of the next packet to acknowledge on a channel.
    pub next_sequence_ack: KeyedMap<(PortId, ChannelId), Sequence>,
    /// Acknowledgement commitments, by port, channel and sequence.
    pub packet_acknowledgement: KeyedMap<(PortId, ChannelId, Sequence), AcknowledgementCommitment>,
    /// The module that owns each port.
    pub port_to_module: KeyedMap<PortId, ModuleId>,
    /// Commitments to sent packets, by port, channel and sequence.
    pub packet_commitment: KeyedMap<(PortId, ChannelId, Sequence), PacketCommitment>,
    /// Receipts of received packets, by port, channel and sequence.
    pub packet_receipt: KeyedMap<(PortId, ChannelId, Sequence), Receipt>,
    /// The events emitted, oldest first.
    pub events: Vec<IbcEvent>,
    /// The messages logged, oldest first.
    pub logs: Vec<String>,
}

/// The abstract state of a [`SolanaIbcStore`].
#[verifier::ext_equal]
pub struct SolanaStoreState {
    pub ibc: StoreState,
    pub events: Seq<IbcEvent>,
    pub logs: Seq<Seq<char>>,
}

impl SolanaStoreState {
    /// The same events and logs over another IBC state.
    pub open spec fn with_ibc(self, ibc: StoreState) -> SolanaStoreState {
        SolanaStoreState { ibc, ..self }
    }
}

impl View for SolanaIbcStore {
    type V = SolanaStoreState;

    closed spec fn view(&self) -> SolanaStoreState {
        SolanaStoreState {
            ibc: StoreState {
                client_types: self.client_types@.map_values(|t: String| t@),
                client_states: self.client_states@.map_values(|b: Vec<u8>| b@),
                consensus_states: self.consensus_states@.map_values(
                    |m: KeyedMap<Height, Vec<u8>>| m@.map_values(|b: Vec<u8>| b@),
                ),
                client_processed_times: self.client_processed_times@,
                client_processed_heights: self.client_processed_heights@,
                client_ids_counter: self.client_ids_counter,
                client_connections: self.client_connections@.map_values(|c: String| c@),
                connections: self.connections@,
                connection_ids_counter: self.connection_ids_counter,
                connection_channels: self.connection_channels@.map_values(
                    |v: Vec<(String, String)>| v@.map_values(|p: (String, String)| p@),
                ),
                channel_ids_counter: self.channel_ids_counter,
                channels: self.channels@,
                next_sequence_send: self.next_sequence_send@,
                next_sequence_recv: self.next_sequence_recv@,
                next_sequence_ack: self.next_sequence_ack@,
                packet_acknowledgement: self.packet_acknowledgement@.map_values(|b: Vec<u8>| b@),
                port_to_module: self.port_to_module@.map_values(|m: String| m@),
                packet_commitment: self.packet_commitment@.map_values(|b: Vec<u8>| b@),
                packet_receipt: self.packet_receipt@,
            },
            events: self.events@,
            logs: self.logs@.map_values(|m: String| m@),
        }
    }
}

/// A light client state of one of the two known client types. A solo machine
/// state is handed on as `S`: its decoding belongs to the solo machine client.
pub enum AnyClientState<S> {
    Tendermint(TmClientState),
    Solomachine(S),
}

/// A consensus state of one of the two known client types. A solo machine
/// state is handed on as `S`: its decoding belongs to the solo machine client.
pub enum AnyConsensusState<S> {
    Tendermint(TmConsensusState),
    Solomachine(S),
}

/// The state a read gives: a decoded Tendermint state, or the encoding of a
/// solo machine state.
pub enum StateRead<T> {
    Tendermint(T),
    Solomachine(Seq<u8>),
}

/// A client state as a read gives it, the solo machine bytes by their view.
pub open spec fn client_state_read(c: AnyClientState<Vec<u8>>) -> StateRead<TmClientState> {
    match c {
        AnyClientState::Tendermint(st) => StateRead::Tendermint(st),
        AnyClientState::Solomachine(b) => StateRead::Solomachine(b@),
    }
}

/// A consensus state as a read gives it, the solo machine bytes by their view.
pub open spec fn consensus_state_read(c: AnyConsensusState<Vec<u8>>) -> StateRead<TmConsensusState> {
    match c {
        AnyConsensusState::Tendermint(st) => StateRead::Tendermint(st),
        AnyConsensusState::Solomachine(b) => StateRead::Solomachine(b@),
    }
}

/// The name of the solo machine client type, as characters.
pub open spec fn solomachine_type() -> Seq<char> {
    SOLOMACHINE_CLIENT_TYPE@
}

/// A client error as an error of the validation and execution interfaces.
pub open spec fn in_context<T>(o: Result<T, ClientErrorView>) -> Result<T, ContextErrorView> {
    match o {
        Ok(v) => Ok(v),
        Err(e) => Err(ContextErrorView::ClientError(e)),
    }
}

/// What [`SolanaIbcStore::client_type`] answers: only the two known types are accepted.
pub open spec fn client_type_result(s: StoreState, client: Seq<char>) -> Result<
    Seq<char>,
    ClientErrorView,
> {
    match s.client_type(client) {
        None => Err(ClientErrorView::Other("Client("@ + client + ") not found!"@)),
        Some(t) => if t == tendermint_type() || t == solomachine_type() {
            Ok(t)
        } else {
            Err(ClientErrorView::UnknownClientStateType(t))
        },
    }
}

/// Decoding stored bytes by the client type `t`: Tendermint bytes are decoded
/// into `tendermint_state`, solo machine bytes are handed on, and any other
/// type is an error.
pub open spec fn decode_kind<T>(
    t: Seq<char>,
    bytes: Seq<u8>,
    tendermint_decoding: Option<Seq<char>>,
    tendermint_state: T,
    tendermint_prefix: Seq<char>,
    unknown_prefix: Seq<char>,
    unknown_suffix: Seq<char>,
) -> Result<StateRead<T>, ClientErrorView> {
    if t == tendermint_type() {
        match tendermint_decoding {
            None => Ok(StateRead::Tendermint(tendermint_state)),
            Some(msg) => Err(ClientErrorView::Other(tendermint_prefix + msg)),
        }
    } else if t == solomachine_type() {
        Ok(StateRead::Solomachine(bytes))
    } else {
        Err(ClientErrorView::Other(unknown_prefix + t + unknown_suffix))
    }
}

/// Decoding the stored client state `bytes` of a client of type `t`.
pub open spec fn decode_client_kind(t: Seq<char>, bytes: Seq<u8>) -> Result<
    StateRead<TmClientState>,
    ClientErrorView,
> {
    decode_kind(
        t,
        bytes,
        tendermint_client_state_decoding(bytes),
        tendermint_client_state_of(bytes),
        "Decode Ics07ClientState failed: "@,
        "unknow client state type:("@,
        ")"@,
    )
}

/// Decoding the stored consensus state `bytes` of a client of type `t`.
pub open spec fn decode_consensus_kind(t: Seq<char>, bytes: Seq<u8>) -> Result<
    StateRead<TmConsensusState>,
    ClientErrorView,
> {
    decode_kind(
        t,
        bytes,
        tendermint_consensus_state_decoding(bytes),
        tendermint_consensus_state_of(bytes),
        "Decode Ics07ConsensusState failed: "@,
        "unknow client state type: "@,
        ""@,
    )
}

/// What [`ValidationContext::client_state`] answers.
pub open spec fn client_state_result(s: StoreState, client: Seq<char>) -> Result<
    StateRead<TmClientState>,
    ContextErrorView,
> {
    match s.client_state(client) {
        None => Err(ContextErrorView::ClientError(ClientErrorView::ClientStateNotFound(client))),
        Some(bytes) => match client_type_result(s, client) {
            Err(e) => Err(ContextErrorView::ClientError(e)),
            Ok(t) => in_context(decode_client_kind(t, bytes)),
        },
    }
}

/// What [`ValidationContext::consensus_state`] answers for the height
/// `(epoch, height)`.
pub open spec fn consensus_state_result(s: StoreState, client: Seq<char>, epoch: u64, height: u64) -> Result<
    StateRead<TmConsensusState>,
    ContextErrorView,
> {
    if height == 0 {
        Err(ContextErrorView::ClientError(ClientErrorView::InvalidHeight))
    } else {
        let h = Height { revision_number: epoch, revision_height: height };
        match s.consensus_state(client, h) {
            None => Err(
                ContextErrorView::ClientError(ClientErrorView::ConsensusStateNotFound(client, h)),
            ),
            Some(bytes) => match client_type_result(s, client) {
                Err(e) => Err(ContextErrorView::ClientError(e)),
                Ok(t) => in_context(decode_consensus_kind(t, bytes)),
            },
        }
    }
}

/// The answer to a search of the client's consensus states that picked `found`.
pub open spec fn search_result(s: StoreState, client: Seq<char>, found: Option<Height>) -> Result<
    Option<StateRead<TmConsensusState>>,
    ContextErrorView,
> {
    match found {
        None => Ok(None),
        Some(k) => match client_type_result(s, client) {
            Err(e) => Err(ContextErrorView::ClientError(e)),
            Ok(t) => match decode_consensus_kind(t, s.consensus_states[client][k]) {
                Ok(kind) => Ok(Some(kind)),
                Err(e) => Err(ContextErrorView::ClientError(e)),
            },
        },
    }
}

/// What [`ValidationContext::next_consensus_state`] answers: the state at the
/// lowest height above `height`.
pub open spec fn next_consensus_result(s: StoreState, client: Seq<char>, height: Height) -> Result<
    Option<StateRead<TmConsensusState>>,
    ContextErrorView,
> {
    if !s.consensus_states.contains_key(client) {
        Err(ContextErrorView::ClientError(ClientErrorView::ClientStateNotFound(client)))
    } else {
        search_result(s, client, least_height_above(s.consensus_states[client].dom(), height))
    }
}

/// What [`ValidationContext::prev_consensus_state`] answers: the state at the
/// highest height below `height`.
pub open spec fn prev_consensus_result(s: StoreState, client: Seq<char>, height: Height) -> Result<
    Option<StateRead<TmConsensusState>>,
    ContextErrorView,
> {
    if !s.consensus_states.contains_key(client) {
        Err(ContextErrorView::ClientError(ClientErrorView::ClientStateNotFound(client)))
    } else {
        search_result(s, client, greatest_height_below(s.consensus_states[client].dom(), height))
    }
}

/// What [`ValidationContext::decode_client_state`] answers: a Tendermint state
/// where the `Any` is one, else the solo machine decoding where there is one.
pub open spec fn decode_any_result(type_url: Seq<char>, value: Seq<u8>, solomachine: bool) -> Result<
    Option<()>,
    ContextErrorView,
> {
    if tendermint_client_state_from_any_succeeds(type_url, value) {
        Ok(None)
    } else if solomachine {
        Ok(Some(()))
    } else {
        Err(ContextErrorView::ClientError(ClientErrorView::UnknownClientStateType(type_url)))
    }
}

/// A read answer of a client state, by the state it gives.
pub open spec fn client_read<E: View>(r: Result<AnyClientState<Vec<u8>>, E>) -> Result<
    StateRead<TmClientState>,
    E::V,
> {
    match r {
        Ok(c) => Ok(client_state_read(c)),
        Err(e) => Err(e@),
    }
}

/// A read answer of a consensus state, by the state it gives.
pub open spec fn consensus_read<E: View>(r: Result<AnyConsensusState<Vec<u8>>, E>) -> Result<
    StateRead<TmConsensusState>,
    E::V,
> {
    match r {
        Ok(c) => Ok(consensus_state_read(c)),
        Err(e) => Err(e@),
    }
}

/// A search answer, by the state it gives.
pub open spec fn search_read(r: Result<Option<AnyConsensusState<Vec<u8>>>, ContextError>) -> Result<
    Option<StateRead<TmConsensusState>>,
    ContextErrorView,
> {
    match r {
        Ok(None) => Ok(None),
        Ok(Some(c)) => Ok(Some(consensus_state_read(c))),
        Err(e) => Err(e@),
    }
}

/// The bytes of the commitment prefix of this store: `solana`.
pub open spec fn solana_prefix() -> Seq<u8> {
    seq![115u8, 111u8, 108u8, 97u8, 110u8, 97u8]
}

/// The height of the entry that a search found.
pub open spec fn found_at(found: Option<(Height, &Vec<u8>)>) -> Option<Height> {
    match found {
        Some((k, _)) => Some(k),
        None => None,
    }
}

impl SolanaIbcStore {
    /// A store that holds nothing, with every counter at zero and no events or logs.
    pub fn new() -> (s: SolanaIbcStore)
        ensures
            s@.ibc == StoreState::empty(),
            s@.events == Seq::<IbcEvent>::empty(),
            s@.logs == Seq::<Seq<char>>::empty(),
    {
        let s = SolanaIbcStore {
            client_states: KeyedMap::new(),
            consensus_states: KeyedMap::new(),
            client_types: KeyedMap::new(),
            client_processed_times: KeyedMap::new(),
            client_processed_heights: KeyedMap::new(),
            client_ids_counter: 0,
            client_connections: KeyedMap::new(),
            connections: KeyedMap::new(),
            connection_ids_counter: 0,
            connection_channels: KeyedMap::new(),
            channel_ids_counter: 0,
            channels: KeyedMap::new(),
            next_sequence_send: KeyedMap::new(),
            next_sequence_recv: KeyedMap::new(),
            next_sequence_ack: KeyedMap::new(),
            packet_acknowledgement: KeyedMap::new(),
            port_to_module: KeyedMap::new(),
            packet_commitment: KeyedMap::new(),
            packet_receipt: KeyedMap::new(),
            events: Vec::new(),
            logs: Vec::new(),
        };
        assert(s@.ibc =~= StoreState::empty());
        assert(s@.logs =~= Seq::<Seq<char>>::empty());
        s
    }

    /// The type of the client, which must be one of the two known types.
    pub fn client_type(&self, client_id: &ClientId) -> (r: Result<ClientType, ClientError>)
        ensures
            match r {
                Ok(t) => client_type_result(self@.ibc, client_id@) == Ok::<
                    Seq<char>,
                    ClientErrorView,
                >(t@),
                Err(e) => client_type_result(self@.ibc, client_id@) == Err::<
                    Seq<char>,
                    ClientErrorView,
                >(e@),
            },
    {
        match self.client_types.get(client_id) {
            None => Err(
                ClientError::Other {
                    description: String::from_str("Client(").concat(client_id.as_str()).concat(
                        ") not found!",
                    ),
                },
            ),
            Some(data) => {
                let tendermint = String::from_str(TENDERMINT_CLIENT_TYPE);
                let solomachine = String::from_str(SOLOMACHINE_CLIENT_TYPE);
                if *data == tendermint {
                    Ok(tendermint)
                } else if *data == solomachine {
                    Ok(solomachine)
                } else {
                    Err(ClientError::UnknownClientStateType { client_state_type: data.clone() })
                }
            },
        }
    }

    /// The module bound to the port: the transfer module owns the transfer port.
    pub fn lookup_module_by_port(&self, port_id: &PortId) -> (r: Option<ModuleId>)
        ensures
            port_id@ == TRANSFER_PORT_ID@ ==> r is Some && r->0@ == TRANSFER_MODULE_ID@,
            port_id@ != TRANSFER_PORT_ID@ ==> r is None,
    {
        if *port_id == String::from_str(TRANSFER_PORT_ID) {
            Some(String::from_str(TRANSFER_MODULE_ID))
        } else {
            None
        }
    }

    /// Decodes stored client state bytes by the client type.
    fn decode_client_bytes(client_type: &String, bytes: &Vec<u8>) -> (r: Result<
        AnyClientState<Vec<u8>>,
        ClientError,
    >)
        ensures
            client_read(r) == decode_client_kind(client_type@, bytes@),
    {
        let tendermint = String::from_str(TENDERMINT_CLIENT_TYPE);
        let solomachine = String::from_str(SOLOMACHINE_CLIENT_TYPE);
        if *client_type == tendermint {
            match decode_tendermint_client_state(bytes.as_slice()) {
                Ok(state) => Ok(AnyClientState::Tendermint(state)),
                Err(msg) => Err(
                    ClientError::Other {
                        description: String::from_str("Decode Ics07ClientState failed: ").concat(
                            msg.as_str(),
                        ),
                    },
                ),
            }
        } else if *client_type == solomachine {
            Ok(AnyClientState::Solomachine(crate::ibc_store::channel::copy_bytes(bytes)))
        } else {
            Err(
                ClientError::Other {
                    description: String::from_str("unknow client state type:(").concat(
                        client_type.as_str(),
                    ).concat(")"),
                },
            )
        }
    }

    /// Decodes stored consensus state bytes by the client type.
    fn decode_consensus_bytes(client_type: &String, bytes: &Vec<u8>) -> (r: Result<
        AnyConsensusState<Vec<u8>>,
        ClientError,
    >)
        ensures
            consensus_read(r) == decode_consensus_kind(client_type@, bytes@),
    {
        let tendermint = String::from_str(TENDERMINT_CLIENT_TYPE);
        let solomachine = String::from_str(SOLOMACHINE_CLIENT_TYPE);
        if *client_type == tendermint {
            match decode_tendermint_consensus_state(bytes.as_slice()) {
                Ok(state) => Ok(AnyConsensusState::Tendermint(state)),
                Err(msg) => Err(
                    ClientError::Other {
                        description: String::from_str("Decode Ics07ConsensusState failed: ").concat(
                            msg.as_str(),
                        ),
                    },
                ),
            }
        } else if *client_type == solomachine {
            Ok(AnyConsensusState::Solomachine(crate::ibc_store::channel::copy_bytes(bytes)))
        } else {
            Err(
                ClientError::Other {
                    description: String::from_str("unknow client state type: ").concat(
                        client_type.as_str(),
                    ).concat(""),
                },
            )
        }
    }

    /// Decodes the consensus state that a search found.
    fn decode_found(&self, client_id: &ClientId, found: Option<(Height, &Vec<u8>)>) -> (r: Result<
        Option<AnyConsensusState<Vec<u8>>>,
        ContextError,
    >)
        requires
            self@.ibc.consensus_states.contains_key(client_id@),
            match found {
                Some((k, v)) => self@.ibc.consensus_states[client_id@].contains_key(k)
                    && self@.ibc.consensus_states[client_id@][k] == v@,
                None => true,
            },
        ensures
            search_read(r) == search_result(self@.ibc, client_id@, found_at(found)),
    {
        match found {
            None => Ok(None),
            Some((_k, bytes)) => {
                let client_type = match self.client_type(client_id) {
                    Ok(t) => t,
                    Err(e) => {
                        return Err(ContextError::ClientError(e));
                    },
                };
                match Self::decode_consensus_bytes(&client_type, bytes) {
                    Ok(state) => Ok(Some(state)),
                    Err(e) => Err(ContextError::ClientError(e)),
                }
            },
        }
    }
}

impl Default for SolanaIbcStore {
    /// A store that holds nothing.
    fn default() -> (s: Self)
        ensures
            s@.ibc == StoreState::empty(),
            s@.events == Seq::<IbcEvent>::empty(),
            s@.logs == Seq::<Seq<char>>::empty(),
    {
        SolanaIbcStore::new()
    }
}

/// The validation interface of a store: reads of clients, connections,
/// channels and packets.
pub trait ValidationContext: View<V = SolanaStoreState> {
    /// The client's state, decoded by the decoder of its type.
    fn client_state(&self, client_id: &ClientId) -> (r: Result<AnyClientState<Vec<u8>>, ContextError>)
        ensures
            client_read(r) == client_state_result(self@.ibc, client_id@),
    ;

    /// A client state given as a protobuf `Any`: a Tendermint state where the
    /// `Any` converts into one, else the solo machine state that the caller
    /// decoded from it, else an error naming its type URL.
    fn decode_client_state<S>(&self, type_url: String, value: Vec<u8>, solomachine: Option<S>) -> (r:
        Result<AnyClientState<S>, ContextError>)
        ensures
            match r {
                Ok(AnyClientState::Tendermint(st)) => decode_any_result(
                    type_url@,
                    value@,
                    solomachine is Some,
                ) == Ok::<Option<()>, ContextErrorView>(None) && st
                    == tendermint_client_state_of_any(type_url@, value@),
                Ok(AnyClientState::Solomachine(state)) => decode_any_result(
                    type_url@,
                    value@,
                    solomachine is Some,
                ) == Ok::<Option<()>, ContextErrorView>(Some(())) && solomachine == Some(state),
                Err(e) => decode_any_result(type_url@, value@, solomachine is Some) == Err::<
                    Option<()>,
                    ContextErrorView,
                >(e@),
            },
            tendermint_client_state_from_any_succeeds(type_url@, value@) ==> (r matches Ok(
                AnyClientState::Tendermint(st),
            ) && st == tendermint_client_state_of_any(type_url@, value@)),
            !tendermint_client_state_from_any_succeeds(type_url@, value@) ==> (r is Ok
                <==> solomachine is Some),
    ;

    /// The client's consensus state at the height `(epoch, height)`, decoded by
    /// the decoder of its type.
    fn consensus_state(&self, client_id: &ClientId, epoch: u64, height: u64) -> (r: Result<
        AnyConsensusState<Vec<u8>>,
        ContextError,
    >)
        ensures
            consensus_read(r) == consensus_state_result(self@.ibc, client_id@, epoch, height),
    ;

    /// The decoded consensus state at the lowest height above `height`.
    fn next_consensus_state(&self, client_id: &ClientId, height: &Height) -> (r: Result<
        Option<AnyConsensusState<Vec<u8>>>,
        ContextError,
    >)
        ensures
            search_read(r) == next_consensus_result(self@.ibc, client_id@, *height),
    ;

    /// The decoded consensus state at the highest height below `height`.
    fn prev_consensus_state(&self, client_id: &ClientId, height: &Height) -> (r: Result<
        Option<AnyConsensusState<Vec<u8>>>,
        ContextError,
    >)
        ensures
            search_read(r) == prev_consensus_result(self@.ibc, client_id@, *height),
    ;

    /// How many client identifiers have been handed out.
    fn client_counter(&self) -> (r: Result<u64, ContextError>)
        ensures
            r == Ok::<u64, ContextError>(self@.ibc.client_ids_counter),
    ;

    /// The connection with the identifier.
    fn connection_end(&self, conn_id: &ConnectionId) -> (r: Result<ConnectionEnd, ContextError>)
        ensures
            match r {
                Ok(end) => self@.ibc.connection(conn_id@) == Some(end),
                Err(e) => self@.ibc.connection(conn_id@) is None && e@
                    == ContextErrorView::ConnectionError(
                    ConnectionErrorView::ConnectionNotFound(conn_id@),
                ),
            },
    ;

    /// Every counterparty view of this host is accepted.
    fn validate_self_client(&self, type_url: String, value: Vec<u8>) -> (r: Result<(), ContextError>)
        ensures
            r is Ok,
    ;

    /// The prefix `solana`.
    fn commitment_prefix(&self) -> (p: CommitmentPrefix)
        ensures
            p.bytes@ == solana_prefix(),
    ;

    /// How many connection identifiers have been handed out.
    fn connection_counter(&self) -> (r: Result<u64, ContextError>)
        ensures
            r == Ok::<u64, ContextError>(self@.ibc.connection_ids_counter),
    ;

    /// The channel on the port.
    fn channel_end(&self, port_id: &PortId, channel_id: &ChannelId) -> (r: Result<
        ChannelEnd,
        ContextError,
    >)
        ensures
            match r {
                Ok(end) => self@.ibc.channel(port_id@, channel_id@) == Some(end),
                Err(e) => self@.ibc.channel(port_id@, channel_id@) is None && e@
                    == ContextErrorView::ChannelError(
                    ChannelErrorView::ChannelNotFound(port_id@, channel_id@),
                ),
            },
    ;

    /// The sequence number of the next packet to send on the channel.
    fn get_next_sequence_send(&self, port_id: &PortId, channel_id: &ChannelId) -> (r: Result<
        Sequence,
        ContextError,
    >)
        ensures
            match r {
                Ok(seq) => self@.ibc.next_send(port_id@, channel_id@) == Some(seq),
                Err(e) => self@.ibc.next_send(port_id@, channel_id@) is None && e@
                    == ContextErrorView::PacketError(
                    PacketErrorView::MissingNextSendSeq(port_id@, channel_id@),
                ),
            },
    ;

    /// The sequence number of the next packet to receive on the channel.
    fn get_next_sequence_recv(&self, port_id: &PortId, channel_id: &ChannelId) -> (r: Result<
        Sequence,
        ContextError,
    >)
        ensures
            match r {
                Ok(seq) => self@.ibc.next_recv(port_id@, channel_id@) == Some(seq),
                Err(e) => self@.ibc.next_recv(port_id@, channel_id@) is None && e@
                    == ContextErrorView::PacketError(
                    PacketErrorView::MissingNextRecvSeq(port_id@, channel_id@),
                ),
            },
    ;

    /// The sequence number of the next packet to acknowledge on the channel.
    fn get_next_sequence_ack(&self, port_id: &PortId, channel_id: &ChannelId) -> (r: Result<
        Sequence,
        ContextError,
    >)
        ensures
            match r {
                Ok(seq) => self@.ibc.next_ack(port_id@, channel_id@) == Some(seq),
                Err(e) => self@.ibc.next_ack(port_id@, channel_id@) is None && e@
                    == ContextErrorView::PacketError(
                    PacketErrorView::MissingNextAckSeq(port_id@, channel_id@),
                ),
            },
    ;

    /// The commitment to the packet with the sequence number sent on the channel.
    fn get_packet_commitment(&self, port_id: &PortId, channel_id: &ChannelId, seq: &Sequence) -> (r:
        Result<PacketCommitment, ContextError>)
        ensures
            match r {
                Ok(c) => self@.ibc.commitment(port_id@, channel_id@, *seq) == Some(c@),
                Err(e) => self@.ibc.commitment(port_id@, channel_id@, *seq) is None && e@
                    == ContextErrorView::PacketError(
                    PacketErrorView::PacketCommitmentNotFound(*seq),
                ),
            },
    ;

    /// The receipt of the packet with the sequence number received on the channel.
    fn get_packet_receipt(&self, port_id: &PortId, channel_id: &ChannelId, seq: &Sequence) -> (r:
        Result<Receipt, ContextError>)
        ensures
            match r {
                Ok(receipt) => self@.ibc.receipt(port_id@, channel_id@, *seq) == Some(receipt),
                Err(e) => self@.ibc.receipt(port_id@, channel_id@, *seq) is None && e@
                    == ContextErrorView::PacketError(PacketErrorView::PacketReceiptNotFound(*seq)),
            },
    ;

    /// The acknowledgement commitment of the packet with the sequence number.
    fn get_packet_acknowledgement(
        &self,
        port_id: &PortId,
        channel_id: &ChannelId,
        seq: &Sequence,
    ) -> (r: Result<AcknowledgementCommitment, ContextError>)
        ensures
            match r {
                Ok(ack) => self@.ibc.acknowledgement(port_id@, channel_id@, *seq) == Some(ack@),
                Err(e) => self@.ibc.acknowledgement(port_id@, channel_id@, *seq) is None && e@
                    == ContextErrorView::PacketError(
                    PacketErrorView::PacketAcknowledgementNotFound(*seq),
                ),
            },
    ;

    /// The host time at which the client was updated to the height.
    fn client_update_time(&self, client_id: &ClientId, height: &Height) -> (r: Result<
        Timestamp,
        ContextError,
    >)
        ensures
            match r {
                Ok(t) => self@.ibc.update_time(client_id@, *height) == Some(t),
                Err(e) => self@.ibc.update_time(client_id@, *height) is None && e@
                    == ContextErrorView::ChannelError(
                    ChannelErrorView::ProcessedTimeNotFound(client_id@, *height),
                ),
            },
    ;

    /// The host height at which the client was updated to the height.
    fn client_update_height(&self, client_id: &ClientId, height: &Height) -> (r: Result<
        Height,
        ContextError,
    >)
        ensures
            match r {
                Ok(h) => self@.ibc.update_height(client_id@, *height) == Some(h),
                Err(e) => self@.ibc.update_height(client_id@, *height) is None && e@
                    == ContextErrorView::ChannelError(
                    ChannelErrorView::ProcessedHeightNotFound(client_id@, *height),
                ),
            },
    ;

    /// How many channel identifiers have been handed out.
    fn channel_counter(&self) -> (r: Result<u64, ContextError>)
        ensures
            r == Ok::<u64, ContextError>(self@.ibc.channel_ids_counter),
    ;

    /// Every signer is accepted.
    fn validate_message_signer(&self, signer: &Signer) -> (r: Result<(), ContextError>)
        ensures
            r is Ok,
    ;
}

impl ValidationContext for SolanaIbcStore {
    /// The client's state, decoded by the decoder of its type.
    fn client_state(&self, client_id: &ClientId) -> (r: Result<AnyClientState<Vec<u8>>, ContextError>)
    {
        match self.client_states.get(client_id) {
            Some(data) => {
                let client_type = match self.client_type(client_id) {
                    Ok(t) => t,
                    Err(e) => {
                        return Err(ContextError::ClientError(e));
                    },
                };
                match Self::decode_client_bytes(&client_type, data) {
                    Ok(state) => Ok(state),
                    Err(e) => Err(ContextError::ClientError(e)),
                }
            },
            None => Err(
                ContextError::ClientError(
                    ClientError::ClientStateNotFound { client_id: client_id.clone() },
                ),
            ),
        }
    }

    /// A client state given as a protobuf `Any`: a Tendermint state where the
    /// `Any` converts into one, else the solo machine state that the caller
    /// decoded from it, else an error naming its type URL.
    fn decode_client_state<S>(&self, type_url: String, value: Vec<u8>, solomachine: Option<S>) -> (r:
        Result<AnyClientState<S>, ContextError>)
    {
        let url = type_url.clone();
        match tendermint_client_state_from_any(type_url, value) {
            Some(state) => Ok(AnyClientState::Tendermint(state)),
            None => match solomachine {
                Some(state) => Ok(AnyClientState::Solomachine(state)),
                None => Err(
                    ContextError::ClientError(
                        ClientError::UnknownClientStateType { client_state_type: url },
                    ),
                ),
            },
        }
    }

    /// The client's consensus state at the height `(epoch, height)`, decoded by
    /// the decoder of its type.
    fn consensus_state(&self, client_id: &ClientId, epoch: u64, height: u64) -> (r: Result<
        AnyConsensusState<Vec<u8>>,
        ContextError,
    >)
    {
        let height = match Height::new(epoch, height) {
            Ok(h) => h,
            Err(e) => {
                return Err(ContextError::ClientError(e));
            },
        };
        match self.consensus_states.get(client_id) {
            Some(client_record) => match client_record.get(&height) {
                Some(data) => {
                    let client_type = match self.client_type(client_id) {
                        Ok(t) => t,
                        Err(e) => {
                            return Err(ContextError::ClientError(e));
                        },
                    };
                    match Self::decode_consensus_bytes(&client_type, data) {
                        Ok(state) => Ok(state),
                        Err(e) => Err(ContextError::ClientError(e)),
                    }
                },
                None => Err(
                    ContextError::ClientError(
                        ClientError::ConsensusStateNotFound { client_id: client_id.clone(), height },
                    ),
                ),
            },
            None => Err(
                ContextError::ClientError(
                    ClientError::ConsensusStateNotFound { client_id: client_id.clone(), height },
                ),
            ),
        }
    }

    /// The decoded consensus state at the lowest height above `height`.
    fn next_consensus_state(&self, client_id: &ClientId, height: &Height) -> (r: Result<
        Option<AnyConsensusState<Vec<u8>>>,
        ContextError,
    >)
    {
        match self.consensus_states.get(client_id) {
            None => Err(
                ContextError::ClientError(
                    ClientError::ClientStateNotFound { client_id: client_id.clone() },
                ),
            ),
            Some(record) => {
                let found = heights::least_above(record, height);
                assert(self@.ibc.consensus_states[client_id@].dom() =~= record@.dom());
                self.decode_found(client_id, found)
            },
        }
    }

    /// The decoded consensus state at the highest height below `height`.
    fn prev_consensus_state(&self, client_id: &ClientId, height: &Height) -> (r: Result<
        Option<AnyConsensusState<Vec<u8>>>,
        ContextError,
    >)
    {
        match self.consensus_states.get(client_id) {
            None => Err(
                ContextError::ClientError(
                    ClientError::ClientStateNotFound { client_id: client_id.clone() },
                ),
            ),
            Some(record) => {
                let found = heights::greatest_below(record, height);
                assert(self@.ibc.consensus_states[client_id@].dom() =~= record@.dom());
                self.decode_found(client_id, found)
            },
        }
    }

    /// How many client identifiers have been handed out.
    fn client_counter(&self) -> (r: Result<u64, ContextError>)
    {
        Ok(self.client_ids_counter)
    }

    /// The connection with the identifier.
    fn connection_end(&self, conn_id: &ConnectionId) -> (r: Result<ConnectionEnd, ContextError>)
    {
        match self.connections.get(conn_id) {
            Some(end) => Ok(end.clone()),
            None => Err(
                ContextError::ConnectionError(
                    ConnectionError::ConnectionNotFound { connection_id: conn_id.clone() },
                ),
            ),
        }
    }

    /// Every counterparty view of this host is accepted.
    fn validate_self_client(&self, type_url: String, value: Vec<u8>) -> (r: Result<(), ContextError>)
    {
        Ok(())
    }

    /// The prefix `solana`.
    fn commitment_prefix(&self) -> (p: CommitmentPrefix)
    {
        let bytes: Vec<u8> = vec![115u8, 111u8, 108u8, 97u8, 110u8, 97u8];
        assert(bytes@ =~= solana_prefix());
        CommitmentPrefix { bytes }
    }

    /// How many connection identifiers have been handed out.
    fn connection_counter(&self) -> (r: Result<u64, ContextError>)
    {
        Ok(self.connection_ids_counter)
    }

    /// The channel on the port.
    fn channel_end(&self, port_id: &PortId, channel_id: &ChannelId) -> (r: Result<
        ChannelEnd,
        ContextError,
    >)
    {
        match self.channels.get(&(port_id.clone(), channel_id.clone())) {
            Some(end) => Ok(end.clone()),
            None => Err(
                ContextError::ChannelError(
                    ChannelError::ChannelNotFound {
                        port_id: port_id.clone(),
                        channel_id: channel_id.clone(),
                    },
                ),
            ),
        }
    }

    /// The sequence number of the next packet to send on the channel.
    fn get_next_sequence_send(&self, port_id: &PortId, channel_id: &ChannelId) -> (r: Result<
        Sequence,
        ContextError,
    >)
    {
        match self.next_sequence_send.get(&(port_id.clone(), channel_id.clone())) {
            Some(seq) => Ok(*seq),
            None => Err(
                ContextError::PacketError(
                    PacketError::MissingNextSendSeq {
                        port_id: port_id.clone(),
                        channel_id: channel_id.clone(),
                    },
                ),
            ),
        }
    }

    /// The sequence number of the next packet to receive on the channel.
    fn get_next_sequence_recv(&self, port_id: &PortId, channel_id: &ChannelId) -> (r: Result<
        Sequence,
        ContextError,
    >)
    {
        match self.next_sequence_recv.get(&(port_id.clone(), channel_id.clone())) {
            Some(seq) => Ok(*seq),
            None => Err(
                ContextError::PacketError(
                    PacketError::MissingNextRecvSeq {
                        port_id: port_id.clone(),
                        channel_id: channel_id.clone(),
                    },
                ),
            ),
        }
    }

    /// The sequence number of the next packet to acknowledge on the channel.
    fn get_next_sequence_ack(&self, port_id: &PortId, channel_id: &ChannelId) -> (r: Result<
        Sequence,
        ContextError,
    >)
    {
        match self.next_sequence_ack.get(&(port_id.clone(), channel_id.clone())) {
            Some(seq) => Ok(*seq),
            None => Err(
                ContextError::PacketError(
                    PacketError::MissingNextAckSeq {
                        port_id: port_id.clone(),
                        channel_id: channel_id.clone(),
                    },
                ),
            ),
        }
    }

    /// The commitment to the packet with the sequence number sent on the channel.
    fn get_packet_commitment(&self, port_id: &PortId, channel_id: &ChannelId, seq: &Sequence) -> (r:
        Result<PacketCommitment, ContextError>)
    {
        match self.packet_commitment.get(&(port_id.clone(), channel_id.clone(), *seq)) {
            Some(c) => Ok(crate::ibc_store::channel::copy_bytes(c)),
            None => Err(
                ContextError::PacketError(PacketError::PacketCommitmentNotFound { sequence: *seq }),
            ),
        }
    }

    /// The receipt of the packet with the sequence number received on the channel.
    fn get_packet_receipt(&self, port_id: &PortId, channel_id: &ChannelId, seq: &Sequence) -> (r:
        Result<Receipt, ContextError>)
    {
        match self.packet_receipt.get(&(port_id.clone(), channel_id.clone(), *seq)) {
            Some(receipt) => Ok(*receipt),
            None => Err(
                ContextError::PacketError(PacketError::PacketReceiptNotFound { sequence: *seq }),
            ),
        }
    }

    /// The acknowledgement commitment of the packet with the sequence number.
    fn get_packet_acknowledgement(
        &self,
        port_id: &PortId,
        channel_id: &ChannelId,
        seq: &Sequence,
    ) -> (r: Result<AcknowledgementCommitment, ContextError>)
    {
        match self.packet_acknowledgement.get(&(port_id.clone(), channel_id.clone(), *seq)) {
            Some(ack) => Ok(crate::ibc_store::channel::copy_bytes(ack)),
            None => Err(
                ContextError::PacketError(
                    PacketError::PacketAcknowledgementNotFound { sequence: *seq },
                ),
            ),
        }
    }

    /// The host time at which the client was updated to the height.
    fn client_update_time(&self, client_id: &ClientId, height: &Height) -> (r: Result<
        Timestamp,
        ContextError,
    >)
    {
        match self.client_processed_times.get(&(client_id.clone(), *height)) {
            Some(t) => Ok(*t),
            None => Err(
                ContextError::ChannelError(
                    ChannelError::ProcessedTimeNotFound {
                        client_id: client_id.clone(),
                        height: *height,
                    },
                ),
            ),
        }
    }

    /// The host height at which the client was updated to the height.
    fn client_update_height(&self, client_id: &ClientId, height: &Height) -> (r: Result<
        Height,
        ContextError,
    >)
    {
        match self.client_processed_heights.get(&(client_id.clone(), *height)) {
            Some(h) => Ok(*h),
            None => Err(
                ContextError::ChannelError(
                    ChannelError::ProcessedHeightNotFound {
                        client_id: client_id.clone(),
                        height: *height,
                    },
                ),
            ),
        }
    }

    /// How many channel identifiers have been handed out.
    fn channel_counter(&self) -> (r: Result<u64, ContextError>)
    {
        Ok(self.channel_ids_counter)
    }

    /// Every signer is accepted.
    fn validate_message_signer(&self, signer: &Signer) -> (r: Result<(), ContextError>)
    {
        Ok(())
    }
}

/// The execution interface of a store: writes of clients, connections,
/// channels and packets, and the events and log messages of the handlers.
pub trait ExecutionContext: View<V = SolanaStoreState> {
    /// Records the encoded state of the client and its type.
    fn store_client_state(&mut self, client_id: ClientId, client_type: ClientType, client_state: Vec<
        u8,
    >) -> (r: Result<(), ContextError>)
        ensures
            r is Ok,
            final(self)@ == old(self)@.with_ibc(
                old(self)@.ibc.with_client_state(client_id@, client_state@).with_client_type(
                    client_id@,
                    client_type@,
                ),
            ),
    ;

    /// Records the encoded consensus state of the client at the height
    /// `(epoch, height)`. The client gets a record of consensus states even
    /// where the height is refused.
    fn store_consensus_state(
        &mut self,
        client_id: ClientId,
        epoch: u64,
        height: u64,
        consensus_state: Vec<u8>,
    ) -> (r: Result<(), ContextError>)
        ensures
            height == 0 ==> {
                &&& r matches Err(ContextError::ClientError(ClientError::Other { description }))
                    && description@ == height_failure_message()
                &&& final(self)@ == old(self)@.with_ibc(
                    old(self)@.ibc.with_consensus_record(client_id@),
                )
            },
            height != 0 ==> {
                &&& r is Ok
                &&& final(self)@ == old(self)@.with_ibc(
                    old(self)@.ibc.with_consensus_state(
                        client_id@,
                        Height { revision_number: epoch, revision_height: height },
                        consensus_state@,
                    ),
                )
            },
    ;

    /// Counts one more client identifier, stopping at the largest `u64`.
    fn increase_client_counter(&mut self)
        ensures
            final(self)@ == old(self)@.with_ibc(
                old(self)@.ibc.with_client_counter(saturating_succ(old(self)@.ibc.client_ids_counter)),
            ),
    ;

    /// Records the host time at which the client was updated to the height.
    fn store_update_time(&mut self, client_id: ClientId, height: Height, timestamp: Timestamp) -> (r:
        Result<(), ContextError>)
        ensures
            r is Ok,
            final(self)@ == old(self)@.with_ibc(
                old(self)@.ibc.with_update_time(client_id@, height, timestamp),
            ),
    ;

    /// Records the host height at which the client was updated to the height.
    fn store_update_height(
        &mut self,
        client_id: ClientId,
        height: Height,
        host_height: Height,
    ) -> (r: Result<(), ContextError>)
        ensures
            r is Ok,
            final(self)@ == old(self)@.with_ibc(
                old(self)@.ibc.with_update_height(client_id@, height, host_height),
            ),
    ;

    /// Records the connection.
    fn store_connection(&mut self, connection_id: ConnectionId, connection_end: ConnectionEnd) -> (r:
        Result<(), ContextError>)
        ensures
            r is Ok,
            final(self)@ == old(self)@.with_ibc(
                old(self)@.ibc.with_connection(connection_id@, connection_end),
            ),
    ;

    /// Records the connection of the client.
    fn store_connection_to_client(&mut self, client_id: ClientId, conn_id: ConnectionId) -> (r: Result<
        (),
        ContextError,
    >)
        ensures
            r is Ok,
            final(self)@ == old(self)@.with_ibc(
                old(self)@.ibc.with_client_connection(client_id@, conn_id@),
            ),
    ;

    /// Counts one more connection identifier, stopping at the largest `u64`.
    fn increase_connection_counter(&mut self)
        ensures
            final(self)@ == old(self)@.with_ibc(
                old(self)@.ibc.with_connection_counter(saturating_succ(old(self)@.ibc.connection_ids_counter)),
            ),
    ;

    /// Records the commitment to the packet with the sequence number sent on the channel.
    fn store_packet_commitment(
        &mut self,
        port_id: PortId,
        channel_id: ChannelId,
        seq: Sequence,
        commitment: PacketCommitment,
    ) -> (r: Result<(), ContextError>)
        ensures
            r is Ok,
            final(self)@ == old(self)@.with_ibc(
                old(self)@.ibc.with_commitment(port_id@, channel_id@, seq, commitment@),
            ),
    ;

    /// Forgets the commitment to the packet, if there is one.
    fn delete_packet_commitment(&mut self, port_id: &PortId, channel_id: &ChannelId, seq: &Sequence) -> (r:
        Result<(), ContextError>)
        ensures
            r is Ok,
            final(self)@ == old(self)@.with_ibc(
                old(self)@.ibc.without_commitment(port_id@, channel_id@, *seq),
            ),
    ;

    /// Records the receipt of the packet with the sequence number received on the channel.
    fn store_packet_receipt(
        &mut self,
        port_id: PortId,
        channel_id: ChannelId,
        seq: Sequence,
        receipt: Receipt,
    ) -> (r: Result<(), ContextError>)
        ensures
            r is Ok,
            final(self)@ == old(self)@.with_ibc(
                old(self)@.ibc.with_receipt(port_id@, channel_id@, seq, receipt),
            ),
    ;

    /// Records the acknowledgement commitment of the packet with the sequence number.
    fn store_packet_acknowledgement(
        &mut self,
        port_id: PortId,
        channel_id: ChannelId,
        seq: Sequence,
        ack_commitment: AcknowledgementCommitment,
    ) -> (r: Result<(), ContextError>)
        ensures
            r is Ok,
            final(self)@ == old(self)@.with_ibc(
                old(self)@.ibc.with_acknowledgement(port_id@, channel_id@, seq, ack_commitment@),
            ),
    ;

    /// Forgets the acknowledgement commitment of the packet, if there is one.
    fn delete_packet_acknowledgement(
        &mut self,
        port_id: &PortId,
        channel_id: &ChannelId,
        seq: &Sequence,
    ) -> (r: Result<(), ContextError>)
        ensures
            r is Ok,
            final(self)@ == old(self)@.with_ibc(
                old(self)@.ibc.without_acknowledgement(port_id@, channel_id@, *seq),
            ),
    ;

    /// Records the channel on the port.
    fn store_channel(&mut self, port_id: PortId, channel_id: ChannelId, channel_end: ChannelEnd) -> (r:
        Result<(), ContextError>)
        ensures
            r is Ok,
            final(self)@ == old(self)@.with_ibc(
                old(self)@.ibc.with_channel(port_id@, channel_id@, channel_end),
            ),
    ;

    /// Records the sequence number of the next packet to send on the channel.
    fn store_next_sequence_send(&mut self, port_id: PortId, channel_id: ChannelId, seq: Sequence) -> (r:
        Result<(), ContextError>)
        ensures
            r is Ok,
            final(self)@ == old(self)@.with_ibc(
                old(self)@.ibc.with_next_send(port_id@, channel_id@, seq),
            ),
    ;

    /// Records the sequence number of the next packet to receive on the channel.
    fn store_next_sequence_recv(&mut self, port_id: PortId, channel_id: ChannelId, seq: Sequence) -> (r:
        Result<(), ContextError>)
        ensures
            r is Ok,
            final(self)@ == old(self)@.with_ibc(
                old(self)@.ibc.with_next_recv(port_id@, channel_id@, seq),
            ),
    ;

    /// Records the sequence number of the next packet to acknowledge on the channel.
    fn store_next_sequence_ack(&mut self, port_id: PortId, channel_id: ChannelId, seq: Sequence) -> (r:
        Result<(), ContextError>)
        ensures
            r is Ok,
            final(self)@ == old(self)@.with_ibc(
                old(self)@.ibc.with_next_ack(port_id@, channel_id@, seq),
            ),
    ;

    /// Counts one more channel identifier, stopping at the largest `u64`.
    fn increase_channel_counter(&mut self)
        ensures
            final(self)@ == old(self)@.with_ibc(
                old(self)@.ibc.with_channel_counter(saturating_succ(old(self)@.ibc.channel_ids_counter)),
            ),
    ;

    /// Appends the event to the events emitted.
    fn emit_ibc_event(&mut self, event: IbcEvent)
        ensures
            final(self)@ == (SolanaStoreState { events: old(self)@.events.push(event), ..old(self)@ }),
    ;

    /// Appends the message to the messages logged.
    fn log_message(&mut self, message: String)
        ensures
            final(self)@ == (SolanaStoreState { logs: old(self)@.logs.push(message@), ..old(self)@ }),
    ;
}

/// The message of a height that could not be built.
pub open spec fn height_failure_message() -> Seq<char> {
    "Construct Height failed(invalid height; cannot be zero or negative)"@
}

impl ExecutionContext for SolanaIbcStore {
    /// Records the encoded state of the client and its type.
    fn store_client_state(&mut self, client_id: ClientId, client_type: ClientType, client_state: Vec<
        u8,
    >) -> (r: Result<(), ContextError>)
    {
        let ghost pre = old(self)@;
        let ghost (k, t, b) = (client_id@, client_type@, client_state@);
        self.client_states.insert(client_id.clone(), client_state);
        self.client_types.insert(client_id, client_type);
        assert(self@.ibc =~= pre.ibc.with_client_state(k, b).with_client_type(k, t));
        assert(self@ =~= pre.with_ibc(pre.ibc.with_client_state(k, b).with_client_type(k, t)));
        Ok(())
    }

    /// Records the encoded consensus state of the client at the height
    /// `(epoch, height)`. The client gets a record of consensus states even
    /// where the height is refused.
    fn store_consensus_state(
        &mut self,
        client_id: ClientId,
        epoch: u64,
        height: u64,
        consensus_state: Vec<u8>,
    ) -> (r: Result<(), ContextError>)
    {
        let ghost pre = old(self)@;
        let ghost (k, b) = (client_id@, consensus_state@);
        let mut record = match self.consensus_states.remove(&client_id) {
            Some(record) => record,
            None => KeyedMap::new(),
        };
        assert(record@.map_values(|b: Vec<u8>| b@) =~= pre.ibc.consensus_record(k));
        let h = match Height::new(epoch, height) {
            Ok(h) => h,
            Err(_) => {
                self.consensus_states.insert(client_id, record);
                assert(self@.ibc.consensus_states =~= pre.ibc.with_consensus_record(
                    k,
                ).consensus_states);
                assert(self@ =~= pre.with_ibc(pre.ibc.with_consensus_record(k)));
                return Err(
                    ContextError::ClientError(
                        ClientError::Other {
                            description: String::from_str(
                                "Construct Height failed(invalid height; cannot be zero or negative)",
                            ),
                        },
                    ),
                );
            },
        };
        record.insert(h, consensus_state);
        assert(record@.map_values(|b: Vec<u8>| b@) =~= pre.ibc.consensus_record(k).insert(h, b));
        self.consensus_states.insert(client_id, record);
        assert(self@.ibc.consensus_states =~= pre.ibc.with_consensus_state(
            k,
            h,
            b,
        ).consensus_states);
        assert(self@ =~= pre.with_ibc(pre.ibc.with_consensus_state(k, h, b)));
        Ok(())
    }

    /// Counts one more client identifier, stopping at the largest `u64`.
    fn increase_client_counter(&mut self)
    {
        let ghost pre = old(self)@;
        self.client_ids_counter = self.client_ids_counter.saturating_add(1);
        assert(self@ =~= pre.with_ibc(pre.ibc.with_client_counter(saturating_succ(pre.ibc.client_ids_counter))));
    }

    /// Records the host time at which the client was updated to the height.
    fn store_update_time(&mut self, client_id: ClientId, height: Height, timestamp: Timestamp) -> (r:
        Result<(), ContextError>)
    {
        let ghost pre = old(self)@;
        let ghost k = client_id@;
        self.client_processed_times.insert((client_id, height), timestamp);
        assert(self@ =~= pre.with_ibc(pre.ibc.with_update_time(k, height, timestamp)));
        Ok(())
    }

    /// Records the host height at which the client was updated to the height.
    fn store_update_height(
        &mut self,
        client_id: ClientId,
        height: Height,
        host_height: Height,
    ) -> (r: Result<(), ContextError>)
    {
        let ghost pre = old(self)@;
        let ghost k = client_id@;
        self.client_processed_heights.insert((client_id, height), host_height);
        assert(self@ =~= pre.with_ibc(pre.ibc.with_update_height(k, height, host_height)));
        Ok(())
    }

    /// Records the connection.
    fn store_connection(&mut self, connection_id: ConnectionId, connection_end: ConnectionEnd) -> (r:
        Result<(), ContextError>)
    {
        let ghost pre = old(self)@;
        let ghost k = connection_id@;
        self.connections.insert(connection_id, connection_end);
        assert(self@ =~= pre.with_ibc(pre.ibc.with_connection(k, connection_end)));
        Ok(())
    }

    /// Records the connection of the client.
    fn store_connection_to_client(&mut self, client_id: ClientId, conn_id: ConnectionId) -> (r: Result<
        (),
        ContextError,
    >)
    {
        let ghost pre = old(self)@;
        let ghost (k, c) = (client_id@, conn_id@);
        self.client_connections.insert(client_id, conn_id);
        assert(self@ =~= pre.with_ibc(pre.ibc.with_client_connection(k, c)));
        Ok(())
    }

    /// Counts one more connection identifier, stopping at the largest `u64`.
    fn increase_connection_counter(&mut self)
    {
        let ghost pre = old(self)@;
        self.connection_ids_counter = self.connection_ids_counter.saturating_add(1);
        assert(self@ =~= pre.with_ibc(pre.ibc.with_connection_counter(saturating_succ(pre.ibc.connection_ids_counter))));
    }

    /// Records the commitment to the packet with the sequence number sent on the channel.
    fn store_packet_commitment(
        &mut self,
        port_id: PortId,
        channel_id: ChannelId,
        seq: Sequence,
        commitment: PacketCommitment,
    ) -> (r: Result<(), ContextError>)
    {
        let ghost pre = old(self)@;
        let ghost (p, c, b) = (port_id@, channel_id@, commitment@);
        self.packet_commitment.insert((port_id, channel_id, seq), commitment);
        assert(self@ =~= pre.with_ibc(pre.ibc.with_commitment(p, c, seq, b)));
        Ok(())
    }

    /// Forgets the commitment to the packet, if there is one.
    fn delete_packet_commitment(&mut self, port_id: &PortId, channel_id: &ChannelId, seq: &Sequence) -> (r:
        Result<(), ContextError>)
    {
        let ghost pre = old(self)@;
        let _ = self.packet_commitment.remove(&(port_id.clone(), channel_id.clone(), *seq));
        assert(self@ =~= pre.with_ibc(pre.ibc.without_commitment(port_id@, channel_id@, *seq)));
        Ok(())
    }

    /// Records the receipt of the packet with the sequence number received on the channel.
    fn store_packet_receipt(
        &mut self,
        port_id: PortId,
        channel_id: ChannelId,
        seq: Sequence,
        receipt: Receipt,
    ) -> (r: Result<(), ContextError>)
    {
        let ghost pre = old(self)@;
        let ghost (p, c) = (port_id@, channel_id@);
        self.packet_receipt.insert((port_id, channel_id, seq), receipt);
        assert(self@ =~= pre.with_ibc(pre.ibc.with_receipt(p, c, seq, receipt)));
        Ok(())
    }

    /// Records the acknowledgement commitment of the packet with the sequence number.
    fn store_packet_acknowledgement(
        &mut self,
        port_id: PortId,
        channel_id: ChannelId,
        seq: Sequence,
        ack_commitment: AcknowledgementCommitment,
    ) -> (r: Result<(), ContextError>)
    {
        let ghost pre = old(self)@;
        let ghost (p, c, b) = (port_id@, channel_id@, ack_commitment@);
        self.packet_acknowledgement.insert((port_id, channel_id, seq), ack_commitment);
        assert(self@ =~= pre.with_ibc(pre.ibc.with_acknowledgement(p, c, seq, b)));
        Ok(())
    }

    /// Forgets the acknowledgement commitment of the packet, if there is one.
    fn delete_packet_acknowledgement(
        &mut self,
        port_id: &PortId,
        channel_id: &ChannelId,
        seq: &Sequence,
    ) -> (r: Result<(), ContextError>)
    {
        let ghost pre = old(self)@;
        let _ = self.packet_acknowledgement.remove(&(port_id.clone(), channel_id.clone(), *seq));
        assert(self@ =~= pre.with_ibc(
            pre.ibc.without_acknowledgement(port_id@, channel_id@, *seq),
        ));
        Ok(())
    }

    /// Records the channel on the port.
    fn store_channel(&mut self, port_id: PortId, channel_id: ChannelId, channel_end: ChannelEnd) -> (r:
        Result<(), ContextError>)
    {
        let ghost pre = old(self)@;
        let ghost (p, c) = (port_id@, channel_id@);
        self.channels.insert((port_id, channel_id), channel_end);
        assert(self@ =~= pre.with_ibc(pre.ibc.with_channel(p, c, channel_end)));
        Ok(())
    }

    /// Records the sequence number of the next packet to send on the channel.
    fn store_next_sequence_send(&mut self, port_id: PortId, channel_id: ChannelId, seq: Sequence) -> (r:
        Result<(), ContextError>)
    {
        let ghost pre = old(self)@;
        let ghost (p, c) = (port_id@, channel_id@);
        self.next_sequence_send.insert((port_id, channel_id), seq);
        assert(self@ =~= pre.with_ibc(pre.ibc.with_next_send(p, c, seq)));
        Ok(())
    }

    /// Records the sequence number of the next packet to receive on the channel.
    fn store_next_sequence_recv(&mut self, port_id: PortId, channel_id: ChannelId, seq: Sequence) -> (r:
        Result<(), ContextError>)
    {
        let ghost pre = old(self)@;
        let ghost (p, c) = (port_id@, channel_id@);
        self.next_sequence_recv.insert((port_id, channel_id), seq);
        assert(self@ =~= pre.with_ibc(pre.ibc.with_next_recv(p, c, seq)));
        Ok(())
    }

    /// Records the sequence number of the next packet to acknowledge on the channel.
    fn store_next_sequence_ack(&mut self, port_id: PortId, channel_id: ChannelId, seq: Sequence) -> (r:
        Result<(), ContextError>)
    {
        let ghost pre = old(self)@;
        let ghost (p, c) = (port_id@, channel_id@);
        self.next_sequence_ack.insert((port_id, channel_id), seq);
        assert(self@ =~= pre.with_ibc(pre.ibc.with_next_ack(p, c, seq)));
        Ok(())
    }

    /// Counts one more channel identifier, stopping at the largest `u64`.
    fn increase_channel_counter(&mut self)
    {
        let ghost pre = old(self)@;
        self.channel_ids_counter = self.channel_ids_counter.saturating_add(1);
        assert(self@ =~= pre.with_ibc(pre.ibc.with_channel_counter(saturating_succ(pre.ibc.channel_ids_counter))));
    }

    /// Appends the event to the events emitted.
    fn emit_ibc_event(&mut self, event: IbcEvent)
    {
        let ghost pre = old(self)@;
        self.events.push(event);
        assert(self@ =~= SolanaStoreState { events: pre.events.push(event), ..pre });
    }

    /// Appends the message to the messages logged.
    fn log_message(&mut self, message: String)
    {
        let ghost pre = old(self)@;
        let ghost m = message@;
        self.logs.push(message);
        assert(self@.logs =~= pre.logs.push(m));
        assert(self@ =~= SolanaStoreState { logs: pre.logs.push(m), ..pre });
    }
}

} // verus!
