//! The abstract state of an IBC host store, the operations that change it,
//! and the lookups that read it. Both stores of this crate are described by it.
use vstd::prelude::*;

use crate::types::{Height, Receipt};
use ibc_core_channel_types::channel::ChannelEnd;
use ibc_core_connection_types::ConnectionEnd;

verus! {

/// Everything an IBC host store holds, as mathematical maps. Identifiers are
/// sequences of characters; channel-level tables are keyed by
/// `(port, channel)` and packet-level tables by `(port, channel, sequence)`.
#[verifier::ext_equal]
pub struct StoreState {
    pub client_types: Map<Seq<char>, Seq<char>>,
    pub client_states: Map<Seq<char>, Seq<u8>>,
    pub consensus_states: Map<Seq<char>, Map<Height, Seq<u8>>>,
    pub client_processed_times: Map<(Seq<char>, Height), u64>,
    pub client_processed_heights: Map<(Seq<char>, Height), Height>,
    pub client_ids_counter: u64,
    pub client_connections: Map<Seq<char>, Seq<char>>,
    pub connections: Map<Seq<char>, ConnectionEnd>,
    pub connection_ids_counter: u64,
    pub connection_channels: Map<Seq<char>, Seq<(Seq<char>, Seq<char>)>>,
    pub channel_ids_counter: u64,
    pub channels: Map<(Seq<char>, Seq<char>), ChannelEnd>,
    pub next_sequence_send: Map<(Seq<char>, Seq<char>), u64>,
    pub next_sequence_recv: Map<(Seq<char>, Seq<char>), u64>,
    pub next_sequence_ack: Map<(Seq<char>, Seq<char>), u64>,
    pub packet_acknowledgement: Map<(Seq<char>, Seq<char>, u64), Seq<u8>>,
    pub port_to_module: Map<Seq<char>, Seq<char>>,
    pub packet_commitment: Map<(Seq<char>, Seq<char>, u64), Seq<u8>>,
    pub packet_receipt: Map<(Seq<char>, Seq<char>, u64), Receipt>,
}

/// The value under `k`, if any.
pub open spec fn lookup<K, V>(m: Map<K, V>, k: K) -> Option<V> {
    if m.contains_key(k) {
        Some(m[k])
    } else {
        None
    }
}

/// Adds one, stopping at the largest `u64`.
pub open spec fn saturating_succ(x: u64) -> u64 {
    if x == u64::MAX {
        x
    } else {
        (x + 1) as u64
    }
}

/// `k` is the lowest of the heights above `h`.
pub open spec fn is_least_above(heights: Set<Height>, h: Height, k: Height) -> bool {
    &&& heights.contains(k)
    &&& crate::types::height_lt(h, k)
    &&& forall|k2: Height|
        heights.contains(k2) && crate::types::height_lt(h, k2) ==> !crate::types::height_lt(k2, k)
}

/// `k` is the highest of the heights below `h`.
pub open spec fn is_greatest_below(heights: Set<Height>, h: Height, k: Height) -> bool {
    &&& heights.contains(k)
    &&& crate::types::height_lt(k, h)
    &&& forall|k2: Height|
        heights.contains(k2) && crate::types::height_lt(k2, h) ==> !crate::types::height_lt(k, k2)
}

/// The lowest height above `h`, if there is one.
pub open spec fn least_height_above(heights: Set<Height>, h: Height) -> Option<Height> {
    if exists|k: Height| is_least_above(heights, h, k) {
        Some(choose|k: Height| is_least_above(heights, h, k))
    } else {
        None
    }
}

/// The highest height below `h`, if there is one.
pub open spec fn greatest_height_below(heights: Set<Height>, h: Height) -> Option<Height> {
    if exists|k: Height| is_greatest_below(heights, h, k) {
        Some(choose|k: Height| is_greatest_below(heights, h, k))
    } else {
        None
    }
}

impl StoreState {
    /// A store that holds nothing, with every counter at zero.
    pub open spec fn empty() -> StoreState {
        StoreState {
            client_types: Map::empty(),
            client_states: Map::empty(),
            consensus_states: Map::empty(),
            client_processed_times: Map::empty(),
            client_processed_heights: Map::empty(),
            client_ids_counter: 0,
            client_connections: Map::empty(),
            connections: Map::empty(),
            connection_ids_counter: 0,
            connection_channels: Map::empty(),
            channel_ids_counter: 0,
            channels: Map::empty(),
            next_sequence_send: Map::empty(),
            next_sequence_recv: Map::empty(),
            next_sequence_ack: Map::empty(),
            packet_acknowledgement: Map::empty(),
            port_to_module: Map::empty(),
            packet_commitment: Map::empty(),
            packet_receipt: Map::empty(),
        }
    }

    // ---- lookups ----
    pub open spec fn client_type(self, client: Seq<char>) -> Option<Seq<char>> {
        lookup(self.client_types, client)
    }

    pub open spec fn client_state(self, client: Seq<char>) -> Option<Seq<u8>> {
        lookup(self.client_states, client)
    }

    /// The consensus state stored for the client at the height.
    pub open spec fn consensus_state(self, client: Seq<char>, height: Height) -> Option<Seq<u8>> {
        if self.consensus_states.contains_key(client) {
            lookup(self.consensus_states[client], height)
        } else {
            None
        }
    }

    pub open spec fn update_time(self, client: Seq<char>, height: Height) -> Option<u64> {
        lookup(self.client_processed_times, (client, height))
    }

    pub open spec fn update_height(self, client: Seq<char>, height: Height) -> Option<Height> {
        lookup(self.client_processed_heights, (client, height))
    }

    pub open spec fn connection(self, connection: Seq<char>) -> Option<ConnectionEnd> {
        lookup(self.connections, connection)
    }

    pub open spec fn client_connection(self, client: Seq<char>) -> Option<Seq<char>> {
        lookup(self.client_connections, client)
    }

    pub open spec fn channels_of_connection(self, connection: Seq<char>) -> Option<
        Seq<(Seq<char>, Seq<char>)>,
    > {
        lookup(self.connection_channels, connection)
    }

    pub open spec fn channel(self, port: Seq<char>, channel: Seq<char>) -> Option<ChannelEnd> {
        lookup(self.channels, (port, channel))
    }

    pub open spec fn next_send(self, port: Seq<char>, channel: Seq<char>) -> Option<u64> {
        lookup(self.next_sequence_send, (port, channel))
    }

    pub open spec fn next_recv(self, port: Seq<char>, channel: Seq<char>) -> Option<u64> {
        lookup(self.next_sequence_recv, (port, channel))
    }

    pub open spec fn next_ack(self, port: Seq<char>, channel: Seq<char>) -> Option<u64> {
        lookup(self.next_sequence_ack, (port, channel))
    }

    pub open spec fn commitment(self, port: Seq<char>, channel: Seq<char>, seq: u64) -> Option<
        Seq<u8>,
    > {
        lookup(self.packet_commitment, (port, channel, seq))
    }

    pub open spec fn receipt(self, port: Seq<char>, channel: Seq<char>, seq: u64) -> Option<
        Receipt,
    > {
        lookup(self.packet_receipt, (port, channel, seq))
    }

    pub open spec fn acknowledgement(self, port: Seq<char>, channel: Seq<char>, seq: u64) -> Option<
        Seq<u8>,
    > {
        lookup(self.packet_acknowledgement, (port, channel, seq))
    }

    // ---- changes ----
    pub open spec fn with_client_type(self, client: Seq<char>, client_type: Seq<char>) -> Self {
        StoreState { client_types: self.client_types.insert(client, client_type), ..self }
    }

    pub open spec fn with_client_state(self, client: Seq<char>, state: Seq<u8>) -> Self {
        StoreState { client_states: self.client_states.insert(client, state), ..self }
    }

    /// The consensus heights of the client, or none at all where it has no record.
    pub open spec fn consensus_record(self, client: Seq<char>) -> Map<Height, Seq<u8>> {
        if self.consensus_states.contains_key(client) {
            self.consensus_states[client]
        } else {
            Map::empty()
        }
    }

    /// Gives the client a (possibly empty) record of consensus states.
    pub open spec fn with_consensus_record(self, client: Seq<char>) -> Self {
        StoreState {
            consensus_states: self.consensus_states.insert(client, self.consensus_record(client)),
            ..self
        }
    }

    pub open spec fn with_consensus_state(self, client: Seq<char>, height: Height, state: Seq<u8>) -> Self {
        StoreState {
            consensus_states: self.consensus_states.insert(
                client,
                self.consensus_record(client).insert(height, state),
            ),
            ..self
        }
    }

    pub open spec fn with_update_time(self, client: Seq<char>, height: Height, time: u64) -> Self {
        StoreState {
            client_processed_times: self.client_processed_times.insert((client, height), time),
            ..self
        }
    }

    pub open spec fn with_update_height(self, client: Seq<char>, height: Height, host: Height) -> Self {
        StoreState {
            client_processed_heights: self.client_processed_heights.insert((client, height), host),
            ..self
        }
    }

    pub open spec fn with_client_counter(self, counter: u64) -> Self {
        StoreState { client_ids_counter: counter, ..self }
    }

    pub open spec fn with_connection(self, connection: Seq<char>, end: ConnectionEnd) -> Self {
        StoreState { connections: self.connections.insert(connection, end), ..self }
    }

    pub open spec fn with_client_connection(self, client: Seq<char>, connection: Seq<char>) -> Self {
        StoreState { client_connections: self.client_connections.insert(client, connection), ..self }
    }

    pub open spec fn with_connection_counter(self, counter: u64) -> Self {
        StoreState { connection_ids_counter: counter, ..self }
    }

    /// Appends `(port, channel)` to the channels of the connection.
    pub open spec fn with_connection_channel(
        self,
        connection: Seq<char>,
        port: Seq<char>,
        channel: Seq<char>,
    ) -> Self {
        let before = if self.connection_channels.contains_key(connection) {
            self.connection_channels[connection]
        } else {
            Seq::empty()
        };
        StoreState {
            connection_channels: self.connection_channels.insert(
                connection,
                before.push((port, channel)),
            ),
            ..self
        }
    }

    pub open spec fn with_channel(self, port: Seq<char>, channel: Seq<char>, end: ChannelEnd) -> Self {
        StoreState { channels: self.channels.insert((port, channel), end), ..self }
    }

    pub open spec fn with_channel_counter(self, counter: u64) -> Self {
        StoreState { channel_ids_counter: counter, ..self }
    }

    pub open spec fn with_next_send(self, port: Seq<char>, channel: Seq<char>, seq: u64) -> Self {
        StoreState { next_sequence_send: self.next_sequence_send.insert((port, channel), seq), ..self }
    }

    pub open spec fn with_next_recv(self, port: Seq<char>, channel: Seq<char>, seq: u64) -> Self {
        StoreState { next_sequence_recv: self.next_sequence_recv.insert((port, channel), seq), ..self }
    }

    pub open spec fn with_next_ack(self, port: Seq<char>, channel: Seq<char>, seq: u64) -> Self {
        StoreState { next_sequence_ack: self.next_sequence_ack.insert((port, channel), seq), ..self }
    }

    pub open spec fn with_commitment(
        self,
        port: Seq<char>,
        channel: Seq<char>,
        seq: u64,
        commitment: Seq<u8>,
    ) -> Self {
        StoreState {
            packet_commitment: self.packet_commitment.insert((port, channel, seq), commitment),
            ..self
        }
    }

    pub open spec fn without_commitment(self, port: Seq<char>, channel: Seq<char>, seq: u64) -> Self {
        StoreState { packet_commitment: self.packet_commitment.remove((port, channel, seq)), ..self }
    }

    pub open spec fn with_receipt(
        self,
        port: Seq<char>,
        channel: Seq<char>,
        seq: u64,
        receipt: Receipt,
    ) -> Self {
        StoreState { packet_receipt: self.packet_receipt.insert((port, channel, seq), receipt), ..self }
    }

    pub open spec fn with_acknowledgement(
        self,
        port: Seq<char>,
        channel: Seq<char>,
        seq: u64,
        ack: Seq<u8>,
    ) -> Self {
        StoreState {
            packet_acknowledgement: self.packet_acknowledgement.insert((port, channel, seq), ack),
            ..self
        }
    }

    pub open spec fn without_acknowledgement(self, port: Seq<char>, channel: Seq<char>, seq: u64) -> Self {
        StoreState {
            packet_acknowledgement: self.packet_acknowledgement.remove((port, channel, seq)),
            ..self
        }
    }
}

} // verus!
