//! The channel and packet reader and keeper of the reader and keeper store.
use vstd::prelude::*;

use super::{
    client_state_outcome, consensus_state_outcome, in_channel, in_connection, IbcStore,
};
use crate::keyed_map::KeyedMap;
use crate::outside::{sha256, sha256_digest};
use crate::store_state::{saturating_succ, StoreState};
use crate::types::{
    AcknowledgementCommitment, ChannelError, ChannelErrorView, ChannelId, ClientErrorView,
    ClientId, ConnectionErrorView, ConnectionId, Height, PacketCommitment, PacketError,
    PacketErrorView, PortId, Receipt, Sequence, Timestamp,
};
use ibc::clients::tendermint::client_state::ClientState as TmClientState;
use ibc::clients::tendermint::consensus_state::ConsensusState as TmConsensusState;
use ibc_core_channel_types::channel::ChannelEnd;
use ibc_core_connection_types::ConnectionEnd;

verus! {

/// A copy of a list of port and channel identifiers.
pub fn copy_port_channels(v: &Vec<(PortId, ChannelId)>) -> (r: Vec<(PortId, ChannelId)>)
    ensures
        r@.map_values(|p: (String, String)| p@) == v@.map_values(|p: (String, String)| p@),
{
    let mut r: Vec<(PortId, ChannelId)> = Vec::new();
    let n = v.len();
    let mut i: usize = 0;
    while i < n
        invariant
            n == v@.len(),
            i <= n,
            r@.len() == i,
            forall|j: int| 0 <= j < i ==> #[trigger] r@[j]@ == v@[j]@,
        decreases n - i,
    {
        let p = &v[i];
        r.push((p.0.clone(), p.1.clone()));
        i = i + 1;
    }
    assert(r@.map_values(|p: (String, String)| p@) =~= v@.map_values(|p: (String, String)| p@));
    r
}

/// A copy of a byte string.
pub fn copy_bytes(v: &Vec<u8>) -> (r: Vec<u8>)
    ensures
        r@ == v@,
{
    let r = v.clone();
    assert(r@ =~= v@);
    r
}

/// Reads of the channel and packet part of a store.
pub trait ChannelReader: View<V = StoreState> {
    /// The channel on the port.
    fn channel_end(&self, port_id: &PortId, channel_id: &ChannelId) -> (r: Result<
        ChannelEnd,
        ChannelError,
    >)
        ensures
            match r {
                Ok(end) => self@.channel(port_id@, channel_id@) == Some(end),
                Err(e) => self@.channel(port_id@, channel_id@) is None && e@
                    == ChannelErrorView::ChannelNotFound(port_id@, channel_id@),
            },
    ;

    /// The connection, as [`super::connection::ConnectionReader::connection_end`]
    /// finds it, its error as a channel error.
    fn connection_end(&self, connection_id: &ConnectionId) -> (r: Result<ConnectionEnd, ChannelError>)
        ensures
            match r {
                Ok(end) => self@.connection(connection_id@) == Some(end),
                Err(e) => self@.connection(connection_id@) is None && e@
                    == ChannelErrorView::Connection(
                    ConnectionErrorView::ConnectionNotFound(connection_id@),
                ),
            },
    ;

    /// The channels of the connection, in the order in which they were added.
    fn connection_channels(&self, conn_id: &ConnectionId) -> (r: Result<
        Vec<(PortId, ChannelId)>,
        ChannelError,
    >)
        ensures
            match r {
                Ok(v) => self@.channels_of_connection(conn_id@) == Some(
                    v@.map_values(|p: (String, String)| p@),
                ),
                Err(e) => self@.channels_of_connection(conn_id@) is None && e@
                    == ChannelErrorView::MissingChannel,
            },
    ;

    /// The client's state, as [`super::client::ClientReader::client_state`]
    /// decodes it, its error as a channel error.
    fn client_state(&self, client_id: &ClientId) -> (r: Result<TmClientState, ChannelError>)
        ensures
            crate::types::result_of(r) == in_channel(
                in_connection(client_state_outcome(self@, client_id@)),
            ),
    ;

    /// The client's consensus state at the height, as
    /// [`super::client::ClientReader::consensus_state`] decodes it, its error as a channel error.
    fn client_consensus_state(&self, client_id: &ClientId, height: &Height) -> (r: Result<
        TmConsensusState,
        ChannelError,
    >)
        ensures
            crate::types::result_of(r) == in_channel(
                in_connection(consensus_state_outcome(self@, client_id@, *height)),
            ),
    ;

    /// The sequence number of the next packet to send on the channel.
    fn get_next_sequence_send(&self, port_id: &PortId, channel_id: &ChannelId) -> (r: Result<
        Sequence,
        PacketError,
    >)
        ensures
            match r {
                Ok(seq) => self@.next_send(port_id@, channel_id@) == Some(seq),
                Err(e) => self@.next_send(port_id@, channel_id@) is None && e@
                    == PacketErrorView::MissingNextSendSeq(port_id@, channel_id@),
            },
    ;

    /// The sequence number of the next packet to receive on the channel.
    fn get_next_sequence_recv(&self, port_id: &PortId, channel_id: &ChannelId) -> (r: Result<
        Sequence,
        PacketError,
    >)
        ensures
            match r {
                Ok(seq) => self@.next_recv(port_id@, channel_id@) == Some(seq),
                Err(e) => self@.next_recv(port_id@, channel_id@) is None && e@
                    == PacketErrorView::MissingNextRecvSeq(port_id@, channel_id@),
            },
    ;

    /// The sequence number of the next packet to acknowledge on the channel.
    fn get_next_sequence_ack(&self, port_id: &PortId, channel_id: &ChannelId) -> (r: Result<
        Sequence,
        PacketError,
    >)
        ensures
            match r {
                Ok(seq) => self@.next_ack(port_id@, channel_id@) == Some(seq),
                Err(e) => self@.next_ack(port_id@, channel_id@) is None && e@
                    == PacketErrorView::MissingNextAckSeq(port_id@, channel_id@),
            },
    ;

    /// The commitment to the packet with the sequence number sent on the channel.
    fn get_packet_commitment(&self, port_id: &PortId, channel_id: &ChannelId, seq: &Sequence) -> (r:
        Result<PacketCommitment, PacketError>)
        ensures
            match r {
                Ok(c) => self@.commitment(port_id@, channel_id@, *seq) == Some(c@),
                Err(e) => self@.commitment(port_id@, channel_id@, *seq) is None && e@
                    == PacketErrorView::PacketCommitmentNotFound(*seq),
            },
    ;

    /// The receipt of the packet with the sequence number received on the channel.
    fn get_packet_receipt(&self, port_id: &PortId, channel_id: &ChannelId, seq: &Sequence) -> (r:
        Result<Receipt, PacketError>)
        ensures
            match r {
                Ok(receipt) => self@.receipt(port_id@, channel_id@, *seq) == Some(receipt),
                Err(e) => self@.receipt(port_id@, channel_id@, *seq) is None && e@
                    == PacketErrorView::PacketReceiptNotFound(*seq),
            },
    ;

    /// The acknowledgement commitment of the packet with the sequence number on the channel.
    fn get_packet_acknowledgement(
        &self,
        port_id: &PortId,
        channel_id: &ChannelId,
        seq: &Sequence,
    ) -> (r: Result<AcknowledgementCommitment, PacketError>)
        ensures
            match r {
                Ok(ack) => self@.acknowledgement(port_id@, channel_id@, *seq) == Some(ack@),
                Err(e) => self@.acknowledgement(port_id@, channel_id@, *seq) is None && e@
                    == PacketErrorView::PacketAcknowledgementNotFound(*seq),
            },
    ;

    /// The SHA-256 digest of the bytes, with which packet commitments are made.
    fn hash(&self, value: &[u8]) -> (r: Vec<u8>)
        ensures
            r@ == sha256_digest(value@),
            r@.len() == 32,
    ;

    /// The host's consensus state is not available.
    fn host_consensus_state(&self, height: &Height) -> (r: Result<TmConsensusState, ChannelError>)
        ensures
            crate::types::outcome_of(r) == Err::<(), ChannelErrorView>(
                ChannelErrorView::Connection(
                    ConnectionErrorView::Client(ClientErrorView::ImplementationSpecific),
                ),
            ),
    ;

    /// The host's pending consensus state is not available.
    fn pending_host_consensus_state(&self) -> (r: Result<TmConsensusState, ChannelError>)
        ensures
            crate::types::outcome_of(r) == Err::<(), ChannelErrorView>(
                ChannelErrorView::Connection(
                    ConnectionErrorView::Client(ClientErrorView::ImplementationSpecific),
                ),
            ),
    ;

    /// The host time at which the client was updated to the height.
    fn client_update_time(&self, client_id: &ClientId, height: &Height) -> (r: Result<
        Timestamp,
        ChannelError,
    >)
        ensures
            match r {
                Ok(t) => self@.update_time(client_id@, *height) == Some(t),
                Err(e) => self@.update_time(client_id@, *height) is None && e@
                    == ChannelErrorView::ProcessedTimeNotFound(client_id@, *height),
            },
    ;

    /// The host height at which the client was updated to the height.
    fn client_update_height(&self, client_id: &ClientId, height: &Height) -> (r: Result<
        Height,
        ChannelError,
    >)
        ensures
            match r {
                Ok(h) => self@.update_height(client_id@, *height) == Some(h),
                Err(e) => self@.update_height(client_id@, *height) is None && e@
                    == ChannelErrorView::ProcessedHeightNotFound(client_id@, *height),
            },
    ;

    /// How many channel identifiers have been handed out.
    fn channel_counter(&self) -> (r: Result<u64, ChannelError>)
        ensures
            r == Ok::<u64, ChannelError>(self@.channel_ids_counter),
    ;
}

impl ChannelReader for IbcStore {
    /// The channel on the port.
    fn channel_end(&self, port_id: &PortId, channel_id: &ChannelId) -> (r: Result<
        ChannelEnd,
        ChannelError,
    >)
    {
        match self.channels.get(&(port_id.clone(), channel_id.clone())) {
            Some(end) => Ok(end.clone()),
            None => Err(
                ChannelError::ChannelNotFound {
                    port_id: port_id.clone(),
                    channel_id: channel_id.clone(),
                },
            ),
        }
    }

    /// The connection, as [`super::connection::ConnectionReader::connection_end`]
    /// finds it, its error as a channel error.
    fn connection_end(&self, connection_id: &ConnectionId) -> (r: Result<ConnectionEnd, ChannelError>)
    {
        match super::connection::ConnectionReader::connection_end(self, connection_id) {
            Ok(end) => Ok(end),
            Err(e) => Err(ChannelError::Connection(e)),
        }
    }

    /// The channels of the connection, in the order in which they were added.
    fn connection_channels(&self, conn_id: &ConnectionId) -> (r: Result<
        Vec<(PortId, ChannelId)>,
        ChannelError,
    >)
    {
        match self.connection_channels.get(conn_id) {
            Some(v) => Ok(copy_port_channels(v)),
            None => Err(ChannelError::MissingChannel),
        }
    }

    /// The client's state, as [`super::client::ClientReader::client_state`]
    /// decodes it, its error as a channel error.
    fn client_state(&self, client_id: &ClientId) -> (r: Result<TmClientState, ChannelError>)
    {
        match super::client::ClientReader::client_state(self, client_id) {
            Ok(state) => Ok(state),
            Err(e) => Err(ChannelError::Connection(crate::types::ConnectionError::Client(e))),
        }
    }

    /// The client's consensus state at the height, as
    /// [`super::client::ClientReader::consensus_state`] decodes it, its error as a channel error.
    fn client_consensus_state(&self, client_id: &ClientId, height: &Height) -> (r: Result<
        TmConsensusState,
        ChannelError,
    >)
    {
        match super::client::ClientReader::consensus_state(self, client_id, height) {
            Ok(state) => Ok(state),
            Err(e) => Err(ChannelError::Connection(crate::types::ConnectionError::Client(e))),
        }
    }

    /// The sequence number of the next packet to send on the channel.
    fn get_next_sequence_send(&self, port_id: &PortId, channel_id: &ChannelId) -> (r: Result<
        Sequence,
        PacketError,
    >)
    {
        match self.next_sequence_send.get(&(port_id.clone(), channel_id.clone())) {
            Some(seq) => Ok(*seq),
            None => Err(
                PacketError::MissingNextSendSeq {
                    port_id: port_id.clone(),
                    channel_id: channel_id.clone(),
                },
            ),
        }
    }

    /// The sequence number of the next packet to receive on the channel.
    fn get_next_sequence_recv(&self, port_id: &PortId, channel_id: &ChannelId) -> (r: Result<
        Sequence,
        PacketError,
    >)
    {
        match self.next_sequence_recv.get(&(port_id.clone(), channel_id.clone())) {
            Some(seq) => Ok(*seq),
            None => Err(
                PacketError::MissingNextRecvSeq {
                    port_id: port_id.clone(),
                    channel_id: channel_id.clone(),
                },
            ),
        }
    }

    /// The sequence number of the next packet to acknowledge on the channel.
    fn get_next_sequence_ack(&self, port_id: &PortId, channel_id: &ChannelId) -> (r: Result<
        Sequence,
        PacketError,
    >)
    {
        match self.next_sequence_ack.get(&(port_id.clone(), channel_id.clone())) {
            Some(seq) => Ok(*seq),
            None => Err(
                PacketError::MissingNextAckSeq {
                    port_id: port_id.clone(),
                    channel_id: channel_id.clone(),
                },
            ),
        }
    }

    /// The commitment to the packet with the sequence number sent on the channel.
    fn get_packet_commitment(&self, port_id: &PortId, channel_id: &ChannelId, seq: &Sequence) -> (r:
        Result<PacketCommitment, PacketError>)
    {
        match self.packet_commitment.get(&(port_id.clone(), channel_id.clone(), *seq)) {
            Some(c) => Ok(copy_bytes(c)),
            None => Err(PacketError::PacketCommitmentNotFound { sequence: *seq }),
        }
    }

    /// The receipt of the packet with the sequence number received on the channel.
    fn get_packet_receipt(&self, port_id: &PortId, channel_id: &ChannelId, seq: &Sequence) -> (r:
        Result<Receipt, PacketError>)
    {
        match self.packet_receipt.get(&(port_id.clone(), channel_id.clone(), *seq)) {
            Some(receipt) => Ok(*receipt),
            None => Err(PacketError::PacketReceiptNotFound { sequence: *seq }),
        }
    }

    /// The acknowledgement commitment of the packet with the sequence number on the channel.
    fn get_packet_acknowledgement(
        &self,
        port_id: &PortId,
        channel_id: &ChannelId,
        seq: &Sequence,
    ) -> (r: Result<AcknowledgementCommitment, PacketError>)
    {
        match self.packet_acknowledgement.get(&(port_id.clone(), channel_id.clone(), *seq)) {
            Some(ack) => Ok(copy_bytes(ack)),
            None => Err(PacketError::PacketAcknowledgementNotFound { sequence: *seq }),
        }
    }

    /// The SHA-256 digest of the bytes, with which packet commitments are made.
    fn hash(&self, value: &[u8]) -> (r: Vec<u8>)
    {
        sha256(value)
    }

    /// The host's consensus state is not available.
    fn host_consensus_state(&self, height: &Height) -> (r: Result<TmConsensusState, ChannelError>)
    {
        match super::connection::ConnectionReader::host_consensus_state(self, height) {
            Ok(state) => Ok(state),
            Err(e) => Err(ChannelError::Connection(e)),
        }
    }

    /// The host's pending consensus state is not available.
    fn pending_host_consensus_state(&self) -> (r: Result<TmConsensusState, ChannelError>)
    {
        match super::client::ClientReader::pending_host_consensus_state(self) {
            Ok(state) => Ok(state),
            Err(e) => Err(ChannelError::Connection(crate::types::ConnectionError::Client(e))),
        }
    }

    /// The host time at which the client was updated to the height.
    fn client_update_time(&self, client_id: &ClientId, height: &Height) -> (r: Result<
        Timestamp,
        ChannelError,
    >)
    {
        match self.client_processed_times.get(&(client_id.clone(), *height)) {
            Some(t) => Ok(*t),
            None => Err(
                ChannelError::ProcessedTimeNotFound { client_id: client_id.clone(), height: *height },
            ),
        }
    }

    /// The host height at which the client was updated to the height.
    fn client_update_height(&self, client_id: &ClientId, height: &Height) -> (r: Result<
        Height,
        ChannelError,
    >)
    {
        match self.client_processed_heights.get(&(client_id.clone(), *height)) {
            Some(h) => Ok(*h),
            None => Err(
                ChannelError::ProcessedHeightNotFound {
                    client_id: client_id.clone(),
                    height: *height,
                },
            ),
        }
    }

    /// How many channel identifiers have been handed out.
    fn channel_counter(&self) -> (r: Result<u64, ChannelError>)
    {
        Ok(self.channel_ids_counter)
    }
}

/// Writes of the channel and packet part of a store.
pub trait ChannelKeeper: View<V = StoreState> {
    /// Records the commitment to the packet with the sequence number sent on the channel.
    fn store_packet_commitment(
        &mut self,
        port_id: PortId,
        channel_id: ChannelId,
        seq: Sequence,
        commitment: PacketCommitment,
    ) -> (r: Result<(), PacketError>)
        ensures
            r is Ok,
            final(self)@ == old(self)@.with_commitment(port_id@, channel_id@, seq, commitment@),
    ;

    /// Records the acknowledgement commitment of the packet with the sequence number.
    fn store_packet_acknowledgement(
        &mut self,
        port_id: PortId,
        channel_id: ChannelId,
        seq: Sequence,
        ack_commitment: AcknowledgementCommitment,
    ) -> (r: Result<(), PacketError>)
        ensures
            r is Ok,
            final(self)@ == old(self)@.with_acknowledgement(
                port_id@,
                channel_id@,
                seq,
                ack_commitment@,
            ),
    ;

    /// Forgets the acknowledgement commitment of the packet, if there is one.
    fn delete_packet_acknowledgement(
        &mut self,
        port_id: &PortId,
        channel_id: &ChannelId,
        seq: &Sequence,
    ) -> (r: Result<(), PacketError>)
        ensures
            r is Ok,
            final(self)@ == old(self)@.without_acknowledgement(port_id@, channel_id@, *seq),
    ;

    /// Appends the channel on the port to the channels of the connection.
    fn store_connection_channels(
        &mut self,
        cid: ConnectionId,
        port_id: PortId,
        channel_id: ChannelId,
    ) -> (r: Result<(), ChannelError>)
        ensures
            r is Ok,
            final(self)@ == old(self)@.with_connection_channel(cid@, port_id@, channel_id@),
    ;

    /// Records the channel on the port.
    fn store_channel(&mut self, port_id: PortId, channel_id: ChannelId, channel_end: ChannelEnd) -> (r:
        Result<(), ChannelError>)
        ensures
            r is Ok,
            final(self)@ == old(self)@.with_channel(port_id@, channel_id@, channel_end),
    ;

    /// Records the sequence number of the next packet to send on the channel.
    fn store_next_sequence_send(&mut self, port_id: PortId, channel_id: ChannelId, seq: Sequence) -> (r:
        Result<(), PacketError>)
        ensures
            r is Ok,
            final(self)@ == old(self)@.with_next_send(port_id@, channel_id@, seq),
    ;

    /// Records the sequence number of the next packet to receive on the channel.
    fn store_next_sequence_recv(&mut self, port_id: PortId, channel_id: ChannelId, seq: Sequence) -> (r:
        Result<(), PacketError>)
        ensures
            r is Ok,
            final(self)@ == old(self)@.with_next_recv(port_id@, channel_id@, seq),
    ;

    /// Records the sequence number of the next packet to acknowledge on the channel.
    fn store_next_sequence_ack(&mut self, port_id: PortId, channel_id: ChannelId, seq: Sequence) -> (r:
        Result<(), PacketError>)
        ensures
            r is Ok,
            final(self)@ == old(self)@.with_next_ack(port_id@, channel_id@, seq),
    ;

    /// Counts one more channel identifier, stopping at the largest `u64`.
    fn increase_channel_counter(&mut self)
        ensures
            final(self)@ == old(self)@.with_channel_counter(
                saturating_succ(old(self)@.channel_ids_counter),
            ),
    ;

    /// Forgets the commitment to the packet, if there is one.
    fn delete_packet_commitment(&mut self, port_id: &PortId, channel_id: &ChannelId, seq: &Sequence) -> (r:
        Result<(), PacketError>)
        ensures
            r is Ok,
            final(self)@ == old(self)@.without_commitment(port_id@, channel_id@, *seq),
    ;

    /// Records the receipt of the packet with the sequence number received on the channel.
    fn store_packet_receipt(
        &mut self,
        port_id: PortId,
        channel_id: ChannelId,
        seq: Sequence,
        receipt: Receipt,
    ) -> (r: Result<(), PacketError>)
        ensures
            r is Ok,
            final(self)@ == old(self)@.with_receipt(port_id@, channel_id@, seq, receipt),
    ;
}

impl ChannelKeeper for IbcStore {
    /// Records the commitment to the packet with the sequence number sent on the channel.
    fn store_packet_commitment(
        &mut self,
        port_id: PortId,
        channel_id: ChannelId,
        seq: Sequence,
        commitment: PacketCommitment,
    ) -> (r: Result<(), PacketError>)
    {
        let ghost pre = old(self)@;
        let ghost (p, c, b) = (port_id@, channel_id@, commitment@);
        self.packet_commitment.insert((port_id, channel_id, seq), commitment);
        assert(self@ =~= pre.with_commitment(p, c, seq, b));
        Ok(())
    }

    /// Records the acknowledgement commitment of the packet with the sequence number.
    fn store_packet_acknowledgement(
        &mut self,
        port_id: PortId,
        channel_id: ChannelId,
        seq: Sequence,
        ack_commitment: AcknowledgementCommitment,
    ) -> (r: Result<(), PacketError>)
    {
        let ghost pre = old(self)@;
        let ghost (p, c, b) = (port_id@, channel_id@, ack_commitment@);
        self.packet_acknowledgement.insert((port_id, channel_id, seq), ack_commitment);
        assert(self@ =~= pre.with_acknowledgement(p, c, seq, b));
        Ok(())
    }

    /// Forgets the acknowledgement commitment of the packet, if there is one.
    fn delete_packet_acknowledgement(
        &mut self,
        port_id: &PortId,
        channel_id: &ChannelId,
        seq: &Sequence,
    ) -> (r: Result<(), PacketError>)
    {
        let ghost pre = old(self)@;
        let _ = self.packet_acknowledgement.remove(&(port_id.clone(), channel_id.clone(), *seq));
        assert(self@ =~= pre.without_acknowledgement(port_id@, channel_id@, *seq));
        Ok(())
    }

    /// Appends the channel on the port to the channels of the connection.
    fn store_connection_channels(
        &mut self,
        cid: ConnectionId,
        port_id: PortId,
        channel_id: ChannelId,
    ) -> (r: Result<(), ChannelError>)
    {
        let ghost pre = old(self)@;
        let ghost (k, p, c) = (cid@, port_id@, channel_id@);
        let mut list = match self.connection_channels.remove(&cid) {
            Some(list) => list,
            None => Vec::new(),
        };
        let ghost before = list@.map_values(|q: (String, String)| q@);
        assert(before =~= (if pre.connection_channels.contains_key(k) {
            pre.connection_channels[k]
        } else {
            Seq::empty()
        }));
        list.push((port_id, channel_id));
        assert(list@.map_values(|q: (String, String)| q@) =~= before.push((p, c)));
        self.connection_channels.insert(cid, list);
        assert(self@.connection_channels =~= pre.with_connection_channel(k, p, c).connection_channels);
        assert(self@ =~= pre.with_connection_channel(k, p, c));
        Ok(())
    }

    /// Records the channel on the port.
    fn store_channel(&mut self, port_id: PortId, channel_id: ChannelId, channel_end: ChannelEnd) -> (r:
        Result<(), ChannelError>)
    {
        let ghost pre = old(self)@;
        let ghost (p, c) = (port_id@, channel_id@);
        self.channels.insert((port_id, channel_id), channel_end);
        assert(self@ =~= pre.with_channel(p, c, channel_end));
        Ok(())
    }

    /// Records the sequence number of the next packet to send on the channel.
    fn store_next_sequence_send(&mut self, port_id: PortId, channel_id: ChannelId, seq: Sequence) -> (r:
        Result<(), PacketError>)
    {
        let ghost pre = old(self)@;
        let ghost (p, c) = (port_id@, channel_id@);
        self.next_sequence_send.insert((port_id, channel_id), seq);
        assert(self@ =~= pre.with_next_send(p, c, seq));
        Ok(())
    }

    /// Records the sequence number of the next packet to receive on the channel.
    fn store_next_sequence_recv(&mut self, port_id: PortId, channel_id: ChannelId, seq: Sequence) -> (r:
        Result<(), PacketError>)
    {
        let ghost pre = old(self)@;
        let ghost (p, c) = (port_id@, channel_id@);
        self.next_sequence_recv.insert((port_id, channel_id), seq);
        assert(self@ =~= pre.with_next_recv(p, c, seq));
        Ok(())
    }

    /// Records the sequence number of the next packet to acknowledge on the channel.
    fn store_next_sequence_ack(&mut self, port_id: PortId, channel_id: ChannelId, seq: Sequence) -> (r:
        Result<(), PacketError>)
    {
        let ghost pre = old(self)@;
        let ghost (p, c) = (port_id@, channel_id@);
        self.next_sequence_ack.insert((port_id, channel_id), seq);
        assert(self@ =~= pre.with_next_ack(p, c, seq));
        Ok(())
    }

    /// Counts one more channel identifier, stopping at the largest `u64`.
    fn increase_channel_counter(&mut self)
    {
        let ghost pre = old(self)@;
        self.channel_ids_counter = self.channel_ids_counter.saturating_add(1);
        assert(self@ =~= pre.with_channel_counter(saturating_succ(pre.channel_ids_counter)));
    }

    /// Forgets the commitment to the packet, if there is one.
    fn delete_packet_commitment(&mut self, port_id: &PortId, channel_id: &ChannelId, seq: &Sequence) -> (r:
        Result<(), PacketError>)
    {
        let ghost pre = old(self)@;
        let _ = self.packet_commitment.remove(&(port_id.clone(), channel_id.clone(), *seq));
        assert(self@ =~= pre.without_commitment(port_id@, channel_id@, *seq));
        Ok(())
    }

    /// Records the receipt of the packet with the sequence number received on the channel.
    fn store_packet_receipt(
        &mut self,
        port_id: PortId,
        channel_id: ChannelId,
        seq: Sequence,
        receipt: Receipt,
    ) -> (r: Result<(), PacketError>)
    {
        let ghost pre = old(self)@;
        let ghost (p, c) = (port_id@, channel_id@);
        self.packet_receipt.insert((port_id, channel_id, seq), receipt);
        assert(self@ =~= pre.with_receipt(p, c, seq, receipt));
        Ok(())
    }
}

} // verus!
