//! The token transfer application module: its checks on coins, which
//! accept everything, and its access to the store when it sends packets.
use vstd::prelude::*;

use crate::solana_store::{
    client_read, client_state_result, consensus_read, consensus_state_result, AnyClientState,
    AnyConsensusState, ExecutionContext, SolanaIbcStore, SolanaStoreState, ValidationContext,
    TRANSFER_PORT_ID,
};
use crate::types::{
    ChannelErrorView, ChannelId, ClientId, ConnectionErrorView, ConnectionId, ContextError,
    ContextErrorView, PacketCommitment, PacketErrorView, PortId, Sequence, TokenTransferError,
};
use ibc::apps::transfer::types::{Coin, PrefixedDenom};
use ibc::primitives::Signer;
use ibc_core_channel_types::channel::ChannelEnd;
use ibc_core_connection_types::ConnectionEnd;
use ibc_core_handler_types::events::IbcEvent;

verus! {

/// The token transfer application module.
pub struct TransferModule;

impl TransferModule {
    /// The port of the application: `transfer`.
    pub fn get_port(&self) -> (r: Result<PortId, TokenTransferError>)
        ensures
            r matches Ok(p) && p@ == TRANSFER_PORT_ID@,
    {
        Ok(String::from_str(TRANSFER_PORT_ID))
    }

    /// Sending coins is always allowed.
    pub fn can_send_coins(&self) -> (r: Result<(), TokenTransferError>)
        ensures
            r is Ok,
    {
        Ok(())
    }

    /// Receiving coins is always allowed.
    pub fn can_receive_coins(&self) -> (r: Result<(), TokenTransferError>)
        ensures
            r is Ok,
    {
        Ok(())
    }

    /// Every transfer between two accounts is accepted.
    pub fn send_coins_validate(
        &self,
        from_account: &Signer,
        to_account: &Signer,
        coin: &Coin<PrefixedDenom>,
    ) -> (r: Result<(), TokenTransferError>)
        ensures
            r is Ok,
    {
        Ok(())
    }

    /// Every minting is accepted.
    pub fn mint_coins_validate(&self, account: &Signer, coin: &Coin<PrefixedDenom>) -> (r: Result<
        (),
        TokenTransferError,
    >)
        ensures
            r is Ok,
    {
        Ok(())
    }

    /// Every burning is accepted.
    pub fn burn_coins_validate(&self, account: &Signer, coin: &Coin<PrefixedDenom>) -> (r: Result<
        (),
        TokenTransferError,
    >)
        ensures
            r is Ok,
    {
        Ok(())
    }

    /// A transfer between two accounts succeeds without moving anything.
    pub fn send_coins_execute(
        &mut self,
        from_account: &Signer,
        to_account: &Signer,
        coin: &Coin<PrefixedDenom>,
    ) -> (r: Result<(), TokenTransferError>)
        ensures
            r is Ok,
    {
        Ok(())
    }

    /// A minting succeeds without creating anything.
    pub fn mint_coins_execute(&mut self, account: &Signer, coin: &Coin<PrefixedDenom>) -> (r: Result<
        (),
        TokenTransferError,
    >)
        ensures
            r is Ok,
    {
        Ok(())
    }

    /// A burning succeeds without destroying anything.
    pub fn burn_coins_execute(&mut self, account: &Signer, coin: &Coin<PrefixedDenom>) -> (r: Result<
        (),
        TokenTransferError,
    >)
        ensures
            r is Ok,
    {
        Ok(())
    }

    /// The channel on the port, as the store finds it.
    pub fn channel_end(&self, store: &SolanaIbcStore, port_id: &PortId, channel_id: &ChannelId) -> (r:
        Result<ChannelEnd, ContextError>)
        ensures
            match r {
                Ok(end) => store@.ibc.channel(port_id@, channel_id@) == Some(end),
                Err(e) => store@.ibc.channel(port_id@, channel_id@) is None && e@
                    == ContextErrorView::ChannelError(
                    ChannelErrorView::ChannelNotFound(port_id@, channel_id@),
                ),
            },
    {
        ValidationContext::channel_end(store, port_id, channel_id)
    }

    /// The connection, as the store finds it.
    pub fn connection_end(&self, store: &SolanaIbcStore, connection_id: &ConnectionId) -> (r: Result<
        ConnectionEnd,
        ContextError,
    >)
        ensures
            match r {
                Ok(end) => store@.ibc.connection(connection_id@) == Some(end),
                Err(e) => store@.ibc.connection(connection_id@) is None && e@
                    == ContextErrorView::ConnectionError(
                    ConnectionErrorView::ConnectionNotFound(connection_id@),
                ),
            },
    {
        ValidationContext::connection_end(store, connection_id)
    }

    /// The client's state, as the store decodes it.
    pub fn client_state(&self, store: &SolanaIbcStore, client_id: &ClientId) -> (r: Result<
        AnyClientState<Vec<u8>>,
        ContextError,
    >)
        ensures
            client_read(r) == client_state_result(store@.ibc, client_id@),
    {
        ValidationContext::client_state(store, client_id)
    }

    /// The client's consensus state at `(epoch, height)`, as the store decodes it.
    pub fn client_consensus_state(
        &self,
        store: &SolanaIbcStore,
        client_id: &ClientId,
        epoch: u64,
        height: u64,
    ) -> (r: Result<AnyConsensusState<Vec<u8>>, ContextError>)
        ensures
            consensus_read(r) == consensus_state_result(store@.ibc, client_id@, epoch, height),
    {
        ValidationContext::consensus_state(store, client_id, epoch, height)
    }

    /// The sequence number of the next packet to send on the channel, as the store finds it.
    pub fn get_next_sequence_send(
        &self,
        store: &SolanaIbcStore,
        port_id: &PortId,
        channel_id: &ChannelId,
    ) -> (r: Result<Sequence, ContextError>)
        ensures
            match r {
                Ok(seq) => store@.ibc.next_send(port_id@, channel_id@) == Some(seq),
                Err(e) => store@.ibc.next_send(port_id@, channel_id@) is None && e@
                    == ContextErrorView::PacketError(
                    PacketErrorView::MissingNextSendSeq(port_id@, channel_id@),
                ),
            },
    {
        ValidationContext::get_next_sequence_send(store, port_id, channel_id)
    }

    /// Records in the store the sequence number of the next packet to send on the channel.
    pub fn store_next_sequence_send(
        &mut self,
        store: &mut SolanaIbcStore,
        port_id: PortId,
        channel_id: ChannelId,
        seq: Sequence,
    ) -> (r: Result<(), ContextError>)
        ensures
            r is Ok,
            final(store)@ == old(store)@.with_ibc(
                old(store)@.ibc.with_next_send(port_id@, channel_id@, seq),
            ),
    {
        ExecutionContext::store_next_sequence_send(store, port_id, channel_id, seq)
    }

    /// Records in the store the commitment to the packet sent on the channel.
    pub fn store_packet_commitment(
        &mut self,
        store: &mut SolanaIbcStore,
        port_id: PortId,
        channel_id: ChannelId,
        seq: Sequence,
        commitment: PacketCommitment,
    ) -> (r: Result<(), ContextError>)
        ensures
            r is Ok,
            final(store)@ == old(store)@.with_ibc(
                old(store)@.ibc.with_commitment(port_id@, channel_id@, seq, commitment@),
            ),
    {
        ExecutionContext::store_packet_commitment(store, port_id, channel_id, seq, commitment)
    }

    /// Appends the event to the events of the store.
    pub fn emit_ibc_event(&mut self, store: &mut SolanaIbcStore, event: IbcEvent)
        ensures
            final(store)@ == (SolanaStoreState {
                events: old(store)@.events.push(event),
                ..old(store)@
            }),
    {
        ExecutionContext::emit_ibc_event(store, event)
    }

    /// Appends the message to the log of the store.
    pub fn log_message(&mut self, store: &mut SolanaIbcStore, message: String)
        ensures
            final(store)@ == (SolanaStoreState {
                logs: old(store)@.logs.push(message@),
                ..old(store)@
            }),
    {
        ExecutionContext::log_message(store, message)
    }
}

} // verus!
