//! The connection reader and keeper of the reader and keeper store.
use vstd::prelude::*;

use super::{
    client_state_outcome, consensus_state_outcome, decode_client_state_outcome, ibc_prefix,
    in_connection, IbcStore,
};
use crate::store_state::{saturating_succ, StoreState};
use crate::types::{
    ClientErrorView, ClientId, CommitmentPrefix, ConnectionError, ConnectionErrorView,
    ConnectionId, Height,
};
use ibc::clients::tendermint::client_state::ClientState as TmClientState;
use ibc::clients::tendermint::consensus_state::ConsensusState as TmConsensusState;
use ibc_core_connection_types::ConnectionEnd;

verus! {

/// Reads of the connection part of a store.
pub trait ConnectionReader: View<V = StoreState> {
    /// The connection with the identifier.
    fn connection_end(&self, conn_id: &ConnectionId) -> (r: Result<ConnectionEnd, ConnectionError>)
        ensures
            match r {
                Ok(end) => self@.connection(conn_id@) == Some(end),
                Err(e) => self@.connection(conn_id@) is None && e@
                    == ConnectionErrorView::ConnectionNotFound(conn_id@),
            },
    ;

    /// [`ClientReader::client_state`], its error as a connection error.
    fn client_state(&self, client_id: &ClientId) -> (r: Result<TmClientState, ConnectionError>)
        ensures
            crate::types::result_of(r) == in_connection(client_state_outcome(self@, client_id@)),
    ;

    /// [`ClientReader::decode_client_state`], its error as a connection error.
    fn decode_client_state(&self, type_url: String, value: Vec<u8>) -> (r: Result<
        TmClientState,
        ConnectionError,
    >)
        ensures
            crate::types::result_of(r) == in_connection(
                decode_client_state_outcome(type_url@, value@),
            ),
    ;

    /// The prefix `Ibc`.
    fn commitment_prefix(&self) -> (p: CommitmentPrefix)
        ensures
            p.bytes@ == ibc_prefix(),
    ;

    /// [`ClientReader::consensus_state`], its error as a connection error.
    fn client_consensus_state(&self, client_id: &ClientId, height: &Height) -> (r: Result<
        TmConsensusState,
        ConnectionError,
    >)
        ensures
            crate::types::result_of(r) == in_connection(
                consensus_state_outcome(self@, client_id@, *height),
            ),
    ;

    /// [`ClientReader::host_consensus_state`], its error as a connection error.
    fn host_consensus_state(&self, height: &Height) -> (r: Result<TmConsensusState, ConnectionError>)
        ensures
            crate::types::outcome_of(r) == Err::<(), ConnectionErrorView>(
                ConnectionErrorView::Client(ClientErrorView::ImplementationSpecific),
            ),
    ;

    /// How many connection identifiers have been handed out.
    fn connection_counter(&self) -> (r: Result<u64, ConnectionError>)
        ensures
            r == Ok::<u64, ConnectionError>(self@.connection_ids_counter),
    ;

    /// Every counterparty view of this host is accepted.
    fn validate_self_client(&self, type_url: String, value: Vec<u8>) -> (r: Result<(), ConnectionError>)
        ensures
            r is Ok,
    ;
}

impl ConnectionReader for IbcStore {
    /// The connection with the identifier.
    fn connection_end(&self, conn_id: &ConnectionId) -> (r: Result<ConnectionEnd, ConnectionError>)
    {
        match self.connections.get(conn_id) {
            Some(end) => Ok(end.clone()),
            None => Err(ConnectionError::ConnectionNotFound { connection_id: conn_id.clone() }),
        }
    }

    /// [`ClientReader::client_state`], its error as a connection error.
    fn client_state(&self, client_id: &ClientId) -> (r: Result<TmClientState, ConnectionError>)
    {
        match super::client::ClientReader::client_state(self, client_id) {
            Ok(state) => Ok(state),
            Err(e) => Err(ConnectionError::Client(e)),
        }
    }

    /// [`ClientReader::decode_client_state`], its error as a connection error.
    fn decode_client_state(&self, type_url: String, value: Vec<u8>) -> (r: Result<
        TmClientState,
        ConnectionError,
    >)
    {
        match super::client::ClientReader::decode_client_state(self, type_url, value) {
            Ok(state) => Ok(state),
            Err(e) => Err(ConnectionError::Client(e)),
        }
    }

    /// The prefix `Ibc`.
    fn commitment_prefix(&self) -> (p: CommitmentPrefix)
    {
        let bytes: Vec<u8> = vec![73u8, 98u8, 99u8];
        assert(bytes@ =~= ibc_prefix());
        CommitmentPrefix { bytes }
    }

    /// [`ClientReader::consensus_state`], its error as a connection error.
    fn client_consensus_state(&self, client_id: &ClientId, height: &Height) -> (r: Result<
        TmConsensusState,
        ConnectionError,
    >)
    {
        match super::client::ClientReader::consensus_state(self, client_id, height) {
            Ok(state) => Ok(state),
            Err(e) => Err(ConnectionError::Client(e)),
        }
    }

    /// [`ClientReader::host_consensus_state`], its error as a connection error.
    fn host_consensus_state(&self, height: &Height) -> (r: Result<TmConsensusState, ConnectionError>)
    {
        match super::client::ClientReader::host_consensus_state(self, height) {
            Ok(state) => Ok(state),
            Err(e) => Err(ConnectionError::Client(e)),
        }
    }

    /// How many connection identifiers have been handed out.
    fn connection_counter(&self) -> (r: Result<u64, ConnectionError>)
    {
        Ok(self.connection_ids_counter)
    }

    /// Every counterparty view of this host is accepted.
    fn validate_self_client(&self, type_url: String, value: Vec<u8>) -> (r: Result<(), ConnectionError>)
    {
        Ok(())
    }
}

/// Writes of the connection part of a store.
pub trait ConnectionKeeper: View<V = StoreState> {
    /// Records the connection.
    fn store_connection(&mut self, connection_id: ConnectionId, connection_end: ConnectionEnd) -> (r:
        Result<(), ConnectionError>)
        ensures
            r is Ok,
            final(self)@ == old(self)@.with_connection(connection_id@, connection_end),
    ;

    /// Records the connection of the client.
    fn store_connection_to_client(&mut self, connection_id: ConnectionId, client_id: ClientId) -> (r:
        Result<(), ConnectionError>)
        ensures
            r is Ok,
            final(self)@ == old(self)@.with_client_connection(client_id@, connection_id@),
    ;

    /// Counts one more connection identifier, stopping at the largest `u64`.
    fn increase_connection_counter(&mut self)
        ensures
            final(self)@ == old(self)@.with_connection_counter(
                saturating_succ(old(self)@.connection_ids_counter),
            ),
    ;
}

impl ConnectionKeeper for IbcStore {
    /// Records the connection.
    fn store_connection(&mut self, connection_id: ConnectionId, connection_end: ConnectionEnd) -> (r:
        Result<(), ConnectionError>)
    {
        let ghost pre = old(self)@;
        let ghost k = connection_id@;
        self.connections.insert(connection_id, connection_end);
        assert(self@ =~= pre.with_connection(k, connection_end));
        Ok(())
    }

    /// Records the connection of the client.
    fn store_connection_to_client(&mut self, connection_id: ConnectionId, client_id: ClientId) -> (r:
        Result<(), ConnectionError>)
    {
        let ghost pre = old(self)@;
        let ghost (k, c) = (client_id@, connection_id@);
        self.client_connections.insert(client_id, connection_id);
        assert(self@ =~= pre.with_client_connection(k, c));
        Ok(())
    }

    /// Counts one more connection identifier, stopping at the largest `u64`.
    fn increase_connection_counter(&mut self)
    {
        let ghost pre = old(self)@;
        self.connection_ids_counter = self.connection_ids_counter.saturating_add(1);
        assert(self@ =~= pre.with_connection_counter(saturating_succ(pre.connection_ids_counter)));
    }
}

} // verus!
