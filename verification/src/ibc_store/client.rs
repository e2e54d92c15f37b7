//! The light client reader and keeper of the reader and keeper store.
use vstd::prelude::*;

use super::{
    client_state_outcome, client_type_outcome, consensus_state_outcome,
    decode_client_state_outcome, found_height, next_consensus_outcome, prev_consensus_outcome,
    search_outcome, IbcStore,
};
use crate::heights;
use crate::keyed_map::KeyedMap;
use crate::outside::{
    decode_tendermint_client_state, decode_tendermint_consensus_state,
    tendermint_client_state_from_any,
};
use crate::store_state::{saturating_succ, StoreState};
use crate::types::{
    ClientError, ClientErrorView, ClientId, ClientType, Height, Timestamp, TENDERMINT_CLIENT_TYPE,
};
use ibc::clients::tendermint::client_state::ClientState as TmClientState;
use ibc::clients::tendermint::consensus_state::ConsensusState as TmConsensusState;

verus! {

/// Reads of the light client part of a store.
pub trait ClientReader: View<V = StoreState> {
    /// The type of the client; a client without one is not found.
    fn client_type(&self, client_id: &ClientId) -> (r: Result<ClientType, ClientError>)
        ensures
            match r {
                Ok(t) => client_type_outcome(self@, client_id@) == Ok::<
                    Seq<char>,
                    ClientErrorView,
                >(t@),
                Err(e) => client_type_outcome(self@, client_id@) == Err::<
                    Seq<char>,
                    ClientErrorView,
                >(e@),
            },
    ;

    /// The client's state decoded by the decoder of its type; only Tendermint
    /// clients are known.
    fn client_state(&self, client_id: &ClientId) -> (r: Result<TmClientState, ClientError>)
        ensures
            crate::types::result_of(r) == client_state_outcome(self@, client_id@),
    ;

    /// A client state given as a protobuf `Any`, when it is a Tendermint one.
    fn decode_client_state(&self, type_url: String, value: Vec<u8>) -> (r: Result<
        TmClientState,
        ClientError,
    >)
        ensures
            crate::types::result_of(r) == decode_client_state_outcome(type_url@, value@),
    ;

    /// The client's consensus state at the height, decoded by the decoder of its type.
    fn consensus_state(&self, client_id: &ClientId, height: &Height) -> (r: Result<
        TmConsensusState,
        ClientError,
    >)
        ensures
            crate::types::result_of(r) == consensus_state_outcome(self@, client_id@, *height),
    ;

    /// The decoded consensus state at the lowest height above `height`.
    fn next_consensus_state(&self, client_id: &ClientId, height: &Height) -> (r: Result<
        Option<TmConsensusState>,
        ClientError,
    >)
        ensures
            crate::types::result_of(r) == next_consensus_outcome(self@, client_id@, *height),
    ;

    /// The decoded consensus state at the highest height below `height`.
    fn prev_consensus_state(&self, client_id: &ClientId, height: &Height) -> (r: Result<
        Option<TmConsensusState>,
        ClientError,
    >)
        ensures
            crate::types::result_of(r) == prev_consensus_outcome(self@, client_id@, *height),
    ;

    /// The host's own consensus state is not available.
    fn host_consensus_state(&self, height: &Height) -> (r: Result<TmConsensusState, ClientError>)
        ensures
            crate::types::outcome_of(r) == Err::<(), ClientErrorView>(
                ClientErrorView::ImplementationSpecific,
            ),
    ;

    /// The host's pending consensus state is not available.
    fn pending_host_consensus_state(&self) -> (r: Result<TmConsensusState, ClientError>)
        ensures
            crate::types::outcome_of(r) == Err::<(), ClientErrorView>(
                ClientErrorView::ImplementationSpecific,
            ),
    ;

    /// How many client identifiers have been handed out.
    fn client_counter(&self) -> (r: Result<u64, ClientError>)
        ensures
            r == Ok::<u64, ClientError>(self@.client_ids_counter),
    ;
}

impl IbcStore {
    /// Decodes the consensus state found by a search, as the searches of
    /// [`ClientReader`] do.
    fn decode_found(&self, client_id: &ClientId, found: Option<(Height, &Vec<u8>)>) -> (r: Result<
        Option<TmConsensusState>,
        ClientError,
    >)
        requires
            self@.consensus_states.contains_key(client_id@),
            match found {
                Some((k, v)) => self@.consensus_states[client_id@].contains_key(k)
                    && self@.consensus_states[client_id@][k] == v@,
                None => true,
            },
        ensures
            crate::types::result_of(r) == search_outcome(self@, client_id@, found_height(found)),
    {
        match found {
            None => Ok(None),
            Some((_k, bytes)) => {
                let client_type = ClientReader::client_type(self, client_id)?;
                let tendermint = String::from_str(TENDERMINT_CLIENT_TYPE);
                if client_type == tendermint {
                    match decode_tendermint_consensus_state(bytes.as_slice()) {
                        Ok(state) => Ok(Some(state)),
                        Err(msg) => Err(
                            ClientError::Other {
                                description: String::from_str(
                                    "Decode Ics07ConsensusState failed: ",
                                ).concat(msg.as_str()),
                            },
                        ),
                    }
                } else {
                    Err(ClientError::UnknownClientStateType { client_state_type: client_type })
                }
            },
        }
    }
}

impl ClientReader for IbcStore {
    /// The type of the client; a client without one is not found.
    fn client_type(&self, client_id: &ClientId) -> (r: Result<ClientType, ClientError>)
    {
        match self.client_types.get(client_id) {
            Some(t) => Ok(t.clone()),
            None => Err(ClientError::ClientNotFound { client_id: client_id.clone() }),
        }
    }

    /// The client's state decoded by the decoder of its type; only Tendermint
    /// clients are known.
    fn client_state(&self, client_id: &ClientId) -> (r: Result<TmClientState, ClientError>)
    {
        match self.client_state.get(client_id) {
            Some(bytes) => {
                let client_type = self.client_type(client_id)?;
                let tendermint = String::from_str(TENDERMINT_CLIENT_TYPE);
                if client_type == tendermint {
                    match decode_tendermint_client_state(bytes.as_slice()) {
                        Ok(state) => Ok(state),
                        Err(msg) => Err(
                            ClientError::Other {
                                description: String::from_str(
                                    "Decode Ics07ClientState failed: ",
                                ).concat(msg.as_str()),
                            },
                        ),
                    }
                } else {
                    Err(ClientError::UnknownClientStateType { client_state_type: client_type })
                }
            },
            None => Err(ClientError::ClientNotFound { client_id: client_id.clone() }),
        }
    }

    /// A client state given as a protobuf `Any`, when it is a Tendermint one.
    fn decode_client_state(&self, type_url: String, value: Vec<u8>) -> (r: Result<
        TmClientState,
        ClientError,
    >)
    {
        let url = type_url.clone();
        match tendermint_client_state_from_any(type_url, value) {
            Some(state) => Ok(state),
            None => Err(ClientError::UnknownClientStateType { client_state_type: url }),
        }
    }

    /// The client's consensus state at the height, decoded by the decoder of its type.
    fn consensus_state(&self, client_id: &ClientId, height: &Height) -> (r: Result<
        TmConsensusState,
        ClientError,
    >)
    {
        match self.consensus_states.get(client_id) {
            Some(record) => match record.get(height) {
                Some(bytes) => {
                    let client_type = self.client_type(client_id)?;
                    let tendermint = String::from_str(TENDERMINT_CLIENT_TYPE);
                    if client_type == tendermint {
                        match decode_tendermint_consensus_state(bytes.as_slice()) {
                            Ok(state) => Ok(state),
                            Err(_) => Err(ClientError::ImplementationSpecific),
                        }
                    } else {
                        Err(ClientError::UnknownClientStateType { client_state_type: client_type })
                    }
                },
                None => Err(
                    ClientError::ConsensusStateNotFound {
                        client_id: client_id.clone(),
                        height: *height,
                    },
                ),
            },
            None => Err(
                ClientError::ConsensusStateNotFound { client_id: client_id.clone(), height: *height },
            ),
        }
    }

    /// The decoded consensus state at the lowest height above `height`.
    fn next_consensus_state(&self, client_id: &ClientId, height: &Height) -> (r: Result<
        Option<TmConsensusState>,
        ClientError,
    >)
    {
        match self.consensus_states.get(client_id) {
            None => Err(ClientError::ClientNotFound { client_id: client_id.clone() }),
            Some(record) => {
                let found = heights::least_above(record, height);
                assert(self@.consensus_states[client_id@].dom() =~= record@.dom());
                self.decode_found(client_id, found)
            },
        }
    }

    /// The decoded consensus state at the highest height below `height`.
    fn prev_consensus_state(&self, client_id: &ClientId, height: &Height) -> (r: Result<
        Option<TmConsensusState>,
        ClientError,
    >)
    {
        match self.consensus_states.get(client_id) {
            None => Err(ClientError::ClientNotFound { client_id: client_id.clone() }),
            Some(record) => {
                let found = heights::greatest_below(record, height);
                assert(self@.consensus_states[client_id@].dom() =~= record@.dom());
                self.decode_found(client_id, found)
            },
        }
    }

    /// The host's own consensus state is not available.
    fn host_consensus_state(&self, height: &Height) -> (r: Result<TmConsensusState, ClientError>)
    {
        Err(ClientError::ImplementationSpecific)
    }

    /// The host's pending consensus state is not available.
    fn pending_host_consensus_state(&self) -> (r: Result<TmConsensusState, ClientError>)
    {
        Err(ClientError::ImplementationSpecific)
    }

    /// How many client identifiers have been handed out.
    fn client_counter(&self) -> (r: Result<u64, ClientError>)
    {
        Ok(self.client_ids_counter)
    }
}

/// Writes of the light client part of a store.
pub trait ClientKeeper: View<V = StoreState> {
    /// Records the type of the client.
    fn store_client_type(&mut self, client_id: ClientId, client_type: ClientType) -> (r: Result<
        (),
        ClientError,
    >)
        ensures
            r is Ok,
            final(self)@ == old(self)@.with_client_type(client_id@, client_type@),
    ;

    /// Records the encoded state of the client.
    fn store_client_state(&mut self, client_id: ClientId, client_state: Vec<u8>) -> (r: Result<
        (),
        ClientError,
    >)
        ensures
            r is Ok,
            final(self)@ == old(self)@.with_client_state(client_id@, client_state@),
    ;

    /// Records the encoded consensus state of the client at the height.
    fn store_consensus_state(
        &mut self,
        client_id: ClientId,
        height: Height,
        consensus_state: Vec<u8>,
    ) -> (r: Result<(), ClientError>)
        ensures
            r is Ok,
            final(self)@ == old(self)@.with_consensus_state(client_id@, height, consensus_state@),
    ;

    /// Counts one more client identifier, stopping at the largest `u64`.
    fn increase_client_counter(&mut self)
        ensures
            final(self)@ == old(self)@.with_client_counter(
                saturating_succ(old(self)@.client_ids_counter),
            ),
    ;

    /// Records the host time at which the client was updated to the height.
    fn store_update_time(&mut self, client_id: ClientId, height: Height, timestamp: Timestamp) -> (r:
        Result<(), ClientError>)
        ensures
            r is Ok,
            final(self)@ == old(self)@.with_update_time(client_id@, height, timestamp),
    ;

    /// Records the host height at which the client was updated to the height.
    fn store_update_height(
        &mut self,
        client_id: ClientId,
        height: Height,
        host_height: Height,
    ) -> (r: Result<(), ClientError>)
        ensures
            r is Ok,
            final(self)@ == old(self)@.with_update_height(client_id@, height, host_height),
    ;
}

impl ClientKeeper for IbcStore {
    /// Records the type of the client.
    fn store_client_type(&mut self, client_id: ClientId, client_type: ClientType) -> (r: Result<
        (),
        ClientError,
    >)
    {
        let ghost pre = old(self)@;
        let ghost (k, t) = (client_id@, client_type@);
        self.client_types.insert(client_id, client_type);
        assert(self@ =~= pre.with_client_type(k, t));
        Ok(())
    }

    /// Records the encoded state of the client.
    fn store_client_state(&mut self, client_id: ClientId, client_state: Vec<u8>) -> (r: Result<
        (),
        ClientError,
    >)
    {
        let ghost pre = old(self)@;
        let ghost (k, b) = (client_id@, client_state@);
        self.client_state.insert(client_id, client_state);
        assert(self@ =~= pre.with_client_state(k, b));
        Ok(())
    }

    /// Records the encoded consensus state of the client at the height.
    fn store_consensus_state(
        &mut self,
        client_id: ClientId,
        height: Height,
        consensus_state: Vec<u8>,
    ) -> (r: Result<(), ClientError>)
    {
        let ghost pre = old(self)@;
        let ghost (k, b) = (client_id@, consensus_state@);
        let mut record = match self.consensus_states.remove(&client_id) {
            Some(record) => record,
            None => KeyedMap::new(),
        };
        assert(record@.map_values(|b: Vec<u8>| b@) =~= pre.consensus_record(k));
        record.insert(height, consensus_state);
        assert(record@.map_values(|b: Vec<u8>| b@) =~= pre.consensus_record(k).insert(height, b));
        self.consensus_states.insert(client_id, record);
        assert(self@.consensus_states =~= pre.with_consensus_state(k, height, b).consensus_states);
        assert(self@ =~= pre.with_consensus_state(k, height, b));
        Ok(())
    }

    /// Counts one more client identifier, stopping at the largest `u64`.
    fn increase_client_counter(&mut self)
    {
        let ghost pre = old(self)@;
        self.client_ids_counter = self.client_ids_counter.saturating_add(1);
        assert(self@ =~= pre.with_client_counter(saturating_succ(pre.client_ids_counter)));
    }

    /// Records the host time at which the client was updated to the height.
    fn store_update_time(&mut self, client_id: ClientId, height: Height, timestamp: Timestamp) -> (r:
        Result<(), ClientError>)
    {
        let ghost pre = old(self)@;
        let ghost k = client_id@;
        self.client_processed_times.insert((client_id, height), timestamp);
        assert(self@ =~= pre.with_update_time(k, height, timestamp));
        Ok(())
    }

    /// Records the host height at which the client was updated to the height.
    fn store_update_height(
        &mut self,
        client_id: ClientId,
        height: Height,
        host_height: Height,
    ) -> (r: Result<(), ClientError>)
    {
        let ghost pre = old(self)@;
        let ghost k = client_id@;
        self.client_processed_heights.insert((client_id, height), host_height);
        assert(self@ =~= pre.with_update_height(k, height, host_height));
        Ok(())
    }
}

} // verus!
