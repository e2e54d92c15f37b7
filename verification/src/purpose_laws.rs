//! What each operation of the stores is for, stated over all inputs: a
//! write changes exactly one table of the store, a read answers only from
//! what is stored under the key it is given, a Tendermint `Any` decodes as
//! Tendermint whatever else is offered, and each delivered message adds all
//! of its events, log lines or its error.
use vstd::prelude::*;

use crate::delivery::{errors_of, events_of, logs_of, Outcome};
use crate::ibc_store::{
    client_state_outcome, consensus_state_outcome, next_consensus_outcome,
    prev_consensus_outcome, tendermint_type,
};
use crate::laws::{law_greatest_height_below, law_least_height_above};
use crate::outside::{
    tendermint_client_state_from_any_succeeds, tendermint_client_state_of,
    tendermint_client_state_of_any, tendermint_consensus_state_of,
};
use crate::solana_store::{
    client_state_result, consensus_state_result, decode_any_result, next_consensus_result,
    prev_consensus_result, solomachine_type, StateRead,
};
use crate::store_state::{is_greatest_below, is_least_above, StoreState};
use crate::types::{
    height_lt, ClientErrorView, ContextErrorView, Height, Receipt,
};
use ibc::clients::tendermint::client_state::ClientState as TmClientState;
use ibc::clients::tendermint::consensus_state::ConsensusState as TmConsensusState;
use ibc_core_channel_types::channel::ChannelEnd;
use ibc_core_connection_types::ConnectionEnd;

verus! {

/// The tables of a store.
pub enum Table {
    ClientTypes,
    ClientStates,
    ConsensusStates,
    UpdateTimes,
    UpdateHeights,
    ClientCounter,
    ClientConnections,
    Connections,
    ConnectionCounter,
    ConnectionChannels,
    ChannelCounter,
    Channels,
    NextSend,
    NextRecv,
    NextAck,
    Acknowledgements,
    PortModules,
    Commitments,
    Receipts,
}

/// The store with one table emptied (a counter set to zero): what two stores
/// must agree on when they may differ only in that table.
pub open spec fn apart(s: StoreState, t: Table) -> StoreState {
    match t {
        Table::ClientTypes => StoreState { client_types: Map::empty(), ..s },
        Table::ClientStates => StoreState { client_states: Map::empty(), ..s },
        Table::ConsensusStates => StoreState { consensus_states: Map::empty(), ..s },
        Table::UpdateTimes => StoreState { client_processed_times: Map::empty(), ..s },
        Table::UpdateHeights => StoreState { client_processed_heights: Map::empty(), ..s },
        Table::ClientCounter => StoreState { client_ids_counter: 0, ..s },
        Table::ClientConnections => StoreState { client_connections: Map::empty(), ..s },
        Table::Connections => StoreState { connections: Map::empty(), ..s },
        Table::ConnectionCounter => StoreState { connection_ids_counter: 0, ..s },
        Table::ConnectionChannels => StoreState { connection_channels: Map::empty(), ..s },
        Table::ChannelCounter => StoreState { channel_ids_counter: 0, ..s },
        Table::Channels => StoreState { channels: Map::empty(), ..s },
        Table::NextSend => StoreState { next_sequence_send: Map::empty(), ..s },
        Table::NextRecv => StoreState { next_sequence_recv: Map::empty(), ..s },
        Table::NextAck => StoreState { next_sequence_ack: Map::empty(), ..s },
        Table::Acknowledgements => StoreState { packet_acknowledgement: Map::empty(), ..s },
        Table::PortModules => StoreState { port_to_module: Map::empty(), ..s },
        Table::Commitments => StoreState { packet_commitment: Map::empty(), ..s },
        Table::Receipts => StoreState { packet_receipt: Map::empty(), ..s },
    }
}

/// Every write changes exactly the table it is named after: deleting an
/// acknowledgement leaves the packet commitments, storing a channel end leaves
/// the sequence numbers, storing a consensus state leaves the client states,
/// and so on for every pair of write and table.
pub proof fn law_each_write_changes_one_table(
    s: StoreState,
    client: Seq<char>,
    text: Seq<char>,
    bytes: Seq<u8>,
    height: Height,
    number: u64,
    connection_end: ConnectionEnd,
    channel_end: ChannelEnd,
    receipt: Receipt,
)
    ensures
        apart(s.with_client_type(client, text), Table::ClientTypes) == apart(s, Table::ClientTypes),
        apart(s.with_client_state(client, bytes), Table::ClientStates) == apart(s, Table::ClientStates),
        apart(s.with_consensus_record(client), Table::ConsensusStates) == apart(s, Table::ConsensusStates),
        apart(s.with_consensus_state(client, height, bytes), Table::ConsensusStates) == apart(s, Table::ConsensusStates),
        apart(s.with_update_time(client, height, number), Table::UpdateTimes) == apart(s, Table::UpdateTimes),
        apart(s.with_update_height(client, height, height), Table::UpdateHeights) == apart(s, Table::UpdateHeights),
        apart(s.with_client_counter(number), Table::ClientCounter) == apart(s, Table::ClientCounter),
        apart(s.with_client_connection(client, text), Table::ClientConnections) == apart(s, Table::ClientConnections),
        apart(s.with_connection(text, connection_end), Table::Connections) == apart(s, Table::Connections),
        apart(s.with_connection_counter(number), Table::ConnectionCounter) == apart(s, Table::ConnectionCounter),
        apart(s.with_connection_channel(text, client, text), Table::ConnectionChannels) == apart(s, Table::ConnectionChannels),
        apart(s.with_channel_counter(number), Table::ChannelCounter) == apart(s, Table::ChannelCounter),
        apart(s.with_channel(client, text, channel_end), Table::Channels) == apart(s, Table::Channels),
        apart(s.with_next_send(client, text, number), Table::NextSend) == apart(s, Table::NextSend),
        apart(s.with_next_recv(client, text, number), Table::NextRecv) == apart(s, Table::NextRecv),
        apart(s.with_next_ack(client, text, number), Table::NextAck) == apart(s, Table::NextAck),
        apart(s.with_acknowledgement(client, text, number, bytes), Table::Acknowledgements) == apart(s, Table::Acknowledgements),
        apart(s.without_acknowledgement(client, text, number), Table::Acknowledgements) == apart(s, Table::Acknowledgements),
        apart(s.with_commitment(client, text, number, bytes), Table::Commitments) == apart(s, Table::Commitments),
        apart(s.without_commitment(client, text, number), Table::Commitments) == apart(s, Table::Commitments),
        apart(s.with_receipt(client, text, number, receipt), Table::Receipts) == apart(s, Table::Receipts),
{
    assert(apart(s.with_client_type(client, text), Table::ClientTypes) =~= apart(s, Table::ClientTypes));
    assert(apart(s.with_client_state(client, bytes), Table::ClientStates) =~= apart(s, Table::ClientStates));
    assert(apart(s.with_consensus_record(client), Table::ConsensusStates) =~= apart(s, Table::ConsensusStates));
    assert(apart(s.with_consensus_state(client, height, bytes), Table::ConsensusStates) =~= apart(s, Table::ConsensusStates));
    assert(apart(s.with_update_time(client, height, number), Table::UpdateTimes) =~= apart(s, Table::UpdateTimes));
    assert(apart(s.with_update_height(client, height, height), Table::UpdateHeights) =~= apart(s, Table::UpdateHeights));
    assert(apart(s.with_client_counter(number), Table::ClientCounter) =~= apart(s, Table::ClientCounter));
    assert(apart(s.with_client_connection(client, text), Table::ClientConnections) =~= apart(s, Table::ClientConnections));
    assert(apart(s.with_connection(text, connection_end), Table::Connections) =~= apart(s, Table::Connections));
    assert(apart(s.with_connection_counter(number), Table::ConnectionCounter) =~= apart(s, Table::ConnectionCounter));
    assert(apart(s.with_connection_channel(text, client, text), Table::ConnectionChannels) =~= apart(s, Table::ConnectionChannels));
    assert(apart(s.with_channel_counter(number), Table::ChannelCounter) =~= apart(s, Table::ChannelCounter));
    assert(apart(s.with_channel(client, text, channel_end), Table::Channels) =~= apart(s, Table::Channels));
    assert(apart(s.with_next_send(client, text, number), Table::NextSend) =~= apart(s, Table::NextSend));
    assert(apart(s.with_next_recv(client, text, number), Table::NextRecv) =~= apart(s, Table::NextRecv));
    assert(apart(s.with_next_ack(client, text, number), Table::NextAck) =~= apart(s, Table::NextAck));
    assert(apart(s.with_acknowledgement(client, text, number, bytes), Table::Acknowledgements) =~= apart(s, Table::Acknowledgements));
    assert(apart(s.without_acknowledgement(client, text, number), Table::Acknowledgements) =~= apart(s, Table::Acknowledgements));
    assert(apart(s.with_commitment(client, text, number, bytes), Table::Commitments) =~= apart(s, Table::Commitments));
    assert(apart(s.without_commitment(client, text, number), Table::Commitments) =~= apart(s, Table::Commitments));
    assert(apart(s.with_receipt(client, text, number, receipt), Table::Receipts) =~= apart(s, Table::Receipts));
}

/// The reader and keeper store answers a consensus state only at a height
/// where one is stored for the client, and the state it answers is the
/// decoding of the bytes stored there; where nothing is stored at the height,
/// it answers that the consensus state is not found.
pub proof fn law_consensus_state_only_where_stored(s: StoreState, client: Seq<char>, height: Height)
    ensures
        s.consensus_state(client, height) is None ==> consensus_state_outcome(s, client, height)
            == Err::<TmConsensusState, ClientErrorView>(
            ClientErrorView::ConsensusStateNotFound(client, height),
        ),
        consensus_state_outcome(s, client, height) matches Ok(st) ==> {
            &&& s.client_type(client) == Some(tendermint_type())
            &&& s.consensus_state(client, height) matches Some(b)
            &&& st == tendermint_consensus_state_of(b)
        },
{
}

/// The reader and keeper store answers a client state only for a client with
/// a stored state, as the decoding of the stored bytes.
pub proof fn law_client_state_only_where_stored(s: StoreState, client: Seq<char>)
    ensures
        s.client_state(client) is None ==> client_state_outcome(s, client) == Err::<
            TmClientState,
            ClientErrorView,
        >(ClientErrorView::ClientNotFound(client)),
        client_state_outcome(s, client) matches Ok(st) ==> {
            &&& s.client_type(client) == Some(tendermint_type())
            &&& s.client_state(client) matches Some(b)
            &&& st == tendermint_client_state_of(b)
        },
{
}

/// The forward search of the reader and keeper store answers the decoding of
/// the state stored at the lowest height above the given one, and nothing
/// exactly where no stored height is above it.
pub proof fn law_next_consensus_state_is_the_nearest_above(s: StoreState, client: Seq<char>, height: Height)
    ensures
        next_consensus_outcome(s, client, height) matches Ok(Some(st)) ==> exists|k: Height|
            #[trigger] is_least_above(s.consensus_states[client].dom(), height, k) && st
                == tendermint_consensus_state_of(s.consensus_states[client][k]),
        next_consensus_outcome(s, client, height) matches Ok(None) ==> s.consensus_states.contains_key(client)
            && forall|k: Height| #[trigger] s.consensus_states[client].contains_key(k) ==> !height_lt(height, k),
{
    if s.consensus_states.contains_key(client) {
        let dom = s.consensus_states[client].dom();
        law_least_height_above(dom, height);
        match crate::store_state::least_height_above(dom, height) {
            Some(k) => {
                assert(is_least_above(dom, height, k));
            },
            None => {
                assert forall|k: Height| #[trigger] s.consensus_states[client].contains_key(k) implies !height_lt(height, k) by {
                    assert(dom.contains(k));
                }
            },
        }
    }
}

/// The backward search of the reader and keeper store answers the decoding of
/// the state stored at the highest height below the given one, and nothing
/// exactly where no stored height is below it.
pub proof fn law_prev_consensus_state_is_the_nearest_below(s: StoreState, client: Seq<char>, height: Height)
    ensures
        prev_consensus_outcome(s, client, height) matches Ok(Some(st)) ==> exists|k: Height|
            #[trigger] is_greatest_below(s.consensus_states[client].dom(), height, k) && st
                == tendermint_consensus_state_of(s.consensus_states[client][k]),
        prev_consensus_outcome(s, client, height) matches Ok(None) ==> s.consensus_states.contains_key(client)
            && forall|k: Height| #[trigger] s.consensus_states[client].contains_key(k) ==> !height_lt(k, height),
{
    if s.consensus_states.contains_key(client) {
        let dom = s.consensus_states[client].dom();
        law_greatest_height_below(dom, height);
        match crate::store_state::greatest_height_below(dom, height) {
            Some(k) => {
                assert(is_greatest_below(dom, height, k));
            },
            None => {
                assert forall|k: Height| #[trigger] s.consensus_states[client].contains_key(k) implies !height_lt(k, height) by {
                    assert(dom.contains(k));
                }
            },
        }
    }
}

/// The validation store answers a consensus state only at a height where one
/// is stored: a Tendermint state is the decoding of the stored bytes, a solo
/// machine state is the stored bytes themselves; where nothing is stored at a
/// valid height, the consensus state is not found.
pub proof fn law_solana_consensus_state_only_where_stored(
    s: StoreState,
    client: Seq<char>,
    epoch: u64,
    height: u64,
)
    ensures
        ({
            let h = Height { revision_number: epoch, revision_height: height };
            &&& height != 0 && s.consensus_state(client, h) is None ==> consensus_state_result(
                s,
                client,
                epoch,
                height,
            ) == Err::<StateRead<TmConsensusState>, ContextErrorView>(
                ContextErrorView::ClientError(ClientErrorView::ConsensusStateNotFound(client, h)),
            )
            &&& consensus_state_result(s, client, epoch, height) matches Ok(
                StateRead::Tendermint(st),
            ) ==> (s.consensus_state(client, h) matches Some(b) && st
                == tendermint_consensus_state_of(b) && s.client_type(client) == Some(
                tendermint_type(),
            ))
            &&& consensus_state_result(s, client, epoch, height) matches Ok(
                StateRead::Solomachine(b),
            ) ==> s.client_type(client) == Some(solomachine_type()) && s.consensus_state(client, h)
                == Some(b)
        }),
{
}

/// The validation store answers a client state only for a client with a
/// stored state: a Tendermint state is the decoding of the stored bytes, a
/// solo machine state is the stored bytes themselves.
pub proof fn law_solana_client_state_only_where_stored(s: StoreState, client: Seq<char>)
    ensures
        s.client_state(client) is None ==> client_state_result(s, client) == Err::<
            StateRead<TmClientState>,
            ContextErrorView,
        >(ContextErrorView::ClientError(ClientErrorView::ClientStateNotFound(client))),
        client_state_result(s, client) matches Ok(StateRead::Tendermint(st)) ==> (s.client_state(
            client,
        ) matches Some(b) && st == tendermint_client_state_of(b) && s.client_type(client) == Some(
            tendermint_type(),
        )),
        client_state_result(s, client) matches Ok(StateRead::Solomachine(b)) ==> s.client_type(
            client,
        ) == Some(solomachine_type()) && s.client_state(client) == Some(b),
{
}

/// The forward and backward searches of the validation store answer the
/// state at the nearest stored height above, and below, the given one.
pub proof fn law_solana_searches_are_the_nearest(s: StoreState, client: Seq<char>, height: Height)
    ensures
        next_consensus_result(s, client, height) matches Ok(Some(StateRead::Tendermint(st)))
            ==> exists|k: Height|
            #[trigger] is_least_above(s.consensus_states[client].dom(), height, k) && st
                == tendermint_consensus_state_of(s.consensus_states[client][k]),
        next_consensus_result(s, client, height) matches Ok(Some(StateRead::Solomachine(b)))
            ==> exists|k: Height|
            #[trigger] is_least_above(s.consensus_states[client].dom(), height, k) && b
                == s.consensus_states[client][k],
        next_consensus_result(s, client, height) matches Ok(None) ==> forall|k: Height|
            #[trigger] s.consensus_states[client].contains_key(k) ==> !height_lt(height, k),
        prev_consensus_result(s, client, height) matches Ok(Some(StateRead::Tendermint(st)))
            ==> exists|k: Height|
            #[trigger] is_greatest_below(s.consensus_states[client].dom(), height, k) && st
                == tendermint_consensus_state_of(s.consensus_states[client][k]),
        prev_consensus_result(s, client, height) matches Ok(Some(StateRead::Solomachine(b)))
            ==> exists|k: Height|
            #[trigger] is_greatest_below(s.consensus_states[client].dom(), height, k) && b
                == s.consensus_states[client][k],
        prev_consensus_result(s, client, height) matches Ok(None) ==> forall|k: Height|
            #[trigger] s.consensus_states[client].contains_key(k) ==> !height_lt(k, height),
{
    if s.consensus_states.contains_key(client) {
        let dom = s.consensus_states[client].dom();
        law_least_height_above(dom, height);
        law_greatest_height_below(dom, height);
        match crate::store_state::least_height_above(dom, height) {
            Some(k) => {
                assert(is_least_above(dom, height, k));
            },
            None => {
                assert forall|k: Height| #[trigger] s.consensus_states[client].contains_key(k) implies !height_lt(height, k) by {
                    assert(dom.contains(k));
                }
            },
        }
        match crate::store_state::greatest_height_below(dom, height) {
            Some(k) => {
                assert(is_greatest_below(dom, height, k));
            },
            None => {
                assert forall|k: Height| #[trigger] s.consensus_states[client].contains_key(k) implies !height_lt(k, height) by {
                    assert(dom.contains(k));
                }
            },
        }
    }
}

/// An `Any` that converts into a Tendermint client state is decoded as that
/// Tendermint state, whether or not a solo machine state was offered; the
/// solo machine state is taken only for an `Any` that is not Tendermint.
pub proof fn law_tendermint_any_decodes_first(type_url: Seq<char>, value: Seq<u8>, solomachine: bool)
    ensures
        tendermint_client_state_from_any_succeeds(type_url, value) ==> decode_any_result(
            type_url,
            value,
            solomachine,
        ) == Ok::<Option<()>, ContextErrorView>(None),
        !tendermint_client_state_from_any_succeeds(type_url, value) && solomachine
            ==> decode_any_result(type_url, value, solomachine) == Ok::<Option<()>, ContextErrorView>(
            Some(()),
        ),
        !tendermint_client_state_from_any_succeeds(type_url, value) && !solomachine
            ==> decode_any_result(type_url, value, solomachine) is Err,
{
}

/// Delivering one more message adds all of its events and log lines, in
/// order, where it was handled, and exactly its error where it failed.
pub proof fn law_each_message_adds_what_it_gathered<E, Er>(
    before: Seq<Outcome<E, Er>>,
    events: Vec<E>,
    logs: Vec<String>,
    error: Er,
)
    ensures
        ({
            let handled = before.push(Ok::<(Vec<E>, Vec<String>), Er>((events, logs)));
            &&& events_of(handled) == events_of(before) + events@
            &&& logs_of(handled) == logs_of(before) + logs@
            &&& errors_of(handled) == errors_of(before)
        }),
        ({
            let failed = before.push(Err::<(Vec<E>, Vec<String>), Er>(error));
            &&& events_of(failed) == events_of(before)
            &&& logs_of(failed) == logs_of(before)
            &&& errors_of(failed) == errors_of(before).push(error)
        }),
        events_of(seq![Ok::<(Vec<E>, Vec<String>), Er>((events, logs))]) == events@,
        logs_of(seq![Ok::<(Vec<E>, Vec<String>), Er>((events, logs))]) == logs@,
        events_of(Seq::<Outcome<E, Er>>::empty()) == Seq::<E>::empty(),
{
    let handled = before.push(Ok::<(Vec<E>, Vec<String>), Er>((events, logs)));
    let failed = before.push(Err::<(Vec<E>, Vec<String>), Er>(error));
    assert(handled.drop_last() =~= before);
    assert(failed.drop_last() =~= before);
    let one = seq![Ok::<(Vec<E>, Vec<String>), Er>((events, logs))];
    assert(one.drop_last() =~= Seq::<Outcome<E, Er>>::empty());
    assert(events_of(one.drop_last()) =~= Seq::<E>::empty());
    assert(logs_of(one.drop_last()) =~= Seq::<String>::empty());
    assert(one.last() == Ok::<(Vec<E>, Vec<String>), Er>((events, logs)));
    assert(events_of(one) =~= events@);
    assert(logs_of(one) =~= logs@);
    assert(errors_of(failed) =~= errors_of(before).push(error));
}

} // verus!
