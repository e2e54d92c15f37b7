//! What holds of the stores across their operations: a value written is the
//! value read back, a write touches nothing else, a deletion is undone by
//! nothing and undoes a write, the searches pick the nearest height, and a
//! batch's outcomes keep the order of its messages.
use vstd::prelude::*;

use crate::delivery::{errors_of, events_of, logs_of, Outcome};
use crate::ibc_store::{
    client_state_outcome, consensus_state_outcome, decode_outcome, ibc_prefix, tendermint_type,
};
use crate::outside::{
    tendermint_client_state_decoding, tendermint_client_state_of,
    tendermint_consensus_state_decoding, tendermint_consensus_state_of,
};
use crate::solana_store::{
    client_state_result, client_type_result, consensus_state_result, decode_client_kind,
    decode_consensus_kind, in_context, solomachine_type,
};
use crate::store_state::{
    greatest_height_below, is_greatest_below, is_least_above, least_height_above, saturating_succ, StoreState,
};
use crate::heights::{lemma_highest_exists, lemma_lowest_exists};
use crate::types::{height_lt, ClientErrorView, Height, Receipt};
use ibc::clients::tendermint::consensus_state::ConsensusState as TmConsensusState;
use ibc_core_channel_types::channel::ChannelEnd;
use ibc_core_connection_types::ConnectionEnd;

verus! {

/// A channel stored under a port and channel is the one read back there, and
/// the channels under every other port and channel stay as they were.
pub proof fn law_channel_read_after_store(
    s: StoreState,
    port: Seq<char>,
    channel: Seq<char>,
    end: ChannelEnd,
    other_port: Seq<char>,
    other_channel: Seq<char>,
)
    ensures
        s.with_channel(port, channel, end).channel(port, channel) == Some(end),
        (other_port, other_channel) != (port, channel) ==> s.with_channel(port, channel, end).channel(
            other_port,
            other_channel,
        ) == s.channel(other_port, other_channel),
{
}

/// A connection stored is the one read back, and every other connection stays.
pub proof fn law_connection_read_after_store(
    s: StoreState,
    connection: Seq<char>,
    end: ConnectionEnd,
    other: Seq<char>,
)
    ensures
        s.with_connection(connection, end).connection(connection) == Some(end),
        other != connection ==> s.with_connection(connection, end).connection(other)
            == s.connection(other),
{
}

/// The connection recorded for a client is the one read back; other clients keep theirs.
pub proof fn law_client_connection_read_after_store(
    s: StoreState,
    client: Seq<char>,
    connection: Seq<char>,
    other: Seq<char>,
)
    ensures
        s.with_client_connection(client, connection).client_connection(client) == Some(connection),
        other != client ==> s.with_client_connection(client, connection).client_connection(other)
            == s.client_connection(other),
{
}

/// The next sequence numbers stored for a channel are the ones read back; the
/// three kinds of sequence number are independent, and other channels keep theirs.
pub proof fn law_sequences_read_after_store(
    s: StoreState,
    port: Seq<char>,
    channel: Seq<char>,
    seq: u64,
    other_port: Seq<char>,
    other_channel: Seq<char>,
)
    ensures
        s.with_next_send(port, channel, seq).next_send(port, channel) == Some(seq),
        s.with_next_recv(port, channel, seq).next_recv(port, channel) == Some(seq),
        s.with_next_ack(port, channel, seq).next_ack(port, channel) == Some(seq),
        s.with_next_send(port, channel, seq).next_recv(other_port, other_channel) == s.next_recv(
            other_port,
            other_channel,
        ),
        s.with_next_send(port, channel, seq).next_ack(other_port, other_channel) == s.next_ack(
            other_port,
            other_channel,
        ),
        (other_port, other_channel) != (port, channel) ==> {
            &&& s.with_next_send(port, channel, seq).next_send(other_port, other_channel)
                == s.next_send(other_port, other_channel)
            &&& s.with_next_recv(port, channel, seq).next_recv(other_port, other_channel)
                == s.next_recv(other_port, other_channel)
            &&& s.with_next_ack(port, channel, seq).next_ack(other_port, other_channel)
                == s.next_ack(other_port, other_channel)
        },
{
}

/// A packet commitment stored is the one read back, and every other packet's stays.
pub proof fn law_commitment_read_after_store(
    s: StoreState,
    port: Seq<char>,
    channel: Seq<char>,
    seq: u64,
    commitment: Seq<u8>,
    other_port: Seq<char>,
    other_channel: Seq<char>,
    other_seq: u64,
)
    ensures
        s.with_commitment(port, channel, seq, commitment).commitment(port, channel, seq) == Some(
            commitment,
        ),
        (other_port, other_channel, other_seq) != (port, channel, seq) ==> s.with_commitment(
            port,
            channel,
            seq,
            commitment,
        ).commitment(other_port, other_channel, other_seq) == s.commitment(
            other_port,
            other_channel,
            other_seq,
        ),
{
}

/// After a packet commitment is deleted it is not found, every other packet's
/// stays, and deleting undoes a store: storing then deleting is deleting.
pub proof fn law_commitment_delete(
    s: StoreState,
    port: Seq<char>,
    channel: Seq<char>,
    seq: u64,
    commitment: Seq<u8>,
    other_port: Seq<char>,
    other_channel: Seq<char>,
    other_seq: u64,
)
    ensures
        s.without_commitment(port, channel, seq).commitment(port, channel, seq) is None,
        (other_port, other_channel, other_seq) != (port, channel, seq) ==> s.without_commitment(
            port,
            channel,
            seq,
        ).commitment(other_port, other_channel, other_seq) == s.commitment(
            other_port,
            other_channel,
            other_seq,
        ),
        s.with_commitment(port, channel, seq, commitment).without_commitment(port, channel, seq)
            == s.without_commitment(port, channel, seq),
        s.commitment(port, channel, seq) is None ==> s.with_commitment(
            port,
            channel,
            seq,
            commitment,
        ).without_commitment(port, channel, seq) == s,
{
    assert(s.with_commitment(port, channel, seq, commitment).without_commitment(port, channel, seq)
        =~= s.without_commitment(port, channel, seq));
    if s.commitment(port, channel, seq) is None {
        assert(s.with_commitment(port, channel, seq, commitment).without_commitment(
            port,
            channel,
            seq,
        ) =~= s);
    }
}

/// A packet receipt stored is the one read back, and every other packet's stays.
pub proof fn law_receipt_read_after_store(
    s: StoreState,
    port: Seq<char>,
    channel: Seq<char>,
    seq: u64,
    receipt: Receipt,
    other_port: Seq<char>,
    other_channel: Seq<char>,
    other_seq: u64,
)
    ensures
        s.with_receipt(port, channel, seq, receipt).receipt(port, channel, seq) == Some(receipt),
        (other_port, other_channel, other_seq) != (port, channel, seq) ==> s.with_receipt(
            port,
            channel,
            seq,
            receipt,
        ).receipt(other_port, other_channel, other_seq) == s.receipt(
            other_port,
            other_channel,
            other_seq,
        ),
{
}

/// An acknowledgement stored is the one read back; after it is deleted it is
/// not found; deleting undoes a store; every other packet's stays throughout.
pub proof fn law_acknowledgement_store_and_delete(
    s: StoreState,
    port: Seq<char>,
    channel: Seq<char>,
    seq: u64,
    ack: Seq<u8>,
    other_port: Seq<char>,
    other_channel: Seq<char>,
    other_seq: u64,
)
    ensures
        s.with_acknowledgement(port, channel, seq, ack).acknowledgement(port, channel, seq) == Some(
            ack,
        ),
        s.without_acknowledgement(port, channel, seq).acknowledgement(port, channel, seq) is None,
        s.with_acknowledgement(port, channel, seq, ack).without_acknowledgement(port, channel, seq)
            == s.without_acknowledgement(port, channel, seq),
        (other_port, other_channel, other_seq) != (port, channel, seq) ==> {
            &&& s.with_acknowledgement(port, channel, seq, ack).acknowledgement(
                other_port,
                other_channel,
                other_seq,
            ) == s.acknowledgement(other_port, other_channel, other_seq)
            &&& s.without_acknowledgement(port, channel, seq).acknowledgement(
                other_port,
                other_channel,
                other_seq,
            ) == s.acknowledgement(other_port, other_channel, other_seq)
        },
{
    assert(s.with_acknowledgement(port, channel, seq, ack).without_acknowledgement(
        port,
        channel,
        seq,
    ) =~= s.without_acknowledgement(port, channel, seq));
}

/// The type and the state stored for a client are the ones read back; other
/// clients keep theirs.
pub proof fn law_client_read_after_store(
    s: StoreState,
    client: Seq<char>,
    client_type: Seq<char>,
    state: Seq<u8>,
    other: Seq<char>,
)
    ensures
        s.with_client_type(client, client_type).client_type(client) == Some(client_type),
        s.with_client_state(client, state).client_state(client) == Some(state),
        other != client ==> s.with_client_type(client, client_type).client_type(other)
            == s.client_type(other),
        other != client ==> s.with_client_state(client, state).client_state(other)
            == s.client_state(other),
{
}

/// A consensus state stored for a client at a height is the one read back
/// there, and the states of every other client or height stay.
pub proof fn law_consensus_state_read_after_store(
    s: StoreState,
    client: Seq<char>,
    height: Height,
    state: Seq<u8>,
    other_client: Seq<char>,
    other_height: Height,
)
    ensures
        s.with_consensus_state(client, height, state).consensus_state(client, height) == Some(state),
        (other_client, other_height) != (client, height) ==> s.with_consensus_state(
            client,
            height,
            state,
        ).consensus_state(other_client, other_height) == s.consensus_state(
            other_client,
            other_height,
        ),
{
}

/// Giving a client a record of consensus states, as a refused height does,
/// changes no consensus state that can be read.
pub proof fn law_consensus_record_reads_nothing_new(
    s: StoreState,
    client: Seq<char>,
    other_client: Seq<char>,
    height: Height,
)
    ensures
        s.with_consensus_record(client).consensus_state(other_client, height) == s.consensus_state(
            other_client,
            height,
        ),
{
}

/// The times and heights of client updates stored are the ones read back;
/// the other updates keep theirs.
pub proof fn law_update_read_after_store(
    s: StoreState,
    client: Seq<char>,
    height: Height,
    time: u64,
    host: Height,
    other_client: Seq<char>,
    other_height: Height,
)
    ensures
        s.with_update_time(client, height, time).update_time(client, height) == Some(time),
        s.with_update_height(client, height, host).update_height(client, height) == Some(host),
        (other_client, other_height) != (client, height) ==> {
            &&& s.with_update_time(client, height, time).update_time(other_client, other_height)
                == s.update_time(other_client, other_height)
            &&& s.with_update_height(client, height, host).update_height(other_client, other_height)
                == s.update_height(other_client, other_height)
        },
{
}

/// The channels of a connection keep the order in which they were added:
/// adding one puts it after all the others.
pub proof fn law_connection_channels_append(
    s: StoreState,
    connection: Seq<char>,
    port: Seq<char>,
    channel: Seq<char>,
    other: Seq<char>,
)
    ensures
        s.with_connection_channel(connection, port, channel).channels_of_connection(connection)
            == Some(
            match s.channels_of_connection(connection) {
                Some(before) => before.push((port, channel)),
                None => seq![(port, channel)],
            },
        ),
        other != connection ==> s.with_connection_channel(
            connection,
            port,
            channel,
        ).channels_of_connection(other) == s.channels_of_connection(other),
{
    if !s.connection_channels.contains_key(connection) {
        assert(Seq::<(Seq<char>, Seq<char>)>::empty().push((port, channel)) =~= seq![
            (port, channel),
        ]);
    }
}

/// A saturating counter goes up by exactly one below the largest `u64`, and
/// stays there at the largest.
pub proof fn law_saturating_counter(x: u64)
    ensures
        x < u64::MAX ==> saturating_succ(x) == x + 1,
        x == u64::MAX ==> saturating_succ(x) == x,
        saturating_succ(x) >= x,
{
}

/// The height named by the upward search is stored, above the given height,
/// and no stored height lies strictly between the two; there is none exactly
/// when no stored height is above the given one.
pub proof fn law_least_height_above(heights: Set<Height>, h: Height)
    ensures
        least_height_above(heights, h) matches Some(k) ==> is_least_above(heights, h, k),
        least_height_above(heights, h) is None <==> forall|k: Height|
            heights.contains(k) ==> !height_lt(h, k),
{
    if least_height_above(heights, h) is None {
        assert forall|k: Height| heights.contains(k) implies !height_lt(h, k) by {
            if height_lt(h, k) {
                let above = heights.filter(|k2: Height| height_lt(h, k2));
                assert(above.contains(k));
                lemma_lowest_exists(above, k);
                let m = choose|m: Height|
                    above.contains(m) && forall|k2: Height| above.contains(k2) ==> !height_lt(k2, m);
                assert(is_least_above(heights, h, m));
            }
        }
    }
}

/// The height named by the downward search for the highest is stored, below
/// the given height, and no stored height lies strictly between the two;
/// there is none exactly when no stored height is below the given one.
pub proof fn law_greatest_height_below(heights: Set<Height>, h: Height)
    ensures
        greatest_height_below(heights, h) matches Some(k) ==> is_greatest_below(heights, h, k),
        greatest_height_below(heights, h) is None <==> forall|k: Height|
            heights.contains(k) ==> !height_lt(k, h),
{
    if greatest_height_below(heights, h) is None {
        assert forall|k: Height| heights.contains(k) implies !height_lt(k, h) by {
            if height_lt(k, h) {
                let below = heights.filter(|k2: Height| height_lt(k2, h));
                assert(below.contains(k));
                lemma_highest_exists(below, k);
                let m = choose|m: Height|
                    below.contains(m) && forall|k2: Height| below.contains(k2) ==> !height_lt(m, k2);
                assert(is_greatest_below(heights, h, m));
            }
        }
    }
}

/// Delivering two batches one after the other gathers what delivering them
/// as one batch gathers: the events, the log lines and the errors of the
/// first batch come before those of the second.
pub proof fn law_delivery_concatenates<E, Er>(a: Seq<Outcome<E, Er>>, b: Seq<Outcome<E, Er>>)
    ensures
        events_of(a + b) == events_of(a) + events_of(b),
        logs_of(a + b) == logs_of(a) + logs_of(b),
        errors_of(a + b) == errors_of(a) + errors_of(b),
    decreases b.len(),
{
    if b.len() == 0 {
        assert(a + b =~= a);
        assert(events_of(a) + events_of(b) =~= events_of(a));
        assert(logs_of(a) + logs_of(b) =~= logs_of(a));
        assert(errors_of(a) + errors_of(b) =~= errors_of(a));
    } else {
        law_delivery_concatenates(a, b.drop_last());
        assert((a + b).drop_last() =~= a + b.drop_last());
        assert((a + b).last() == b.last());
        assert(events_of(a + b) =~= events_of(a) + events_of(b));
        assert(logs_of(a + b) =~= logs_of(a) + logs_of(b));
        assert(errors_of(a + b) =~= errors_of(a) + errors_of(b));
    }
}

/// The validation and execution store answers a client type only where it is one of the
/// two known types.
pub proof fn law_known_client_types(s: StoreState, client: Seq<char>)
    ensures
        client_type_result(s, client) matches Ok(t) ==> t == tendermint_type() || t
            == solomachine_type(),
        s.client_type(client) matches Some(t) ==> (t == tendermint_type() || t == solomachine_type()
            <==> client_type_result(s, client) == Ok::<Seq<char>, crate::types::ClientErrorView>(
            t,
        )),
{
}

/// A client state stored with its type in the validation and execution store is read back
/// decoded by the decoder of that type.
pub proof fn law_solana_client_state_read_after_store(
    s: StoreState,
    client: Seq<char>,
    client_type: Seq<char>,
    state: Seq<u8>,
)
    requires
        client_type == tendermint_type() || client_type == solomachine_type(),
    ensures
        client_state_result(s.with_client_state(client, state).with_client_type(client, client_type), client)
            == in_context(decode_client_kind(client_type, state)),
{
}

/// A consensus state stored for a Tendermint client in the reader and keeper
/// store is read back as the decoding of the stored bytes, or as the error of
/// that decoding.
pub proof fn law_consensus_state_decoded_after_store(
    s: StoreState,
    client: Seq<char>,
    height: Height,
    state: Seq<u8>,
)
    requires
        s.client_type(client) == Some(tendermint_type()),
    ensures
        consensus_state_outcome(s.with_consensus_state(client, height, state), client, height) == (
        if tendermint_consensus_state_decoding(state) is None {
            Ok::<TmConsensusState, ClientErrorView>(tendermint_consensus_state_of(state))
        } else {
            Err::<TmConsensusState, ClientErrorView>(ClientErrorView::ImplementationSpecific)
        }),
{
}

/// A client state stored for a Tendermint client in the reader and keeper
/// store is read back as the decoding of the stored bytes.
pub proof fn law_client_state_decoded_after_store(s: StoreState, client: Seq<char>, state: Seq<u8>)
    ensures
        client_state_outcome(
            s.with_client_state(client, state).with_client_type(client, tendermint_type()),
            client,
        ) == decode_outcome(
            tendermint_client_state_decoding(state),
            tendermint_client_state_of(state),
            "Decode Ics07ClientState failed: "@,
        ),
{
}

/// A consensus state stored in the validation and execution store at a
/// non-zero height is read back there decoded by the decoder of the client's type.
pub proof fn law_solana_consensus_state_read_after_store(
    s: StoreState,
    client: Seq<char>,
    epoch: u64,
    height: u64,
    state: Seq<u8>,
)
    requires
        height != 0,
        client_type_result(s, client) is Ok,
    ensures
        consensus_state_result(
            s.with_consensus_state(client, Height { revision_number: epoch, revision_height: height }, state),
            client,
            epoch,
            height,
        ) == in_context(decode_consensus_kind(client_type_result(s, client)->Ok_0, state)),
{
}

/// The three identifier counters of a store.
pub open spec fn counters(s: StoreState) -> (u64, u64, u64) {
    (s.client_ids_counter, s.connection_ids_counter, s.channel_ids_counter)
}

/// No write of a client, connection, channel or packet moves an identifier
/// counter: the counters change only through their own updates.
pub proof fn law_counters_change_only_by_increase(
    s: StoreState,
    client: Seq<char>,
    text: Seq<char>,
    bytes: Seq<u8>,
    height: Height,
    time: u64,
    connection_end: ConnectionEnd,
    channel_end: ChannelEnd,
    seq: u64,
    receipt: Receipt,
)
    ensures
        counters(s.with_client_type(client, text)) == counters(s),
        counters(s.with_client_state(client, bytes)) == counters(s),
        counters(s.with_consensus_record(client)) == counters(s),
        counters(s.with_consensus_state(client, height, bytes)) == counters(s),
        counters(s.with_update_time(client, height, time)) == counters(s),
        counters(s.with_update_height(client, height, height)) == counters(s),
        counters(s.with_connection(text, connection_end)) == counters(s),
        counters(s.with_client_connection(client, text)) == counters(s),
        counters(s.with_connection_channel(text, client, text)) == counters(s),
        counters(s.with_channel(client, text, channel_end)) == counters(s),
        counters(s.with_next_send(client, text, seq)) == counters(s),
        counters(s.with_next_recv(client, text, seq)) == counters(s),
        counters(s.with_next_ack(client, text, seq)) == counters(s),
        counters(s.with_commitment(client, text, seq, bytes)) == counters(s),
        counters(s.without_commitment(client, text, seq)) == counters(s),
        counters(s.with_receipt(client, text, seq, receipt)) == counters(s),
        counters(s.with_acknowledgement(client, text, seq, bytes)) == counters(s),
        counters(s.without_acknowledgement(client, text, seq)) == counters(s),
{
}

} // verus!
