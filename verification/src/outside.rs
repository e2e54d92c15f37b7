//! The values and computations that the stores take from the `ibc` and
//! `sha2` crates. Every item here is believed, not proved: each doc comment
//! says what is claimed of the outside code.
use vstd::prelude::*;

use ibc::apps::transfer::types::{Coin, PrefixedDenom};
use ibc::clients::tendermint::client_state::ClientState as TmClientState;
use ibc::clients::tendermint::consensus_state::ConsensusState as TmConsensusState;
use ibc_core_channel_types::channel::ChannelEnd;
use ibc_core_connection_types::ConnectionEnd;
use ibc_core_handler_types::events::IbcEvent;
use ibc::primitives::proto::{Any, Protobuf};
use ibc::primitives::Signer;
use sha2::Digest;

use crate::types::TENDERMINT_CLIENT_STATE_TYPE_URL;

verus! {

/// `ibc`'s channel end: the state, ordering, counterparty and version of a channel.
/// The stores keep it and hand it back; they never look inside.
#[verifier::external_type_specification]
#[verifier::external_body]
pub struct ExChannelEnd(ChannelEnd);

/// `ibc`'s connection end. The stores keep it and hand it back.
#[verifier::external_type_specification]
#[verifier::external_body]
pub struct ExConnectionEnd(ConnectionEnd);

/// `ibc`'s event, kept in the order in which it was emitted.
#[verifier::external_type_specification]
#[verifier::external_body]
pub struct ExIbcEvent(IbcEvent);

/// `ibc`'s signer of a message: an account of the transfer application.
#[verifier::external_type_specification]
#[verifier::external_body]
pub struct ExSigner(Signer);

/// `ibc`'s coin of the transfer application, generic over its denomination.
#[verifier::external_type_specification]
#[verifier::external_body]
#[verifier::reject_recursive_types(D)]
pub struct ExCoin<D>(Coin<D>);

/// `ibc`'s denomination with its trace of ports and channels.
#[verifier::external_type_specification]
#[verifier::external_body]
pub struct ExPrefixedDenom(PrefixedDenom);

/// The Tendermint light client state of `ibc`.
#[verifier::external_type_specification]
#[verifier::external_body]
pub struct ExTmClientState(TmClientState);

/// The Tendermint consensus state of `ibc`.
#[verifier::external_type_specification]
#[verifier::external_body]
pub struct ExTmConsensusState(TmConsensusState);

/// `ChannelEnd`'s `Clone` is derived: the copy equals the original.
pub assume_specification[ <ChannelEnd as Clone>::clone ](c: &ChannelEnd) -> (r: ChannelEnd)
    ensures
        r == *c,
;

/// `ConnectionEnd`'s `Clone` is derived: the copy equals the original.
pub assume_specification[ <ConnectionEnd as Clone>::clone ](c: &ConnectionEnd) -> (r:
    ConnectionEnd)
    ensures
        r == *c,
;

/// The SHA-256 digest of the bytes, as `sha2` computes it.
pub uninterp spec fn sha256_digest(data: Seq<u8>) -> Seq<u8>;

/// Calls `sha2::Sha256::digest`. Claimed: the result is the digest of the
/// argument, a function of the bytes alone, and a SHA-256 digest is 32 bytes long.
#[verifier::external_body]
pub(crate) fn sha256(data: &[u8]) -> (r: Vec<u8>)
    ensures
        r@ == sha256_digest(data@),
        r@.len() == 32,
{
    sha2::Sha256::digest(data).to_vec()
}

/// What decoding the bytes as a protobuf `Any` holding a Tendermint client state
/// reports: `None` where it succeeds, else the `Debug` text of its error.
pub uninterp spec fn tendermint_client_state_decoding(bytes: Seq<u8>) -> Option<Seq<char>>;

/// The Tendermint client state that decoding the bytes as a protobuf `Any` yields.
pub uninterp spec fn tendermint_client_state_of(bytes: Seq<u8>) -> TmClientState;

/// Calls `Protobuf::<Any>::decode_vec` for the Tendermint client state. Claimed:
/// whether it succeeds, the text of its error and the state it yields depend on
/// the bytes alone.
#[verifier::external_body]
pub(crate) fn decode_tendermint_client_state(bytes: &[u8]) -> (r: Result<TmClientState, String>)
    ensures
        match r {
            Ok(state) => tendermint_client_state_decoding(bytes@) is None
                && state == tendermint_client_state_of(bytes@),
            Err(msg) => tendermint_client_state_decoding(bytes@) == Some(msg@),
        },
{
    match <TmClientState as Protobuf<Any>>::decode_vec(bytes) {
        Ok(state) => Ok(state),
        Err(e) => Err(format!("{:?}", e)),
    }
}

/// What decoding the bytes as a protobuf `Any` holding a Tendermint consensus
/// state reports: `None` where it succeeds, else the `Debug` text of its error.
pub uninterp spec fn tendermint_consensus_state_decoding(bytes: Seq<u8>) -> Option<Seq<char>>;

/// The Tendermint consensus state that decoding the bytes as a protobuf `Any` yields.
pub uninterp spec fn tendermint_consensus_state_of(bytes: Seq<u8>) -> TmConsensusState;

/// Calls `Protobuf::<Any>::decode_vec` for the Tendermint consensus state. Claimed:
/// whether it succeeds, the text of its error and the state it yields depend on
/// the bytes alone.
#[verifier::external_body]
pub(crate) fn decode_tendermint_consensus_state(bytes: &[u8]) -> (r: Result<
    TmConsensusState,
    String,
>)
    ensures
        match r {
            Ok(state) => tendermint_consensus_state_decoding(bytes@) is None
                && state == tendermint_consensus_state_of(bytes@),
            Err(msg) => tendermint_consensus_state_decoding(bytes@) == Some(msg@),
        },
{
    match <TmConsensusState as Protobuf<Any>>::decode_vec(bytes) {
        Ok(state) => Ok(state),
        Err(e) => Err(format!("{:?}", e)),
    }
}

/// Whether a protobuf `Any` with this type URL and value converts into a
/// Tendermint client state.
pub uninterp spec fn tendermint_client_state_from_any_succeeds(
    type_url: Seq<char>,
    value: Seq<u8>,
) -> bool;

/// The Tendermint client state that an `Any` with this type URL and value converts into.
pub uninterp spec fn tendermint_client_state_of_any(type_url: Seq<char>, value: Seq<u8>) -> TmClientState;

/// Calls `TryFrom<Any>` of the Tendermint client state on an `Any` built from
/// the two fields. Claimed: whether it succeeds and the state it yields depend
/// on the two fields alone, and an `Any` of another type URL is refused. Left
/// unsaid: the error's content, which the callers drop.
#[verifier::external_body]
pub(crate) fn tendermint_client_state_from_any(type_url: String, value: Vec<u8>) -> (r: Option<
    TmClientState,
>)
    ensures
        r is Some == tendermint_client_state_from_any_succeeds(type_url@, value@),
        type_url@ != TENDERMINT_CLIENT_STATE_TYPE_URL@ ==> r is None,
        r matches Some(state) ==> state == tendermint_client_state_of_any(type_url@, value@),
{
    match TmClientState::try_from(Any { type_url, value }) {
        Ok(state) => Some(state),
        Err(_) => None,
    }
}

} // verus!
