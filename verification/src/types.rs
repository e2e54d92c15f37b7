//! Plain values that the IBC host stores keep and hand out: identifiers,
//! heights, packet receipts, commitment prefixes and the errors of the
//! store's operations.
use vstd::prelude::*;

use crate::keyed_map::MapKey;

verus! {

/// Identifier of a light client, such as `07-tendermint-0`.
pub type ClientId = String;

/// Identifier of a connection, such as `connection-0`.
pub type ConnectionId = String;

/// Identifier of a port, such as `transfer`.
pub type PortId = String;

/// Identifier of a channel, such as `channel-0`.
pub type ChannelId = String;

/// The name of a light client type, such as `07-tendermint`.
pub type ClientType = String;

/// Identifier of an IBC application module.
pub type ModuleId = String;

/// A time of the host chain, in nanoseconds since the Unix epoch.
pub type Timestamp = u64;

/// Sequence number of a packet on a channel.
pub type Sequence = u64;

/// Commitment to the data of a sent packet.
pub type PacketCommitment = Vec<u8>;

/// Commitment to the acknowledgement of a received packet.
pub type AcknowledgementCommitment = Vec<u8>;

/// The name of the Tendermint light client type.
pub const TENDERMINT_CLIENT_TYPE: &'static str = "07-tendermint";

/// The type URL of a Tendermint client state packed in a protobuf `Any`.
pub const TENDERMINT_CLIENT_STATE_TYPE_URL: &'static str = "/ibc.lightclients.tendermint.v1.ClientState";

/// The name of the solo machine light client type.
pub const SOLOMACHINE_CLIENT_TYPE: &'static str = "06-solomachine";

/// A height of a chain: a revision number and a height within that revision.
/// Heights are ordered by revision number first, then by revision height.
#[derive(Clone, Copy, Debug, PartialEq, Eq, Structural, Hash)]
pub struct Height {
    pub revision_number: u64,
    pub revision_height: u64,
}

impl View for Height {
    type V = Height;

    open spec fn view(&self) -> Height {
        *self
    }
}

/// `a` comes strictly before `b`.
pub open spec fn height_lt(a: Height, b: Height) -> bool {
    a.revision_number < b.revision_number || (a.revision_number == b.revision_number
        && a.revision_height < b.revision_height)
}

impl Height {
    /// A height with a non-zero revision height; a zero revision height is refused.
    pub fn new(revision_number: u64, revision_height: u64) -> (r: Result<Height, ClientError>)
        ensures
            revision_height == 0 ==> r == Err::<Height, ClientError>(ClientError::InvalidHeight),
            revision_height != 0 ==> r == Ok::<Height, ClientError>(
                Height { revision_number, revision_height },
            ),
    {
        if revision_height == 0 {
            return Err(ClientError::InvalidHeight);
        }
        Ok(Height { revision_number, revision_height })
    }

    /// Whether `self` comes strictly before `other`.
    pub fn lt(&self, other: &Height) -> (b: bool)
        ensures
            b == height_lt(*self, *other),
    {
        self.revision_number < other.revision_number || (self.revision_number
            == other.revision_number && self.revision_height < other.revision_height)
    }
}

impl MapKey for Height {
    fn key_eq(&self, other: &Self) -> (b: bool) {
        *self == *other
    }
}

/// The receipt of a packet on an unordered channel: whether the packet was received.
#[derive(Clone, Copy, Debug, PartialEq, Eq, Structural)]
pub enum Receipt {
    Received,
    NotReceived,
}

/// The prefix under which a chain keeps its IBC state.
#[derive(Clone, Debug, PartialEq, Eq)]
pub struct CommitmentPrefix {
    pub bytes: Vec<u8>,
}

/// Errors of the light client part of a store.
#[derive(Clone, Debug, PartialEq, Eq)]
pub enum ClientError {
    ClientNotFound { client_id: ClientId },
    ClientStateNotFound { client_id: ClientId },
    ConsensusStateNotFound { client_id: ClientId, height: Height },
    UnknownClientStateType { client_state_type: String },
    InvalidHeight,
    ImplementationSpecific,
    Other { description: String },
}

/// Errors of the connection part of a store.
#[derive(Clone, Debug, PartialEq, Eq)]
pub enum ConnectionError {
    ConnectionNotFound { connection_id: ConnectionId },
    Client(ClientError),
}

/// Errors of the channel part of a store.
#[derive(Clone, Debug, PartialEq, Eq)]
pub enum ChannelError {
    ChannelNotFound { port_id: PortId, channel_id: ChannelId },
    Connection(ConnectionError),
    MissingChannel,
    ProcessedTimeNotFound { client_id: ClientId, height: Height },
    ProcessedHeightNotFound { client_id: ClientId, height: Height },
}

/// Errors of the packet part of a store.
#[derive(Clone, Debug, PartialEq, Eq)]
pub enum PacketError {
    MissingNextSendSeq { port_id: PortId, channel_id: ChannelId },
    MissingNextRecvSeq { port_id: PortId, channel_id: ChannelId },
    MissingNextAckSeq { port_id: PortId, channel_id: ChannelId },
    PacketCommitmentNotFound { sequence: Sequence },
    PacketReceiptNotFound { sequence: Sequence },
    PacketAcknowledgementNotFound { sequence: Sequence },
}

/// Any error of a store's validation or execution operations.
#[derive(Clone, Debug, PartialEq, Eq)]
pub enum ContextError {
    ClientError(ClientError),
    ConnectionError(ConnectionError),
    ChannelError(ChannelError),
    PacketError(PacketError),
}

/// Errors of the token transfer application.
#[derive(Clone, Debug, PartialEq, Eq)]
pub enum TokenTransferError {
    ContextError(ContextError),
}

} // verus!

verus! {

/// [`ClientError`] with its texts as sequences of characters.
pub enum ClientErrorView {
    ClientNotFound(Seq<char>),
    ClientStateNotFound(Seq<char>),
    ConsensusStateNotFound(Seq<char>, Height),
    UnknownClientStateType(Seq<char>),
    InvalidHeight,
    ImplementationSpecific,
    Other(Seq<char>),
}

impl View for ClientError {
    type V = ClientErrorView;

    open spec fn view(&self) -> ClientErrorView {
        match self {
            ClientError::ClientNotFound { client_id } => ClientErrorView::ClientNotFound(client_id@),
            ClientError::ClientStateNotFound { client_id } => ClientErrorView::ClientStateNotFound(
                client_id@,
            ),
            ClientError::ConsensusStateNotFound { client_id, height } =>
                ClientErrorView::ConsensusStateNotFound(client_id@, *height),
            ClientError::UnknownClientStateType { client_state_type } =>
                ClientErrorView::UnknownClientStateType(client_state_type@),
            ClientError::InvalidHeight => ClientErrorView::InvalidHeight,
            ClientError::ImplementationSpecific => ClientErrorView::ImplementationSpecific,
            ClientError::Other { description } => ClientErrorView::Other(description@),
        }
    }
}

/// [`ConnectionError`] with its texts as sequences of characters.
pub enum ConnectionErrorView {
    ConnectionNotFound(Seq<char>),
    Client(ClientErrorView),
}

impl View for ConnectionError {
    type V = ConnectionErrorView;

    open spec fn view(&self) -> ConnectionErrorView {
        match self {
            ConnectionError::ConnectionNotFound { connection_id } =>
                ConnectionErrorView::ConnectionNotFound(connection_id@),
            ConnectionError::Client(e) => ConnectionErrorView::Client(e@),
        }
    }
}

/// [`ChannelError`] with its texts as sequences of characters.
pub enum ChannelErrorView {
    ChannelNotFound(Seq<char>, Seq<char>),
    Connection(ConnectionErrorView),
    MissingChannel,
    ProcessedTimeNotFound(Seq<char>, Height),
    ProcessedHeightNotFound(Seq<char>, Height),
}

impl View for ChannelError {
    type V = ChannelErrorView;

    open spec fn view(&self) -> ChannelErrorView {
        match self {
            ChannelError::ChannelNotFound { port_id, channel_id } =>
                ChannelErrorView::ChannelNotFound(port_id@, channel_id@),
            ChannelError::Connection(e) => ChannelErrorView::Connection(e@),
            ChannelError::MissingChannel => ChannelErrorView::MissingChannel,
            ChannelError::ProcessedTimeNotFound { client_id, height } =>
                ChannelErrorView::ProcessedTimeNotFound(client_id@, *height),
            ChannelError::ProcessedHeightNotFound { client_id, height } =>
                ChannelErrorView::ProcessedHeightNotFound(client_id@, *height),
        }
    }
}

/// [`PacketError`] with its texts as sequences of characters.
pub enum PacketErrorView {
    MissingNextSendSeq(Seq<char>, Seq<char>),
    MissingNextRecvSeq(Seq<char>, Seq<char>),
    MissingNextAckSeq(Seq<char>, Seq<char>),
    PacketCommitmentNotFound(u64),
    PacketReceiptNotFound(u64),
    PacketAcknowledgementNotFound(u64),
}

impl View for PacketError {
    type V = PacketErrorView;

    open spec fn view(&self) -> PacketErrorView {
        match self {
            PacketError::MissingNextSendSeq { port_id, channel_id } =>
                PacketErrorView::MissingNextSendSeq(port_id@, channel_id@),
            PacketError::MissingNextRecvSeq { port_id, channel_id } =>
                PacketErrorView::MissingNextRecvSeq(port_id@, channel_id@),
            PacketError::MissingNextAckSeq { port_id, channel_id } =>
                PacketErrorView::MissingNextAckSeq(port_id@, channel_id@),
            PacketError::PacketCommitmentNotFound { sequence } =>
                PacketErrorView::PacketCommitmentNotFound(*sequence),
            PacketError::PacketReceiptNotFound { sequence } =>
                PacketErrorView::PacketReceiptNotFound(*sequence),
            PacketError::PacketAcknowledgementNotFound { sequence } =>
                PacketErrorView::PacketAcknowledgementNotFound(*sequence),
        }
    }
}

/// [`ContextError`] with its texts as sequences of characters.
pub enum ContextErrorView {
    ClientError(ClientErrorView),
    ConnectionError(ConnectionErrorView),
    ChannelError(ChannelErrorView),
    PacketError(PacketErrorView),
}

impl View for ContextError {
    type V = ContextErrorView;

    open spec fn view(&self) -> ContextErrorView {
        match self {
            ContextError::ClientError(e) => ContextErrorView::ClientError(e@),
            ContextError::ConnectionError(e) => ContextErrorView::ConnectionError(e@),
            ContextError::ChannelError(e) => ContextErrorView::ChannelError(e@),
            ContextError::PacketError(e) => ContextErrorView::PacketError(e@),
        }
    }
}

/// The spec value of a result: its success value as it is, its error by its view.
pub open spec fn result_of<T, E: View>(r: Result<T, E>) -> Result<T, E::V> {
    match r {
        Ok(v) => Ok(v),
        Err(e) => Err(e@),
    }
}

/// The spec value of a result: its success value dropped, its error by its view.
pub open spec fn outcome_of<T, E: View>(r: Result<T, E>) -> Result<(), E::V> {
    match r {
        Ok(_) => Ok(()),
        Err(e) => Err(e@),
    }
}

} // verus!
