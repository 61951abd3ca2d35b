//! What a node asks of an ICE transport, whichever stack carries it.
use vstd::prelude::*;

use std::sync::Arc;

use crate::types::{IceCandidate, IceServer};

verus! {

/// The two kinds of description that a transport makes for itself.
#[derive(Clone, Copy, Debug, PartialEq, Eq, Structural)]
pub enum LocalKind {
    Offer,
    Answer,
}

/// A transport: a peer connection, the candidates that it gathered, and a data channel.
///
/// What waits for the network is begun here and carried on by the associated types.
pub trait IceTransport: Sized {
    /// A peer connection.
    type Connection;

    /// A candidate that the peer connection gathered.
    type Candidate;

    /// A session description.
    type Sdp;

    /// A data channel.
    type DataChannel;

    /// The states of a peer connection.
    type IceConnectionState;

    /// The start of a transport, as far as it has come.
    type Startup;

    /// The making of a local description, as far as it has come.
    type Negotiation;

    /// A description for a peer connection to apply.
    type DescriptionRequest;

    /// A candidate for a peer connection to try.
    type CandidateRequest;

    /// Why an operation failed.
    type Error;

    /// The peer connection, once there is one.
    spec fn spec_connection(&self) -> Option<Arc<Self::Connection>>;

    /// The candidates gathered so far, the oldest first.
    spec fn spec_pending_candidates(&self) -> Seq<Self::Candidate>;

    /// The data channel, once there is one.
    spec fn spec_data_channel(&self) -> Option<Arc<Self::DataChannel>>;

    /// How the making of a local description begins.
    spec fn spec_negotiation(&self, kind: LocalKind) -> Self::Negotiation;

    /// A transport that has nothing yet.
    fn new() -> (transport: Self)
        ensures
            transport.spec_connection() is None,
            transport.spec_pending_candidates() == Seq::<Self::Candidate>::empty(),
            transport.spec_data_channel() is None,
    ;

    /// Begins to create the peer connection.
    fn start(&self, ice_server: Vec<IceServer>, external_ip: Option<String>) -> Self::Startup;

    /// The peer connection to close, if there is one.
    fn close(&self) -> (connection: Option<Arc<Self::Connection>>)
        ensures
            connection == self.spec_connection(),
    ;

    /// The state that the peer connection is in, if there is one.
    fn ice_connection_state(&self) -> (state: Option<Self::IceConnectionState>)
        ensures
            state is Some <==> self.spec_connection() is Some,
    ;

    /// The peer connection, if there is one.
    fn get_peer_connection(&self) -> (connection: Option<Arc<Self::Connection>>)
        ensures
            connection == self.spec_connection(),
    ;

    /// The candidates gathered so far, the oldest first.
    fn get_pending_candidates(&self) -> (candidates: Vec<Self::Candidate>)
        ensures
            candidates@ == self.spec_pending_candidates(),
    ;

    /// Begins to make an answer.
    fn get_answer(&self) -> (negotiation: Self::Negotiation)
        ensures
            negotiation == self.spec_negotiation(LocalKind::Answer),
    ;

    /// Begins to make an offer.
    fn get_offer(&self) -> (negotiation: Self::Negotiation)
        ensures
            negotiation == self.spec_negotiation(LocalKind::Offer),
    ;

    /// The data channel, if there is one.
    fn get_data_channel(&self) -> (channel: Option<Arc<Self::DataChannel>>)
        ensures
            channel == self.spec_data_channel(),
    ;

    /// Has the peer connection take `desc` as its own description.
    fn set_local_description(&self, desc: Self::Sdp) -> (request: Result<
        Self::DescriptionRequest,
        Self::Error,
    >)
        ensures
            request is Ok <==> self.spec_connection() is Some,
    ;

    /// Has the peer connection try `candidate`.
    fn add_ice_candidate(&self, candidate: IceCandidate) -> (request: Result<
        Self::CandidateRequest,
        Self::Error,
    >)
        ensures
            request is Ok <==> self.spec_connection() is Some,
    ;

    /// Has the peer connection take `desc` as the peer's description.
    fn set_remote_description(&self, desc: Self::Sdp) -> (request: Result<
        Self::DescriptionRequest,
        Self::Error,
    >)
        ensures
            request is Ok <==> self.spec_connection() is Some,
    ;
}

/// The handlers that a transport registers with its peer connection.
pub trait IceTransportCallback: IceTransport {
    /// Hears of each local candidate.
    type OnLocalCandidateHdlrFn;

    /// Hears of each data channel that the peer opens.
    type OnDataChannelHdlrFn;

    /// Hears of each change of the ICE state.
    type OnIceConnectionStateChangeHdlrFn;

    /// The handler of local candidates.
    fn on_ice_candidate(&self) -> Self::OnLocalCandidateHdlrFn;

    /// The handler of data channels.
    fn on_data_channel(&self) -> Self::OnDataChannelHdlrFn;

    /// The handler of ICE states.
    fn on_ice_connection_state_change(&self) -> Self::OnIceConnectionStateChangeHdlrFn;
}

/// The exchange of descriptions and candidates by which two transports meet.
///
/// 1. Send the description and the candidates to the peer.
/// 2. Receive those of the peer.
pub trait IceTrickleScheme: IceTransport {
    /// The kinds of session description.
    type SdpType;

    /// The making of the handshake message, as far as it has come.
    type Handshake;

    /// A handshake message of the peer.
    type RemoteInfo;

    /// The taking in of a handshake message, as far as it has come.
    type Registration;

    /// Begins to make the handshake message, with a description of the given kind.
    fn get_handshake_info(&self, kind: Self::SdpType) -> Self::Handshake;

    /// Begins to take in a handshake message of the peer.
    fn register_remote_info(&self, data: Self::RemoteInfo) -> Self::Registration;
}

} // verus!
