//! What can go wrong on a transport.
use vstd::prelude::*;

verus! {

/// The error type of the `webrtc` crate. It is carried along unread.
#[verifier::external_type_specification]
#[verifier::external_body]
pub struct ExWebrtcError(webrtc::error::Error);

/// The error type of the `serde_json` crate. It is carried along unread.
#[verifier::external_type_specification]
#[verifier::external_body]
pub struct ExJsonError(serde_json::Error);

/// Why an operation of a transport failed.
#[derive(Debug)]
pub enum TransportError {
    /// The transport has no peer connection yet.
    RTCPeerConnectionNotEstablish,
    /// The peer connection could not be created.
    RTCPeerConnectionCreateFailed(webrtc::error::Error),
    /// The peer connection could not create an offer.
    RTCPeerConnectionCreateOfferFailed(webrtc::error::Error),
    /// The peer connection could not create an answer.
    RTCPeerConnectionCreateAnswerFailed(webrtc::error::Error),
    /// The peer connection could not be closed.
    RTCPeerConnectionCloseFailed(webrtc::error::Error),
    /// The peer connection refused a remote candidate.
    RTCPeerConnectionAddIceCandidateError(webrtc::error::Error),
    /// The peer connection refused the local description.
    RTCPeerConnectionSetLocalDescFailed(webrtc::error::Error),
    /// The peer connection refused the remote description.
    RTCPeerConnectionSetRemoteDescFailed(webrtc::error::Error),
    /// The transport has no data channel, or none could be created.
    RTCDataChannelNotReady,
    /// The data channel is not open.
    RTCDataChannelStateNotOpen,
    /// The data channel is open and failed to send.
    RTCDataChannelSendTextFailed(webrtc::error::Error),
    /// The data channel sent the first number of bytes for a message of the second.
    RTCDataChannelMessageIncomplete(usize, usize),
    /// Gathering ended without a local candidate.
    FailedOnGatherLocalCandidate,
    /// The signature of a handshake message does not verify.
    VerifySignatureFailed,
    /// The session description of a handshake message is not one.
    Deserialize(serde_json::Error),
    /// A promise was completed without success.
    PromiseStateFailed,
}

} // verus!
