//! The calls into `webrtc`, `serde_json` and `uuid`.
//!
//! Nothing in this file is proved: each item states what the library relies on.
use vstd::prelude::*;
use webrtc::data_channel::data_channel_state::RTCDataChannelState;
use webrtc::data_channel::RTCDataChannel;
use webrtc::ice_transport::ice_candidate::RTCIceCandidate;
use webrtc::ice_transport::ice_connection_state::RTCIceConnectionState;
use webrtc::ice_transport::ice_gathering_state::RTCIceGatheringState;
use webrtc::peer_connection::peer_connection_state::RTCPeerConnectionState;
use webrtc::peer_connection::sdp::sdp_type::RTCSdpType;
use webrtc::peer_connection::sdp::session_description::RTCSessionDescription;
use webrtc::peer_connection::RTCPeerConnection;

use crate::types::{
    DataChannelState, IceCandidate, IceConnectionState, IceGatheringState,
    LocalCandidate, PeerConnectionState, SdpType, SessionDescription,
};

verus! {

/// A live peer connection. The library passes it along; its state is asked for by the functions
/// below.
#[verifier::external_type_specification]
#[verifier::external_body]
pub struct ExPeerConnection(RTCPeerConnection);

/// A live data channel, passed along likewise.
#[verifier::external_type_specification]
#[verifier::external_body]
pub struct ExDataChannel(RTCDataChannel);

/// Whether `state` is an answer that `connection` gives when it is asked for its ICE state.
pub open(crate) spec fn answers_ice_connection_state(
    connection: &RTCPeerConnection,
    state: IceConnectionState,
) -> bool {
    call_ensures(ice_connection_state, (connection,), state)
}

/// `RTCPeerConnection::ice_connection_state`. The answer changes with the network, so nothing is
/// claimed of it.
#[verifier::external_body]
pub(crate) fn ice_connection_state(connection: &RTCPeerConnection) -> (state: IceConnectionState) {
    match connection.ice_connection_state() {
        RTCIceConnectionState::Unspecified => IceConnectionState::Unspecified,
        RTCIceConnectionState::New => IceConnectionState::New,
        RTCIceConnectionState::Checking => IceConnectionState::Checking,
        RTCIceConnectionState::Connected => IceConnectionState::Connected,
        RTCIceConnectionState::Completed => IceConnectionState::Completed,
        RTCIceConnectionState::Disconnected => IceConnectionState::Disconnected,
        RTCIceConnectionState::Failed => IceConnectionState::Failed,
        RTCIceConnectionState::Closed => IceConnectionState::Closed,
    }
}

/// Whether `state` is an answer that `connection` gives when it is asked how far gathering has come.
pub open(crate) spec fn answers_ice_gathering_state(connection: &RTCPeerConnection, state: IceGatheringState) -> bool {
    call_ensures(ice_gathering_state, (connection,), state)
}

/// `RTCPeerConnection::ice_gathering_state`. The answer changes with the network, so nothing is
/// claimed of it.
#[verifier::external_body]
pub(crate) fn ice_gathering_state(connection: &RTCPeerConnection) -> (state: IceGatheringState) {
    match connection.ice_gathering_state() {
        RTCIceGatheringState::Unspecified => IceGatheringState::Unspecified,
        RTCIceGatheringState::New => IceGatheringState::New,
        RTCIceGatheringState::Gathering => IceGatheringState::Gathering,
        RTCIceGatheringState::Complete => IceGatheringState::Complete,
    }
}

/// Whether `state` is an answer that `connection` gives when it is asked for its state.
pub open(crate) spec fn answers_connection_state(connection: &RTCPeerConnection, state: PeerConnectionState) -> bool {
    call_ensures(connection_state, (connection,), state)
}

/// `RTCPeerConnection::connection_state`. The answer changes with the network, so nothing is
/// claimed of it.
#[verifier::external_body]
pub(crate) fn connection_state(connection: &RTCPeerConnection) -> (state: PeerConnectionState) {
    match connection.connection_state() {
        RTCPeerConnectionState::Unspecified => PeerConnectionState::Unspecified,
        RTCPeerConnectionState::New => PeerConnectionState::New,
        RTCPeerConnectionState::Connecting => PeerConnectionState::Connecting,
        RTCPeerConnectionState::Connected => PeerConnectionState::Connected,
        RTCPeerConnectionState::Disconnected => PeerConnectionState::Disconnected,
        RTCPeerConnectionState::Failed => PeerConnectionState::Failed,
        RTCPeerConnectionState::Closed => PeerConnectionState::Closed,
    }
}

/// Whether `state` is an answer that `channel` gives when it is asked for its state.
pub open(crate) spec fn answers_ready_state(channel: &RTCDataChannel, state: DataChannelState) -> bool {
    call_ensures(ready_state, (channel,), state)
}

/// `RTCDataChannel::ready_state`. The answer changes with the network, so nothing is claimed of
/// it.
#[verifier::external_body]
pub(crate) fn ready_state(channel: &RTCDataChannel) -> (state: DataChannelState) {
    match channel.ready_state() {
        RTCDataChannelState::Unspecified => DataChannelState::Unspecified,
        RTCDataChannelState::Connecting => DataChannelState::Connecting,
        RTCDataChannelState::Open => DataChannelState::Open,
        RTCDataChannelState::Closing => DataChannelState::Closing,
        RTCDataChannelState::Closed => DataChannelState::Closed,
    }
}

/// Whether `value` is a UUID that was drawn at random.
pub open(crate) spec fn is_drawn(value: u128) -> bool {
    call_ensures(new_v4, (), value)
}

/// The version and variant bits of a random UUID: version four, the RFC 4122 variant.
pub open spec fn is_random_uuid(value: u128) -> bool {
    &&& (value >> 76) & 0xf == 4
    &&& (value >> 62) & 0x3 == 2
}

/// `uuid::Uuid::new_v4`: every outcome carries the version and variant bits. The other bits come
/// from the operating system's random numbers, and nothing is claimed of them.
#[verifier::external_body]
pub(crate) fn new_v4() -> (value: u128)
    ensures
        is_random_uuid(value),
{
    uuid::Uuid::new_v4().as_u128()
}

/// The text that `webrtc` gives to a local candidate, or nothing where it can give none: the
/// candidate line of its JSON form. It depends on neither the candidate's statistics identifier
/// nor its TCP type.
pub uninterp spec fn candidate_line(
    foundation: Seq<char>,
    priority: u32,
    address: Seq<char>,
    protocol: Seq<char>,
    port: u16,
    typ: Seq<char>,
    component: u16,
    related_address: Seq<char>,
    related_port: u16,
) -> Option<Seq<char>>;

/// Whether `webrtc` can compute the priority of a candidate that carries none: it subtracts the
/// component from 256.
pub open spec fn priority_fits(candidate: LocalCandidate) -> bool {
    candidate.priority != 0 || candidate.component <= 256
}

/// The candidate line of a local candidate.
pub open spec fn line_of(candidate: LocalCandidate) -> Option<Seq<char>> {
    candidate_line(
        candidate.foundation@,
        candidate.priority,
        candidate.address@,
        candidate.protocol.spec_name(),
        candidate.port,
        candidate.typ.spec_name(),
        candidate.component,
        candidate.related_address@,
        candidate.related_port,
    )
}

/// What `webrtc` writes beside the candidate line: the first media section, which goes unnamed,
/// and no user fragment.
pub open spec fn is_json_form(json: IceCandidate) -> bool {
    &&& json.sdp_mid is Some
    &&& json.sdp_mid->0@ == Seq::<char>::empty()
    &&& json.sdp_m_line_index == Some(0u16)
    &&& json.username_fragment is None
}

/// `RTCIceCandidate::to_json`, on a candidate whose protocol and type are read from their names: it
/// succeeds where there is a candidate line, and gives that line for the first media section. Where
/// there is none the outside function's error is dropped.
#[verifier::external_body]
pub(crate) fn candidate_to_json(candidate: LocalCandidate, protocol: &str, typ: &str) -> (json:
    Option<IceCandidate>)
    requires
        priority_fits(candidate),
    ensures
        (match json {
            Some(json) => Some(json.candidate@),
            None => None,
        }) == candidate_line(
            candidate.foundation@,
            candidate.priority,
            candidate.address@,
            protocol@,
            candidate.port,
            typ@,
            candidate.component,
            candidate.related_address@,
            candidate.related_port,
        ),
        json is Some ==> is_json_form(json->0),
{
    let LocalCandidate { stats_id, foundation, priority, address, port, component, .. } = candidate;
    let LocalCandidate { related_address, related_port, tcp_type, .. } = candidate;
    let (protocol, typ) = (protocol.into(), typ.into());
    let outside = RTCIceCandidate {
        stats_id, foundation, priority, address, protocol, port,
        typ, component, related_address, related_port, tcp_type,
    };
    let json = outside.to_json().ok()?;
    Some(IceCandidate {
        candidate: json.candidate,
        sdp_mid: json.sdp_mid,
        sdp_m_line_index: json.sdp_mline_index,
        username_fragment: json.username_fragment,
    })
}

/// The JSON text of a session description of the given kind and text.
pub uninterp spec fn description_json(sdp_type: SdpType, sdp: Seq<char>) -> Seq<char>;

/// The kind and the text of the session description that a JSON text holds, or nothing where it
/// holds none.
pub uninterp spec fn parsed_description(json: Seq<char>) -> Option<(SdpType, Seq<char>)>;

/// `serde_json::to_string` on an `RTCSessionDescription`. Writing one to a string cannot fail, and
/// `serde_json::from_str` reads back the kind and the text that were written.
#[verifier::external_body]
pub(crate) fn description_to_json(description: &SessionDescription) -> (json: String)
    ensures
        json@ == description_json(description.sdp_type, description.sdp@),
        parsed_description(json@) == Some((description.sdp_type, description.sdp@)),
{
    let mut outside = RTCSessionDescription::default();
    outside.sdp = description.sdp.clone();
    outside.sdp_type = match description.sdp_type {
        SdpType::Unspecified => RTCSdpType::Unspecified,
        SdpType::Offer => RTCSdpType::Offer,
        SdpType::Pranswer => RTCSdpType::Pranswer,
        SdpType::Answer => RTCSdpType::Answer,
        SdpType::Rollback => RTCSdpType::Rollback,
    };
    serde_json::to_string(&outside).unwrap()
}

/// `serde_json::from_str` into an `RTCSessionDescription`: the kind and the text that the JSON
/// text holds, or the parser's error where it holds no session description.
#[verifier::external_body]
pub(crate) fn description_from_json(json: &str) -> (description: Result<
    SessionDescription,
    serde_json::Error,
>)
    ensures
        match description {
            Ok(d) => parsed_description(json@) == Some((d.sdp_type, d.sdp@)),
            Err(_) => parsed_description(json@) is None,
        },
{
    let outside = serde_json::from_str::<RTCSessionDescription>(json)?;
    let sdp_type = match outside.sdp_type {
        RTCSdpType::Unspecified => SdpType::Unspecified,
        RTCSdpType::Offer => SdpType::Offer,
        RTCSdpType::Pranswer => SdpType::Pranswer,
        RTCSdpType::Answer => SdpType::Answer,
        RTCSdpType::Rollback => SdpType::Rollback,
    };
    Ok(SessionDescription { sdp_type, sdp: outside.sdp })
}

/// An answer of a peer connection or a data channel is one that it gave when it was asked, and an
/// identifier that was drawn is one that was drawn at random.
pub(crate) proof fn law_answers_come_from_who_was_asked(
    connection: &RTCPeerConnection,
    channel: &RTCDataChannel,
    ice: IceConnectionState,
    gathering: IceGatheringState,
    peer: PeerConnectionState,
    ready: DataChannelState,
    value: u128,
)
    ensures
        answers_ice_connection_state(connection, ice) ==> call_ensures(
            ice_connection_state,
            (connection,),
            ice,
        ),
        answers_ice_gathering_state(connection, gathering) ==> call_ensures(
            ice_gathering_state,
            (connection,),
            gathering,
        ),
        answers_connection_state(connection, peer) ==> call_ensures(
            connection_state,
            (connection,),
            peer,
        ),
        answers_ready_state(channel, ready) ==> call_ensures(ready_state, (channel,), ready),
        is_drawn(value) ==> call_ensures(new_v4, (), value),
        is_drawn(value) ==> (value >> 76) & 0xf == 4 && (value >> 62) & 0x3 == 2,
{
}

} // verus!
