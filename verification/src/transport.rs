//! The transport of a node: its state, and what is asked of it.
use vstd::prelude::*;

use std::sync::Arc;
use vstd::std_specs::cmp::PartialEqSpec;
use webrtc::data_channel::RTCDataChannel;
use webrtc::peer_connection::RTCPeerConnection;

use crate::error::TransportError;
use crate::ice_transport::{IceTransport, IceTransportCallback, LocalKind};
use crate::negotiation::Negotiation;
use crate::promise::PromiseState;
use crate::rtc;
use crate::startup::Startup;
use crate::types::{
    DataChannelState, Event, IceCandidate, IceConnectionState, IceGatheringState, IceServer,
    LocalCandidate, PublicKey, SessionDescription, TransportId,
};

verus! {

/// A transport to one peer.
pub struct DefaultTransport {
    pub id: TransportId,
    connection: Option<Arc<RTCPeerConnection>>,
    pending_candidates: Vec<LocalCandidate>,
    data_channel: Option<Arc<RTCDataChannel>>,
    public_key: Option<PublicKey>,
}

/// What a transport holds.
pub struct TransportView {
    pub id: TransportId,
    pub connection: Option<Arc<RTCPeerConnection>>,
    pub pending_candidates: Seq<LocalCandidate>,
    pub data_channel: Option<Arc<RTCDataChannel>>,
    pub public_key: Option<PublicKey>,
}

impl View for DefaultTransport {
    type V = TransportView;

    closed spec fn view(&self) -> TransportView {
        TransportView {
            id: self.id,
            connection: self.connection,
            pending_candidates: self.pending_candidates@,
            data_channel: self.data_channel,
            public_key: self.public_key,
        }
    }
}

impl PartialEq for DefaultTransport {
    fn eq(&self, other: &DefaultTransport) -> (same: bool) {
        self.id == other.id
    }
}

impl vstd::std_specs::cmp::PartialEqSpecImpl for DefaultTransport {
    open spec fn obeys_eq_spec() -> bool {
        true
    }

    open spec fn eq_spec(&self, other: &DefaultTransport) -> bool {
        self@.id == other@.id
    }
}

/// A description for `connection` to apply.
#[derive(Debug)]
pub struct DescriptionRequest {
    pub connection: Arc<RTCPeerConnection>,
    pub description: SessionDescription,
}

/// A candidate for `connection` to try.
#[derive(Debug)]
pub struct CandidateRequest {
    pub connection: Arc<RTCPeerConnection>,
    pub candidate: IceCandidate,
}

/// A data channel for `connection` to create.
#[derive(Debug)]
pub struct ChannelRequest {
    pub connection: Arc<RTCPeerConnection>,
    pub label: String,
}

/// Bytes for `channel` to send.
pub struct SendRequest {
    pub channel: Arc<RTCDataChannel>,
    pub data: Vec<u8>,
}

/// A data channel whose messages `handler` is to be told of.
pub struct MessageRegistration {
    pub channel: Arc<RTCDataChannel>,
    pub handler: OnDataChannelHdlr,
}

/// What the wait for an open data channel comes to.
pub enum ChannelWait {
    /// The channel is open.
    Open,
    /// Register with `channel` for its opening, and wait for it.
    UntilOpen { channel: Arc<RTCDataChannel> },
}

/// The promise of a connection: register it with `connection` for changes of the state, then tell
/// it that this is done.
pub struct ConnectPromise<W> {
    pub connection: Arc<RTCPeerConnection>,
    pub promise: PromiseState<W>,
}

/// The handlers for `connection`, in the order in which they are registered.
pub struct Callbacks {
    pub connection: Arc<RTCPeerConnection>,
    pub on_ice_candidate: OnLocalCandidateHdlr,
    pub on_data_channel: OnDataChannelHdlr,
    pub on_ice_connection_state_change: OnIceConnectionStateChangeHdlr,
}

/// Keeps the local candidates of a transport.
#[derive(Clone, Copy, Debug, PartialEq, Eq, Structural)]
pub struct OnLocalCandidateHdlr {
    /// Whether the transport had a peer connection when the handler was made.
    pub established: bool,
}

/// Reports what arrives on the peer's data channels.
#[derive(Clone, Copy, Debug, PartialEq, Eq, Structural)]
pub struct OnDataChannelHdlr {

}

/// Reports that the peer was reached or lost.
#[derive(Clone, Copy, Debug, PartialEq, Eq, Structural)]
pub struct OnIceConnectionStateChangeHdlr {
    /// The transport that is reported on.
    pub id: TransportId,
}

impl OnLocalCandidateHdlr {
    /// The candidates that a transport holds after one more was announced.
    pub open spec fn kept(self, held: Seq<LocalCandidate>, candidate: Option<LocalCandidate>) -> Seq<
        LocalCandidate,
    > {
        match candidate {
            Some(c) if self.established => held.push(c),
            _ => held,
        }
    }

    /// The candidates that a transport holds after several announcements, one by one.
    pub open spec fn heard(
        self,
        held: Seq<LocalCandidate>,
        announced: Seq<Option<LocalCandidate>>,
    ) -> Seq<LocalCandidate>
        decreases announced.len(),
    {
        if announced.len() == 0 {
            held
        } else {
            self.kept(self.heard(held, announced.drop_last()), announced.last())
        }
    }

    /// Keeps a candidate. The end of the candidates is announced by `None`.
    pub fn call(&self, transport: &mut DefaultTransport, candidate: Option<LocalCandidate>)
        ensures
            final(transport)@ == (TransportView {
                pending_candidates: self.kept(old(transport)@.pending_candidates, candidate),
                ..old(transport)@
            }),
    {
        if let Some(c) = candidate {
            if self.established {
                transport.pending_candidates.push(c);
            }
        }
    }
}

impl OnDataChannelHdlr {
    /// Asks for the messages of a data channel that the peer opened.
    pub fn call(&self, channel: Arc<RTCDataChannel>) -> (request: MessageRegistration)
        ensures
            request == (MessageRegistration { channel, handler: *self }),
    {
        MessageRegistration { channel, handler: *self }
    }

    /// The report of a message that arrived.
    pub fn on_message(&self, data: Vec<u8>) -> (event: Event)
        ensures
            event == Event::DataChannelMessage(data),
    {
        Event::DataChannelMessage(data)
    }
}

impl OnIceConnectionStateChangeHdlr {
    /// The report that a state calls for.
    pub open spec fn report(self, key: PublicKey, state: IceConnectionState) -> Option<Event> {
        if state.spec_is_connected() {
            Some(Event::RegisterTransport((key.did(), self.id)))
        } else if state.spec_is_disconnected() {
            Some(Event::ConnectClosed((key.did(), self.id)))
        } else {
            None
        }
    }

    /// Whether a state calls for a report.
    pub open spec fn reports(state: IceConnectionState) -> bool {
        state.spec_is_connected() || state.spec_is_disconnected()
    }

    /// The report that a change to `state` calls for. It names the peer by its public key, which
    /// the transport must know by then.
    pub fn call(&self, transport: &DefaultTransport, state: IceConnectionState) -> (event: Option<
        Event,
    >)
        requires
            Self::reports(state) ==> transport@.public_key is Some,
        ensures
            Self::reports(state) ==> event == self.report(transport@.public_key->0, state),
            !Self::reports(state) ==> event is None,
    {
        match state {
            IceConnectionState::Connected => {
                let did = transport.pubkey().address().into();
                Some(Event::RegisterTransport((did, self.id)))
            },
            IceConnectionState::Failed
            | IceConnectionState::Disconnected
            | IceConnectionState::Closed => {
                let did = transport.pubkey().address().into();
                Some(Event::ConnectClosed((did, self.id)))
            },
            _ => None,
        }
    }
}

impl SendRequest {
    /// The outcome of a message of `size` bytes of which the channel says that it sent `sent`: the
    /// count is rejected if it is the bitwise complement of the size.
    pub open spec fn sent_outcome(sent: usize, size: nat) -> Result<(), TransportError> {
        if sent + size == usize::MAX {
            Err(TransportError::RTCDataChannelMessageIncomplete(sent, size as usize))
        } else {
            Ok(())
        }
    }

    /// Why a message could not be sent on a channel in the given state.
    pub open spec fn failure(state: DataChannelState, error: webrtc::error::Error) -> TransportError {
        if state is Open {
            TransportError::RTCDataChannelSendTextFailed(error)
        } else {
            TransportError::RTCDataChannelStateNotOpen
        }
    }

    /// Why a message could not be sent on a channel in the given state.
    pub fn send_failure(state: DataChannelState, error: webrtc::error::Error) -> (failure:
        TransportError)
        ensures
            failure == Self::failure(state, error),
    {
        if state != DataChannelState::Open {
            TransportError::RTCDataChannelStateNotOpen
        } else {
            TransportError::RTCDataChannelSendTextFailed(error)
        }
    }

    /// What the channel's answer comes to. After a failure the channel is asked for its state.
    pub fn message_sent(&self, answer: Result<usize, webrtc::error::Error>) -> (outcome: Result<
        (),
        TransportError,
    >)
        ensures
            match answer {
                Ok(sent) => outcome == Self::sent_outcome(sent, self.data@.len()),
                Err(error) => exists|state: DataChannelState|
                    {
                        &&& #[trigger] rtc::answers_ready_state(&*self.channel, state)
                        &&& outcome == Err::<(), TransportError>(Self::failure(state, error))
                    },
            },
    {
        let size: usize = self.data.len();
        match answer {
            Ok(sent) => {
                if usize::MAX - sent == size {
                    Err(TransportError::RTCDataChannelMessageIncomplete(sent, size))
                } else {
                    Ok(())
                }
            },
            Err(error) => {
                let state = rtc::ready_state(&self.channel);
                assert(rtc::answers_ready_state(&*self.channel, state));
                Err(Self::send_failure(state, error))
            },
        }
    }
}

impl IceTransport for DefaultTransport {
    type Connection = RTCPeerConnection;

    type Candidate = LocalCandidate;

    type Sdp = SessionDescription;

    type DataChannel = RTCDataChannel;

    type IceConnectionState = IceConnectionState;

    type Startup = Startup;

    type Negotiation = Negotiation;

    type DescriptionRequest = DescriptionRequest;

    type CandidateRequest = CandidateRequest;

    type Error = TransportError;

    open spec fn spec_connection(&self) -> Option<Arc<RTCPeerConnection>> {
        self@.connection
    }

    open spec fn spec_pending_candidates(&self) -> Seq<LocalCandidate> {
        self@.pending_candidates
    }

    open spec fn spec_data_channel(&self) -> Option<Arc<RTCDataChannel>> {
        self@.data_channel
    }

    open spec fn spec_negotiation(&self, kind: LocalKind) -> Negotiation {
        Negotiation::begun(self@.connection, kind)
    }

    fn new() -> (transport: DefaultTransport)
        ensures
            rtc::is_drawn(transport@.id.value),
            rtc::is_random_uuid(transport@.id.value),
            transport@ == (TransportView {
                id: transport@.id,
                connection: None,
                pending_candidates: Seq::empty(),
                data_channel: None,
                public_key: None,
            }),
    {
        DefaultTransport {
            id: TransportId { value: rtc::new_v4() },
            connection: None,
            pending_candidates: Vec::new(),
            data_channel: None,
            public_key: None,
        }
    }

    fn start(&self, ice_server: Vec<IceServer>, external_ip: Option<String>) -> (startup: Startup)
        ensures
            Startup::begins(startup, ice_server, external_ip),
    {
        Startup::begin(ice_server, external_ip)
    }

    fn close(&self) -> (connection: Option<Arc<RTCPeerConnection>>) {
        self.get_peer_connection()
    }

    fn ice_connection_state(&self) -> (state: Option<IceConnectionState>)
        ensures
            state is Some ==> rtc::answers_ice_connection_state(
                &*self@.connection->0,
                state->0,
            ),
    {
        match &self.connection {
            Some(connection) => Some(rtc::ice_connection_state(connection)),
            None => None,
        }
    }

    fn get_peer_connection(&self) -> (connection: Option<Arc<RTCPeerConnection>>) {
        match &self.connection {
            Some(connection) => Some(Arc::clone(connection)),
            None => None,
        }
    }

    fn get_pending_candidates(&self) -> (candidates: Vec<LocalCandidate>) {
        let candidates = self.pending_candidates.clone();
        assert(candidates@ =~= self.pending_candidates@);
        candidates
    }

    fn get_answer(&self) -> (negotiation: Negotiation) {
        Negotiation::begin(self, LocalKind::Answer)
    }

    fn get_offer(&self) -> (negotiation: Negotiation) {
        Negotiation::begin(self, LocalKind::Offer)
    }

    fn get_data_channel(&self) -> (channel: Option<Arc<RTCDataChannel>>) {
        match &self.data_channel {
            Some(channel) => Some(Arc::clone(channel)),
            None => None,
        }
    }

    fn set_local_description(&self, desc: SessionDescription) -> (request: Result<
        DescriptionRequest,
        TransportError,
    >)
        ensures
            request == DescriptionRequest::on(self@.connection, desc),
    {
        match self.get_peer_connection() {
            Some(connection) => Ok(DescriptionRequest { connection, description: desc }),
            None => Err(TransportError::RTCPeerConnectionNotEstablish),
        }
    }

    fn add_ice_candidate(&self, candidate: IceCandidate) -> (request: Result<
        CandidateRequest,
        TransportError,
    >)
        ensures
            request == CandidateRequest::on(self@.connection, candidate),
    {
        match self.get_peer_connection() {
            Some(connection) => Ok(CandidateRequest { connection, candidate }),
            None => Err(TransportError::RTCPeerConnectionNotEstablish),
        }
    }

    fn set_remote_description(&self, desc: SessionDescription) -> (request: Result<
        DescriptionRequest,
        TransportError,
    >)
        ensures
            request == DescriptionRequest::on(self@.connection, desc),
    {
        match self.get_peer_connection() {
            Some(connection) => Ok(DescriptionRequest { connection, description: desc }),
            None => Err(TransportError::RTCPeerConnectionNotEstablish),
        }
    }
}

impl IceTransportCallback for DefaultTransport {
    type OnLocalCandidateHdlrFn = OnLocalCandidateHdlr;

    type OnDataChannelHdlrFn = OnDataChannelHdlr;

    type OnIceConnectionStateChangeHdlrFn = OnIceConnectionStateChangeHdlr;

    fn on_ice_candidate(&self) -> (handler: OnLocalCandidateHdlr)
        ensures
            handler.established <==> self@.connection is Some,
    {
        OnLocalCandidateHdlr { established: self.connection.is_some() }
    }

    fn on_data_channel(&self) -> (handler: OnDataChannelHdlr)
        ensures
            handler == (OnDataChannelHdlr {  }),
    {
        OnDataChannelHdlr {  }
    }

    fn on_ice_connection_state_change(&self) -> (handler: OnIceConnectionStateChangeHdlr)
        ensures
            handler.id == self@.id,
    {
        OnIceConnectionStateChangeHdlr { id: self.id }
    }
}

impl DescriptionRequest {
    /// The request to apply a description on a connection, or the error for want of one.
    pub open spec fn on(
        connection: Option<Arc<RTCPeerConnection>>,
        description: SessionDescription,
    ) -> Result<DescriptionRequest, TransportError> {
        match connection {
            Some(connection) => Ok(DescriptionRequest { connection, description }),
            None => Err(TransportError::RTCPeerConnectionNotEstablish),
        }
    }

    /// What the connection's answer comes to where the description is its own.
    pub fn local_description_set(answer: Result<(), webrtc::error::Error>) -> (outcome: Result<
        (),
        TransportError,
    >)
        ensures
            outcome == (match answer {
                Ok(_) => Ok(()),
                Err(e) => Err(TransportError::RTCPeerConnectionSetLocalDescFailed(e)),
            }),
    {
        match answer {
            Ok(_) => Ok(()),
            Err(e) => Err(TransportError::RTCPeerConnectionSetLocalDescFailed(e)),
        }
    }

    /// What the connection's answer comes to where the description is the peer's.
    pub fn remote_description_set(answer: Result<(), webrtc::error::Error>) -> (outcome: Result<
        (),
        TransportError,
    >)
        ensures
            outcome == (match answer {
                Ok(_) => Ok(()),
                Err(e) => Err(TransportError::RTCPeerConnectionSetRemoteDescFailed(e)),
            }),
    {
        match answer {
            Ok(_) => Ok(()),
            Err(e) => Err(TransportError::RTCPeerConnectionSetRemoteDescFailed(e)),
        }
    }
}

impl CandidateRequest {
    /// The request to try a candidate on a connection, or the error for want of one.
    pub open spec fn on(
        connection: Option<Arc<RTCPeerConnection>>,
        candidate: IceCandidate,
    ) -> Result<CandidateRequest, TransportError> {
        match connection {
            Some(connection) => Ok(CandidateRequest { connection, candidate }),
            None => Err(TransportError::RTCPeerConnectionNotEstablish),
        }
    }

    /// What the connection's answer comes to.
    pub fn ice_candidate_added(answer: Result<(), webrtc::error::Error>) -> (outcome: Result<
        (),
        TransportError,
    >)
        ensures
            outcome == (match answer {
                Ok(_) => Ok(()),
                Err(e) => Err(TransportError::RTCPeerConnectionAddIceCandidateError(e)),
            }),
    {
        match answer {
            Ok(_) => Ok(()),
            Err(e) => Err(TransportError::RTCPeerConnectionAddIceCandidateError(e)),
        }
    }
}

impl<W> ConnectPromise<W> {
    /// The promise of a connection on a peer connection, or the error for want of one.
    pub open spec fn on(connection: Option<Arc<RTCPeerConnection>>) -> Result<
        ConnectPromise<W>,
        TransportError,
    > {
        match connection {
            Some(connection) => Ok(
                ConnectPromise { connection, promise: PromiseState::pending() },
            ),
            None => Err(TransportError::RTCPeerConnectionNotEstablish),
        }
    }
}

impl ChannelWait {
    /// What the wait for `channel` comes to when it is in the given state.
    pub open spec fn on(channel: Arc<RTCDataChannel>, state: DataChannelState) -> ChannelWait {
        if state is Open {
            ChannelWait::Open
        } else {
            ChannelWait::UntilOpen { channel }
        }
    }

    /// What the wait for `channel` comes to when it is in the given state.
    pub fn for_channel(channel: Arc<RTCDataChannel>, state: DataChannelState) -> (wait: ChannelWait)
        ensures
            wait == Self::on(channel, state),
    {
        if state == DataChannelState::Open {
            ChannelWait::Open
        } else {
            ChannelWait::UntilOpen { channel }
        }
    }
}

impl DefaultTransport {
    /// What the peer connection's answer to a request to close comes to.
    pub fn connection_closed(answer: Result<(), webrtc::error::Error>) -> (outcome: Result<
        (),
        TransportError,
    >)
        ensures
            outcome == (match answer {
                Ok(_) => Ok(()),
                Err(e) => Err(TransportError::RTCPeerConnectionCloseFailed(e)),
            }),
    {
        match answer {
            Ok(_) => Ok(()),
            Err(e) => Err(TransportError::RTCPeerConnectionCloseFailed(e)),
        }
    }

    /// The handlers to register with the peer connection.
    pub fn apply_callback(&self) -> (callbacks: Result<Callbacks, TransportError>)
        ensures
            callbacks == (match self@.connection {
                Some(connection) => Ok(
                    Callbacks {
                        connection,
                        on_ice_candidate: OnLocalCandidateHdlr { established: true },
                        on_data_channel: OnDataChannelHdlr {  },
                        on_ice_connection_state_change: OnIceConnectionStateChangeHdlr {
                            id: self@.id,
                        },
                    },
                ),
                None => Err(TransportError::RTCPeerConnectionNotEstablish),
            }),
    {
        let on_ice_candidate = self.on_ice_candidate();
        let on_data_channel = self.on_data_channel();
        let on_ice_connection_state_change = self.on_ice_connection_state_change();
        match self.get_peer_connection() {
            Some(connection) => Ok(
                Callbacks {
                    connection,
                    on_ice_candidate,
                    on_data_channel,
                    on_ice_connection_state_change,
                },
            ),
            None => Err(TransportError::RTCPeerConnectionNotEstablish),
        }
    }

    /// Whether the peer was lost, by the state that the peer connection says it is in. A transport
    /// without a peer connection has not lost it.
    pub fn is_disconnected(&self) -> (disconnected: bool)
        ensures
            self@.connection is None ==> !disconnected,
            self@.connection is Some ==> exists|state: IceConnectionState|
                {
                    &&& #[trigger] rtc::answers_ice_connection_state(&*self@.connection->0, state)
                    &&& disconnected <==> state.spec_is_disconnected()
                },
    {
        match self.ice_connection_state() {
            Some(state) => state.is_disconnected(),
            None => false,
        }
    }

    /// Whether the peer is connected, by the state that the peer connection says it is in. A
    /// transport without a peer connection has no peer.
    pub fn is_connected(&self) -> (connected: bool)
        ensures
            self@.connection is None ==> !connected,
            self@.connection is Some ==> exists|state: IceConnectionState|
                {
                    &&& #[trigger] rtc::answers_ice_connection_state(&*self@.connection->0, state)
                    &&& connected <==> state.spec_is_connected()
                },
    {
        match self.ice_connection_state() {
            Some(state) => state.is_connected(),
            None => false,
        }
    }

    /// The public key of the peer's account.
    pub fn pubkey(&self) -> (key: PublicKey)
        requires
            self@.public_key is Some,
        ensures
            key == self@.public_key->0,
    {
        self.public_key.unwrap()
    }

    /// Whether the public key of the peer's account is known.
    pub fn knows_pubkey(&self) -> (known: bool)
        ensures
            known <==> self@.public_key is Some,
    {
        self.public_key.is_some()
    }

    /// Takes note of the public key of the peer's account.
    pub(crate) fn set_pubkey(&mut self, key: PublicKey)
        ensures
            final(self)@ == (TransportView { public_key: Some(key), ..old(self)@ }),
    {
        self.public_key = Some(key);
    }

    /// Has the data channel send `msg`.
    pub fn send_message(&self, msg: &[u8]) -> (request: Result<SendRequest, TransportError>)
        ensures
            match self@.data_channel {
                Some(channel) => {
                    &&& request is Ok
                    &&& request->Ok_0.channel == channel
                    &&& request->Ok_0.data@ == msg@
                },
                None => request == Err::<SendRequest, _>(TransportError::RTCDataChannelNotReady),
            },
    {
        match self.get_data_channel() {
            Some(channel) => Ok(SendRequest { channel, data: vstd::slice::slice_to_vec(msg) }),
            None => Err(TransportError::RTCDataChannelNotReady),
        }
    }

    /// How far the peer connection has come with gathering candidates, if there is one.
    pub fn ice_gathering_state(&self) -> (state: Option<IceGatheringState>)
        ensures
            state is Some <==> self@.connection is Some,
            state is Some ==> rtc::answers_ice_gathering_state(&*self@.connection->0, state->0),
    {
        match &self.connection {
            Some(connection) => Some(rtc::ice_gathering_state(connection)),
            None => None,
        }
    }

    /// Has the peer connection create a data channel.
    pub fn setup_channel(&self, name: &str) -> (request: Result<ChannelRequest, TransportError>)
        ensures
            match self@.connection {
                Some(connection) => {
                    &&& request is Ok
                    &&& request->Ok_0.connection == connection
                    &&& request->Ok_0.label@ == name@
                },
                None => request == Err::<ChannelRequest, _>(
                    TransportError::RTCPeerConnectionNotEstablish,
                ),
            },
    {
        match self.get_peer_connection() {
            Some(connection) => Ok(ChannelRequest { connection, label: name.to_owned() }),
            None => Err(TransportError::RTCPeerConnectionNotEstablish),
        }
    }

    /// Keeps the data channel that the peer connection created. Why it created none is not told.
    pub fn channel_created(
        &mut self,
        answer: Result<Arc<RTCDataChannel>, webrtc::error::Error>,
    ) -> (outcome: Result<(), TransportError>)
        ensures
            match answer {
                Ok(channel) => {
                    &&& outcome == Ok::<(), TransportError>(())
                    &&& final(self)@ == (TransportView {
                        data_channel: Some(channel),
                        ..old(self)@
                    })
                },
                Err(_) => {
                    &&& outcome == Err::<(), _>(TransportError::RTCDataChannelNotReady)
                    &&& final(self)@ == old(self)@
                },
            },
    {
        match answer {
            Ok(channel) => {
                self.data_channel = Some(channel);
                Ok(())
            },
            Err(_) => Err(TransportError::RTCDataChannelNotReady),
        }
    }

    /// Keeps the peer connection that was created.
    pub fn connection_created(
        &mut self,
        answer: Result<RTCPeerConnection, webrtc::error::Error>,
    ) -> (outcome: Result<(), TransportError>)
        ensures
            match answer {
                Ok(connection) => {
                    &&& outcome == Ok::<(), TransportError>(())
                    &&& final(self)@ == (TransportView {
                        connection: Some(Arc::new(connection)),
                        ..old(self)@
                    })
                },
                Err(e) => {
                    &&& outcome == Err::<(), _>(TransportError::RTCPeerConnectionCreateFailed(e))
                    &&& final(self)@ == old(self)@
                },
            },
    {
        match answer {
            Ok(connection) => {
                self.connection = Some(Arc::new(connection));
                Ok(())
            },
            Err(e) => Err(TransportError::RTCPeerConnectionCreateFailed(e)),
        }
    }

    /// What the wait for an open data channel comes to. The channel is asked for its state.
    pub fn wait_for_data_channel_open(&self) -> (wait: Result<ChannelWait, TransportError>)
        ensures
            match self@.data_channel {
                Some(channel) => exists|state: DataChannelState|
                    {
                        &&& #[trigger] rtc::answers_ready_state(&*channel, state)
                        &&& wait == Ok::<_, TransportError>(ChannelWait::on(channel, state))
                    },
                None => wait == Err::<ChannelWait, _>(TransportError::RTCDataChannelNotReady),
            },
    {
        match self.get_data_channel() {
            Some(channel) => {
                let state = rtc::ready_state(&channel);
                assert(rtc::answers_ready_state(&*channel, state));
                Ok(ChannelWait::for_channel(channel, state))
            },
            None => Err(TransportError::RTCDataChannelNotReady),
        }
    }

    /// The promise of a connection, and the peer connection that keeps or breaks it.
    pub fn connect_success_promise<W>(&self) -> (awaited: Result<ConnectPromise<W>, TransportError>)
        ensures
            awaited == ConnectPromise::<W>::on(self@.connection),
    {
        match self.get_peer_connection() {
            Some(connection) => Ok(
                ConnectPromise { connection, promise: PromiseState::default() },
            ),
            None => Err(TransportError::RTCPeerConnectionNotEstablish),
        }
    }

    /// The promise to wait for until the peer is connected.
    pub fn wait_for_connected<W>(&self) -> (awaited: Result<ConnectPromise<W>, TransportError>)
        ensures
            awaited == ConnectPromise::<W>::on(self@.connection),
    {
        self.connect_success_promise()
    }
}

/// No state counts both as connected and as lost.
pub proof fn law_connected_is_not_lost(state: IceConnectionState)
    ensures
        !(state.spec_is_connected() && state.spec_is_disconnected()),
{
}

/// The peer is reported as reached exactly in the states that count as connected and as lost
/// exactly in those that count as lost, and each report names the peer's account and the transport.
pub proof fn law_reports_follow_the_state(
    handler: OnIceConnectionStateChangeHdlr,
    key: PublicKey,
    state: IceConnectionState,
)
    ensures
        state.spec_is_connected() <==> handler.report(key, state) == Some(
            Event::RegisterTransport((key.did(), handler.id)),
        ),
        state.spec_is_disconnected() <==> handler.report(key, state) == Some(
            Event::ConnectClosed((key.did(), handler.id)),
        ),
        OnIceConnectionStateChangeHdlr::reports(state) <==> handler.report(key, state) is Some,
{
}

/// A message that is sent whole is never rejected.
pub proof fn law_whole_message_is_accepted(size: usize)
    ensures
        SendRequest::sent_outcome(size, size as nat) == Ok::<(), TransportError>(()),
{
    assert(usize::MAX == 0xffff_ffff || usize::MAX == 0xffff_ffff_ffff_ffff);
}

/// Candidates are only ever added, at the end.
pub proof fn law_candidates_are_kept(
    handler: OnLocalCandidateHdlr,
    held: Seq<LocalCandidate>,
    candidate: Option<LocalCandidate>,
)
    ensures
        held.is_prefix_of(handler.kept(held, candidate)),
{
}

/// Transports are told apart by their identifiers and by nothing else.
pub proof fn law_transports_are_equal_by_identifier(one: DefaultTransport, other: DefaultTransport)
    ensures
        <DefaultTransport as PartialEqSpec>::obeys_eq_spec(),
        PartialEqSpec::eq_spec(&one, &other) <==> one@.id == other@.id,
{
}

/// The model of a transport leaves nothing out and makes nothing up.
proof fn law_model_is_faithful(transport: DefaultTransport)
    ensures
        transport@.id == transport.id,
        transport@.connection == transport.connection,
        transport@.pending_candidates == transport.pending_candidates@,
        transport@.data_channel == transport.data_channel,
        transport@.public_key == transport.public_key,
{
}

/// What a node is shown of a transport is what the transport holds.
pub proof fn law_transport_shows_what_it_holds(transport: DefaultTransport, kind: LocalKind)
    ensures
        transport.spec_connection() == transport@.connection,
        transport.spec_pending_candidates() == transport@.pending_candidates,
        transport.spec_data_channel() == transport@.data_channel,
        transport@.connection is None <==> transport.spec_negotiation(kind) is Finished,
        transport@.connection matches Some(connection) ==> transport.spec_negotiation(kind) == (
        Negotiation::Creating { kind, connection }),
{
}

/// A handler that was made with a peer connection adds each announced candidate, however many are
/// held already, and only those. One that was made without adds none.
pub proof fn law_announced_candidate_is_added(
    handler: OnLocalCandidateHdlr,
    held: Seq<LocalCandidate>,
    candidate: LocalCandidate,
)
    ensures
        handler.established ==> {
            let kept = handler.kept(held, Some(candidate));
            &&& kept.len() == held.len() + 1
            &&& kept.last() == candidate
            &&& forall|i: int| 0 <= i < held.len() ==> #[trigger] kept[i] == held[i]
        },
        !handler.established ==> handler.kept(held, Some(candidate)) == held,
        handler.kept(held, None) == held,
{
}

/// After any number of announcements a transport holds what it held before and then every announced
/// candidate, in the order of the announcements. The end of the candidates adds nothing.
pub proof fn law_every_announced_candidate_is_held(
    handler: OnLocalCandidateHdlr,
    held: Seq<LocalCandidate>,
    announced: Seq<LocalCandidate>,
)
    requires
        handler.established,
    ensures
        handler.heard(held, announced.map_values(|c: LocalCandidate| Some(c))) == held + announced,
        handler.heard(
            held,
            announced.map_values(|c: LocalCandidate| Some(c)).push(None),
        ) == held + announced,
    decreases announced.len(),
{
    let options = announced.map_values(|c: LocalCandidate| Some(c));
    assert(options.push(None).drop_last() =~= options);
    if announced.len() > 0 {
        law_every_announced_candidate_is_held(handler, held, announced.drop_last());
        assert(options.drop_last() =~= announced.drop_last().map_values(
            |c: LocalCandidate| Some(c),
        ));
        assert((held + announced.drop_last()).push(announced.last()) =~= held + announced);
    } else {
        assert(held + announced =~= held);
    }
}

/// A peer is reported as reached when it is connected and as lost when it failed, disconnected or
/// closed. The report names the ring position with the bytes of the account's address, and the
/// transport; no other state is reported.
pub proof fn law_report_names_the_account(
    handler: OnIceConnectionStateChangeHdlr,
    key: PublicKey,
    state: IceConnectionState,
)
    ensures
        OnIceConnectionStateChangeHdlr::reports(state) <==> (state
            == IceConnectionState::Connected || state == IceConnectionState::Failed || state
            == IceConnectionState::Disconnected || state == IceConnectionState::Closed),
        state == IceConnectionState::Connected <==> handler.report(key, state) matches Some(
            Event::RegisterTransport(_),
        ),
        (state == IceConnectionState::Failed || state == IceConnectionState::Disconnected || state
            == IceConnectionState::Closed) <==> handler.report(key, state) matches Some(
            Event::ConnectClosed(_),
        ),
        handler.report(key, state) matches Some(Event::RegisterTransport((did, id))) ==> {
            &&& forall|i: int| 0 <= i < 20 ==> #[trigger] did.bytes@[i] == key.account.bytes@[i]
            &&& id == handler.id
        },
        handler.report(key, state) matches Some(Event::ConnectClosed((did, id))) ==> {
            &&& forall|i: int| 0 <= i < 20 ==> #[trigger] did.bytes@[i] == key.account.bytes@[i]
            &&& id == handler.id
        },
        !(handler.report(key, state) matches Some(Event::DataChannelMessage(_))),
{
}

/// Peers with different accounts are reported as different peers.
pub proof fn law_different_peers_are_reported_apart(
    handler: OnIceConnectionStateChangeHdlr,
    key: PublicKey,
    other: PublicKey,
    state: IceConnectionState,
)
    requires
        OnIceConnectionStateChangeHdlr::reports(state),
        handler.report(key, state) == handler.report(other, state),
    ensures
        key.account == other.account,
{
    let did = match handler.report(key, state) {
        Some(Event::RegisterTransport((did, _))) => did,
        Some(Event::ConnectClosed((did, _))) => did,
        _ => arbitrary(),
    };
    law_report_names_the_account(handler, key, state);
    law_report_names_the_account(handler, other, state);
    assert forall|i: int| 0 <= i < 20 implies key.account.bytes@[i] == other.account.bytes@[i] by {
        assert(did.bytes@[i] == key.account.bytes@[i]);
    }
    assert(key.account.bytes =~= other.account.bytes);
}

/// What the state handler answers follows the key that the transport knows.
pub proof fn law_state_handler_reports(
    handler: &OnIceConnectionStateChangeHdlr,
    transport: &DefaultTransport,
    state: IceConnectionState,
    event: Option<Event>,
)
    requires
        call_ensures(OnIceConnectionStateChangeHdlr::call, (handler, transport, state), event),
    ensures
        state == IceConnectionState::Connected ==> {
            &&& event matches Some(Event::RegisterTransport((did, id)))
            &&& did.bytes@ =~= transport@.public_key->0.account.bytes@
            &&& id == handler.id
        },
        (state == IceConnectionState::Failed || state == IceConnectionState::Disconnected || state
            == IceConnectionState::Closed) ==> {
            &&& event matches Some(Event::ConnectClosed((did, id)))
            &&& did.bytes@ =~= transport@.public_key->0.account.bytes@
            &&& id == handler.id
        },
        (state == IceConnectionState::Unspecified || state == IceConnectionState::New || state
            == IceConnectionState::Checking || state == IceConnectionState::Completed)
            ==> event is None,
{
}

/// A message that arrives is reported byte by byte.
pub proof fn law_arrived_message_is_reported_whole(
    handler: &OnDataChannelHdlr,
    data: Vec<u8>,
    event: Event,
)
    requires
        call_ensures(OnDataChannelHdlr::on_message, (handler, data), event),
    ensures
        event matches Event::DataChannelMessage(reported) && reported@ =~= data@,
{
}

/// A peer's channel is the one that is listened to.
pub proof fn law_peers_channel_is_listened_to(
    handler: &OnDataChannelHdlr,
    channel: Arc<RTCDataChannel>,
    request: MessageRegistration,
)
    requires
        call_ensures(OnDataChannelHdlr::call, (handler, channel), request),
    ensures
        request.channel == channel,
        request.handler == *handler,
{
}

/// A sent count is rejected exactly if it is the bitwise complement of the message's size, and the
/// error then tells both numbers.
pub proof fn law_rejected_count_is_the_complement(sent: usize, size: usize)
    ensures
        SendRequest::sent_outcome(sent, size as nat) is Ok <==> sent != !size,
        SendRequest::sent_outcome(sent, size as nat) matches Err(e) ==> e
            == TransportError::RTCDataChannelMessageIncomplete(sent, size),
{
    let largest: usize = usize::MAX;
    assert(!size + size == !0usize) by (bit_vector);
    assert(!0usize >= largest) by (bit_vector);
}

/// A failure to send tells its cause exactly on an open channel.
pub proof fn law_cause_is_told_of_open_channels(
    state: DataChannelState,
    error: webrtc::error::Error,
)
    ensures
        state == DataChannelState::Open ==> SendRequest::failure(state, error)
            == TransportError::RTCDataChannelSendTextFailed(error),
        state != DataChannelState::Open ==> SendRequest::failure(state, error)
            == TransportError::RTCDataChannelStateNotOpen,
{
}

/// A message goes whole to the data channel, and to none other.
pub proof fn law_message_goes_whole_to_the_channel(
    transport: &DefaultTransport,
    msg: &[u8],
    request: Result<SendRequest, TransportError>,
)
    requires
        call_ensures(DefaultTransport::send_message, (transport, msg), request),
    ensures
        request matches Ok(sent) ==> transport@.data_channel == Some(sent.channel) && sent.data@
            =~= msg@,
        request matches Err(e) ==> transport@.data_channel is None && e
            == TransportError::RTCDataChannelNotReady,
{
}

/// A data channel is asked of the peer connection by the name that was given.
pub proof fn law_channel_is_asked_by_name(
    transport: &DefaultTransport,
    name: &str,
    request: Result<ChannelRequest, TransportError>,
)
    requires
        call_ensures(DefaultTransport::setup_channel, (transport, name), request),
    ensures
        request matches Ok(asked) ==> transport@.connection == Some(asked.connection)
            && asked.label@ =~= name@,
        request matches Err(e) ==> transport@.connection is None && e
            == TransportError::RTCPeerConnectionNotEstablish,
{
}

/// All three handlers are registered with the peer connection: one that keeps candidates, one that
/// listens to channels, and one that reports on this transport.
pub proof fn law_callbacks_are_all_registered(
    transport: &DefaultTransport,
    callbacks: Result<Callbacks, TransportError>,
)
    requires
        call_ensures(DefaultTransport::apply_callback, (transport,), callbacks),
    ensures
        callbacks matches Ok(c) ==> {
            &&& transport@.connection == Some(c.connection)
            &&& c.on_ice_candidate.established
            &&& c.on_ice_connection_state_change.id == transport@.id
        },
        callbacks matches Err(e) ==> transport@.connection is None && e
            == TransportError::RTCPeerConnectionNotEstablish,
{
}

/// What is handed to a peer connection is what was to be handed to it, and the error comes only
/// for want of one.
pub proof fn law_requests_hand_over_what_was_asked(
    connection: Option<Arc<RTCPeerConnection>>,
    description: SessionDescription,
    candidate: IceCandidate,
)
    ensures
        DescriptionRequest::on(connection, description) is Ok <==> connection is Some,
        CandidateRequest::on(connection, candidate) is Ok <==> connection is Some,
        DescriptionRequest::on(connection, description) matches Ok(request) ==> Some(
            request.connection,
        ) == connection && request.description.sdp_type == description.sdp_type
            && request.description.sdp == description.sdp,
        CandidateRequest::on(connection, candidate) matches Ok(request) ==> Some(
            request.connection,
        ) == connection && request.candidate.candidate == candidate.candidate
            && request.candidate.sdp_mid == candidate.sdp_mid && request.candidate.sdp_m_line_index
            == candidate.sdp_m_line_index && request.candidate.username_fragment
            == candidate.username_fragment,
        DescriptionRequest::on(connection, description) matches Err(e) ==> e
            == TransportError::RTCPeerConnectionNotEstablish,
        CandidateRequest::on(connection, candidate) matches Err(e) ==> e
            == TransportError::RTCPeerConnectionNotEstablish,
{
}

/// What the peer connection answers is passed on: success as success, a failure as the operation's
/// own error with the cause.
pub proof fn law_answers_are_passed_on(
    answer: Result<(), webrtc::error::Error>,
    local: Result<(), TransportError>,
    remote: Result<(), TransportError>,
    added: Result<(), TransportError>,
    closed: Result<(), TransportError>,
)
    requires
        call_ensures(DescriptionRequest::local_description_set, (answer,), local),
        call_ensures(DescriptionRequest::remote_description_set, (answer,), remote),
        call_ensures(CandidateRequest::ice_candidate_added, (answer,), added),
        call_ensures(DefaultTransport::connection_closed, (answer,), closed),
    ensures
        answer is Ok ==> local is Ok && remote is Ok && added is Ok && closed is Ok,
        answer matches Err(e) ==> {
            &&& local == Err::<(), _>(TransportError::RTCPeerConnectionSetLocalDescFailed(e))
            &&& remote == Err::<(), _>(TransportError::RTCPeerConnectionSetRemoteDescFailed(e))
            &&& added == Err::<(), _>(TransportError::RTCPeerConnectionAddIceCandidateError(e))
            &&& closed == Err::<(), _>(TransportError::RTCPeerConnectionCloseFailed(e))
        },
{
}

/// A channel is waited for unless it is open, and it is that channel which is waited for.
pub proof fn law_wait_ends_when_the_channel_is_open(
    channel: Arc<RTCDataChannel>,
    state: DataChannelState,
)
    ensures
        ChannelWait::on(channel, state) is Open <==> state == DataChannelState::Open,
        ChannelWait::on(channel, state) matches ChannelWait::UntilOpen { channel: waited }
            ==> waited == channel,
{
}

/// The promise of a connection is made with the peer connection, and starts without an outcome and
/// without anybody waiting.
pub proof fn law_connect_promise_starts_open<W>(connection: Option<Arc<RTCPeerConnection>>)
    ensures
        ConnectPromise::<W>::on(connection) is Ok <==> connection is Some,
        ConnectPromise::<W>::on(connection) matches Ok(awaited) ==> {
            &&& Some(awaited.connection) == connection
            &&& !awaited.promise.completed
            &&& awaited.promise.successed is None
            &&& awaited.promise.waker is None
        },
        ConnectPromise::<W>::on(connection) matches Err(e) ==> e
            == TransportError::RTCPeerConnectionNotEstablish,
{
}

/// A transport that hears of a candidate holds it last, after all that it held, and is otherwise as
/// it was; where the handler was made without a peer connection, or no candidate is announced,
/// nothing changes.
pub proof fn law_candidate_handler_adds_to_the_transport(
    handler: &OnLocalCandidateHdlr,
    candidate: Option<LocalCandidate>,
)
    ensures
        forall|transport: &mut DefaultTransport| #[trigger]
            call_ensures(OnLocalCandidateHdlr::call, (handler, transport, candidate), ()) ==> {
                let before = (*transport)@;
                let after = final(transport)@;
                &&& handler.established && candidate is Some ==> after.pending_candidates
                    == before.pending_candidates.push(candidate->0)
                &&& !handler.established || candidate is None ==> after.pending_candidates
                    == before.pending_candidates
                &&& after.id == before.id
                &&& after.connection == before.connection
                &&& after.data_channel == before.data_channel
                &&& after.public_key == before.public_key
            },
{
}

/// A data channel that was created is kept in place of the one before; where none was created, the
/// transport stays as it was.
pub proof fn law_created_channel_is_kept(
    answer: Result<Arc<RTCDataChannel>, webrtc::error::Error>,
    outcome: Result<(), TransportError>,
)
    ensures
        forall|transport: &mut DefaultTransport| #[trigger]
            call_ensures(DefaultTransport::channel_created, (transport, answer), outcome) ==> {
                let before = (*transport)@;
                let after = final(transport)@;
                &&& answer matches Ok(channel) ==> outcome is Ok && after.data_channel == Some(
                    channel,
                )
                &&& answer is Err ==> outcome == Err::<(), _>(
                    TransportError::RTCDataChannelNotReady,
                ) && after.data_channel == before.data_channel
                &&& after.id == before.id
                &&& after.connection == before.connection
                &&& after.pending_candidates == before.pending_candidates
                &&& after.public_key == before.public_key
            },
{
}

/// A peer connection that was created is kept in place of the one before; where none was created,
/// the transport stays as it was and the reason is told.
pub proof fn law_created_connection_is_kept(
    answer: Result<RTCPeerConnection, webrtc::error::Error>,
    outcome: Result<(), TransportError>,
)
    ensures
        forall|transport: &mut DefaultTransport| #[trigger]
            call_ensures(DefaultTransport::connection_created, (transport, answer), outcome) ==> {
                let before = (*transport)@;
                let after = final(transport)@;
                &&& answer matches Ok(connection) ==> outcome is Ok && after.connection == Some(
                    Arc::new(connection),
                )
                &&& answer matches Err(e) ==> outcome == Err::<(), _>(
                    TransportError::RTCPeerConnectionCreateFailed(e),
                ) && after.connection == before.connection
                &&& after.id == before.id
                &&& after.data_channel == before.data_channel
                &&& after.pending_candidates == before.pending_candidates
                &&& after.public_key == before.public_key
            },
{
}

/// What the channel answers to a message is judged by the whole message's size, or by the state
/// that the channel says it is in.
pub proof fn law_sent_message_is_judged(
    request: &SendRequest,
    answer: Result<usize, webrtc::error::Error>,
    outcome: Result<(), TransportError>,
)
    requires
        call_ensures(SendRequest::message_sent, (request, answer), outcome),
    ensures
        answer matches Ok(sent) ==> (outcome is Err <==> sent + request.data@.len() == usize::MAX),
        answer matches Ok(sent) && sent == request.data@.len() ==> outcome is Ok,
        answer matches Err(error) ==> exists|state: DataChannelState|
            {
                &&& #[trigger] rtc::answers_ready_state(&*request.channel, state)
                &&& outcome == Err::<(), _>(
                    if state == DataChannelState::Open {
                        TransportError::RTCDataChannelSendTextFailed(error)
                    } else {
                        TransportError::RTCDataChannelStateNotOpen
                    },
                )
            },
{
    if let Err(error) = answer {
        let state = choose|state: DataChannelState|
            {
                &&& #[trigger] rtc::answers_ready_state(&*request.channel, state)
                &&& outcome == Err::<(), TransportError>(SendRequest::failure(state, error))
            };
        assert(rtc::answers_ready_state(&*request.channel, state));
    }
    assert(usize::MAX == 0xffff_ffff || usize::MAX == 0xffff_ffff_ffff_ffff);
}

} // verus!
