//! Taking in the handshake message of a peer.
use vstd::prelude::*;

use std::sync::Arc;
use webrtc::peer_connection::RTCPeerConnection;

use crate::error::TransportError;
use crate::handshake::{
    is_written, law_handshake_holds_every_candidate, Handshake, HandshakeOutcome,
};
use crate::ice_transport::{IceTransport, IceTrickleScheme};
use crate::rtc;
use crate::transport::{CandidateRequest, DefaultTransport, DescriptionRequest, TransportView};
use crate::types::{
    Did, LocalCandidate, PublicKey, SdpType, SessionDescription, TricklePayload,
};

verus! {

/// A decoded handshake message.
#[derive(Debug)]
pub struct RemoteInfo {
    /// Whether the signature on the message verifies.
    pub verified: bool,
    /// The peer's description and candidates.
    pub payload: TricklePayload,
    /// The sender.
    pub addr: Did,
    /// The public key of the account that authorized the sender's session, if it can be recovered.
    pub authorizer_pubkey: Option<PublicKey>,
}

/// The taking in of a handshake message, as far as it has come.
#[derive(Debug)]
pub enum Registration {
    /// Have the peer connection apply the peer's description.
    SettingRemote { request: DescriptionRequest, info: RemoteInfo },
    /// Have the peer connection try a candidate. The candidates from `next` on are still to come.
    AddingCandidate { attempt: CandidateRequest, info: RemoteInfo, next: usize },
    /// The sender of the message, or why it was not taken in.
    Finished(Result<Did, TransportError>),
}

/// What the peer connection answered.
#[derive(Debug)]
pub enum RegistrationEvent {
    /// The description was applied, or why it was not.
    RemoteDescriptionSet(Result<(), webrtc::error::Error>),
    /// The candidate was accepted, or why it was not.
    CandidateAdded(Result<(), webrtc::error::Error>),
}

impl Registration {
    /// How the taking in of a message begins: its signature must verify, its description must be
    /// readable, and there must be a peer connection to apply it.
    pub open spec fn begins(
        registration: Registration,
        info: RemoteInfo,
        connection: Option<Arc<RTCPeerConnection>>,
    ) -> bool {
        if !info.verified {
            registration == Registration::Finished(Err(TransportError::VerifySignatureFailed))
        } else {
            match (rtc::parsed_description(info.payload.sdp@), connection) {
                (None, _) => registration matches Registration::Finished(
                    Err(TransportError::Deserialize(_)),
                ),
                (Some(_), None) => registration == Registration::Finished(
                    Err(TransportError::RTCPeerConnectionNotEstablish),
                ),
                (Some((sdp_type, sdp)), Some(c)) => {
                    &&& registration matches Registration::SettingRemote { request, info: kept }
                    &&& kept == info
                    &&& request.connection == c
                    &&& request.description.sdp_type == sdp_type
                    &&& request.description.sdp@ == sdp
                },
            }
        }
    }

    /// The taking in of a message whose candidates up to `next` are dealt with: the next candidate
    /// is tried, and after the last one the message is taken in.
    pub open spec fn offering(
        info: RemoteInfo,
        connection: Option<Arc<RTCPeerConnection>>,
        next: int,
    ) -> Registration {
        match connection {
            Some(connection) if 0 <= next < info.payload.candidates@.len() => {
                Registration::AddingCandidate {
                    attempt: CandidateRequest {
                        connection,
                        candidate: info.payload.candidates@[next],
                    },
                    info,
                    next: (next + 1) as usize,
                }
            },
            _ => Registration::Finished(Ok(info.addr)),
        }
    }

    /// How far the taking in of a message has come after `event`. Whether a candidate was accepted
    /// makes no difference. An event that is not waited for changes nothing.
    pub open spec fn advanced(
        self,
        connection: Option<Arc<RTCPeerConnection>>,
        event: RegistrationEvent,
    ) -> Registration {
        match (self, event) {
            (
                Registration::SettingRemote { info, .. },
                RegistrationEvent::RemoteDescriptionSet(answer),
            ) => match answer {
                Ok(_) => Self::offering(info, connection, 0),
                Err(e) => Registration::Finished(
                    Err(TransportError::RTCPeerConnectionSetRemoteDescFailed(e)),
                ),
            },
            (
                Registration::AddingCandidate { info, next, .. },
                RegistrationEvent::CandidateAdded(_),
            ) => Self::offering(info, connection, next as int),
            _ => self,
        }
    }

    /// The public key that a message gives to the transport, while it is being taken in.
    pub open spec fn authorizer(self) -> Option<PublicKey> {
        match self {
            Registration::SettingRemote { info, .. } => info.authorizer_pubkey,
            Registration::AddingCandidate { info, .. } => info.authorizer_pubkey,
            Registration::Finished(_) => None,
        }
    }

    /// What the transport holds after a step from `self` to `next`: with the last step the peer's
    /// public key is noted, if the message gives one.
    pub open spec fn noted(self, next: Registration, transport: TransportView) -> TransportView {
        if self.authorizer() is Some && next matches Registration::Finished(Ok(_)) {
            TransportView { public_key: self.authorizer(), ..transport }
        } else {
            transport
        }
    }

    /// How far the taking in of a message has come after a candidate was answered for, and another,
    /// and so on.
    pub open spec fn answered(
        self,
        connection: Option<Arc<RTCPeerConnection>>,
        answers: Seq<Result<(), webrtc::error::Error>>,
    ) -> Registration
        decreases answers.len(),
    {
        if answers.len() == 0 {
            self
        } else {
            self.answered(connection, answers.drop_last()).advanced(
                connection,
                RegistrationEvent::CandidateAdded(answers.last()),
            )
        }
    }

    /// How far the taking in of a message has come after `event`, and what the transport holds then.
    pub open spec fn stepped(
        self,
        transport: TransportView,
        event: RegistrationEvent,
    ) -> (Registration, TransportView) {
        let next = self.advanced(transport.connection, event);
        (next, self.noted(next, transport))
    }

    /// How far the taking in of a message has come, and what the transport holds, after the
    /// description was applied and a candidate was answered for, and another, and so on.
    pub open spec fn carried(
        self,
        transport: TransportView,
        answers: Seq<Result<(), webrtc::error::Error>>,
    ) -> (Registration, TransportView)
        decreases answers.len(),
    {
        if answers.len() == 0 {
            self.stepped(transport, RegistrationEvent::RemoteDescriptionSet(Ok(())))
        } else {
            let before = self.carried(transport, answers.drop_last());
            before.0.stepped(before.1, RegistrationEvent::CandidateAdded(answers.last()))
        }
    }

    /// How far the taking in of a message has come, and what the transport holds, after the given
    /// events.
    pub open spec fn run(
        self,
        transport: TransportView,
        events: Seq<RegistrationEvent>,
    ) -> (Registration, TransportView)
        decreases events.len(),
    {
        if events.len() == 0 {
            (self, transport)
        } else {
            let before = self.run(transport, events.drop_last());
            before.0.stepped(before.1, events.last())
        }
    }

    /// What a transport holds after a message was taken in: the public key that the message gives,
    /// if it gives one, and for the rest what it held before.
    pub open spec fn introduced(info: RemoteInfo, before: TransportView) -> TransportView {
        TransportView {
            public_key: if info.authorizer_pubkey is Some {
                info.authorizer_pubkey
            } else {
                before.public_key
            },
            ..before
        }
    }

    /// Whether a description of this kind and text is to be applied to the peer connection.
    pub open spec fn applies(
        self,
        connection: Arc<RTCPeerConnection>,
        description: SessionDescription,
    ) -> bool {
        &&& self matches Registration::SettingRemote { request, .. }
        &&& request.connection == connection
        &&& request.description.sdp_type == description.sdp_type
        &&& request.description.sdp@ == description.sdp@
    }

    /// Whether what was written of the candidate is to be tried by the peer connection.
    pub open spec fn tries(
        self,
        connection: Arc<RTCPeerConnection>,
        candidate: LocalCandidate,
    ) -> bool {
        &&& self matches Registration::AddingCandidate { attempt, .. }
        &&& attempt.connection == connection
        &&& is_written(candidate, attempt.candidate)
    }

    /// Begins to take in a message.
    pub fn begin(transport: &DefaultTransport, info: RemoteInfo) -> (registration: Registration)
        ensures
            Self::begins(registration, info, transport@.connection),
    {
        if !info.verified {
            return Registration::Finished(Err(TransportError::VerifySignatureFailed));
        }
        match rtc::description_from_json(info.payload.sdp.as_str()) {
            Ok(description) => match transport.set_remote_description(description) {
                Ok(request) => Registration::SettingRemote { request, info },
                Err(e) => Registration::Finished(Err(e)),
            },
            Err(e) => Registration::Finished(Err(TransportError::Deserialize(e))),
        }
    }

    fn offer_candidate(transport: &mut DefaultTransport, info: RemoteInfo, next: usize) -> (after:
        Registration)
        ensures
            after == Self::offering(info, old(transport)@.connection, next as int),
            final(transport)@ == (if info.authorizer_pubkey is Some && after is Finished {
                TransportView { public_key: info.authorizer_pubkey, ..old(transport)@ }
            } else {
                old(transport)@
            }),
    {
        if next < info.payload.candidates.len() {
            let candidate = info.payload.candidates[next].clone();
            if let Ok(attempt) = transport.add_ice_candidate(candidate) {
                return Registration::AddingCandidate { attempt, info, next: next + 1 };
            }
        }
        if let Some(key) = info.authorizer_pubkey {
            transport.set_pubkey(key);
        }
        Registration::Finished(Ok(info.addr))
    }

    /// Carries on with what the peer connection answered.
    pub fn advance(self, transport: &mut DefaultTransport, event: RegistrationEvent) -> (next:
        Registration)
        ensures
            (next, final(transport)@) == self.stepped(old(transport)@, event),
    {
        match (self, event) {
            (
                Registration::SettingRemote { info, .. },
                RegistrationEvent::RemoteDescriptionSet(answer),
            ) => match DescriptionRequest::remote_description_set(answer) {
                Ok(_) => Self::offer_candidate(transport, info, 0),
                Err(e) => Registration::Finished(Err(e)),
            },
            (
                Registration::AddingCandidate { info, next, .. },
                RegistrationEvent::CandidateAdded(_),
            ) => Self::offer_candidate(transport, info, next),
            (unchanged, _) => unchanged,
        }
    }
}

impl IceTrickleScheme for DefaultTransport {
    type SdpType = SdpType;

    type Handshake = Handshake;

    type RemoteInfo = RemoteInfo;

    type Registration = Registration;

    fn get_handshake_info(&self, kind: SdpType) -> (handshake: Handshake)
        ensures
            handshake == Handshake::begun(self@.connection, kind),
    {
        Handshake::begin(self, kind)
    }

    fn register_remote_info(&self, data: RemoteInfo) -> (registration: Registration)
        ensures
            Registration::begins(registration, data, self@.connection),
    {
        Registration::begin(self, data)
    }
}

/// Once the description is applied, the candidates of a message are tried one by one in their
/// order, whatever is answered for them, and after the last one the message is taken in.
pub proof fn law_candidates_are_tried_in_order(
    info: RemoteInfo,
    connection: Arc<RTCPeerConnection>,
    answers: Seq<Result<(), webrtc::error::Error>>,
)
    requires
        answers.len() <= info.payload.candidates@.len() <= usize::MAX,
    ensures
        Registration::offering(info, Some(connection), 0).answered(Some(connection), answers)
            == Registration::offering(info, Some(connection), answers.len() as int),
    decreases answers.len(),
{
    if answers.len() > 0 {
        law_candidates_are_tried_in_order(info, connection, answers.drop_last());
    }
}

/// A message whose description is applied is taken in after as many answers as it has candidates,
/// whatever those answers are.
pub proof fn law_refused_candidates_do_no_harm(
    request: DescriptionRequest,
    info: RemoteInfo,
    connection: Arc<RTCPeerConnection>,
    answers: Seq<Result<(), webrtc::error::Error>>,
)
    requires
        answers.len() == info.payload.candidates@.len() <= usize::MAX,
    ensures
        (Registration::SettingRemote { request, info }).advanced(
            Some(connection),
            RegistrationEvent::RemoteDescriptionSet(Ok(())),
        ).answered(Some(connection), answers) == Registration::Finished(Ok(info.addr)),
{
    law_candidates_are_tried_in_order(info, connection, answers);
}

/// Once the description is applied, the transport stays as it was while candidates are tried, and
/// learns the public key that the message gives with the last of them, whatever is answered.
pub proof fn law_key_is_noted_at_the_end(
    request: DescriptionRequest,
    info: RemoteInfo,
    before: TransportView,
    answers: Seq<Result<(), webrtc::error::Error>>,
)
    requires
        answers.len() <= info.payload.candidates@.len() <= usize::MAX,
    ensures
        ({
            let reached = Registration::offering(info, before.connection, answers.len() as int);
            (Registration::SettingRemote { request, info }).carried(before, answers) == (
                reached,
                if reached is Finished {
                    Registration::introduced(info, before)
                } else {
                    before
                },
            )
        }),
    decreases answers.len(),
{
    if answers.len() > 0 {
        law_key_is_noted_at_the_end(request, info, before, answers.drop_last());
    }
}

/// A message whose description is applied is taken in after as many answers as it has candidates,
/// whatever those answers are. The transport then holds the public key that the message gives, if
/// it gives one, and is otherwise as it was.
pub proof fn law_registration_introduces_the_peer(
    request: DescriptionRequest,
    info: RemoteInfo,
    before: TransportView,
    answers: Seq<Result<(), webrtc::error::Error>>,
)
    requires
        answers.len() == info.payload.candidates@.len() <= usize::MAX,
    ensures
        (Registration::SettingRemote { request, info }).carried(before, answers) == (
            Registration::Finished(Ok(info.addr)),
            Registration::introduced(info, before),
        ),
{
    law_key_is_noted_at_the_end(request, info, before, answers);
}

/// A handshake message gives the peer what its sender put into it. If the message was concluded
/// with `description` on a transport with `candidates`, a peer that takes it in applies a description of that kind and
/// text, and then tries what was written of each of those candidates, in their order.
pub proof fn law_handshake_round_trip(
    description: SessionDescription,
    candidates: Seq<LocalCandidate>,
    info: RemoteInfo,
    connection: Arc<RTCPeerConnection>,
    registration: Registration,
    answers: Seq<Result<(), webrtc::error::Error>>,
)
    requires
        Handshake::Described(description).concludes(
            candidates,
            HandshakeOutcome::Finished(Ok(info.payload)),
        ),
        info.verified,
        Registration::begins(registration, info, Some(connection)),
        answers.len() < candidates.len() <= usize::MAX,
    ensures
        registration.applies(connection, description),
        registration.advanced(
            Some(connection),
            RegistrationEvent::RemoteDescriptionSet(Ok(())),
        ).answered(Some(connection), answers).tries(connection, candidates[answers.len() as int]),
{
    law_candidates_are_tried_in_order(info, connection, answers);
    assert(is_written(
        candidates[answers.len() as int],
        info.payload.candidates@[answers.len() as int],
    ));
}

/// A message that is not taken in leaves the transport as it was.
pub proof fn law_failed_registration_keeps(
    registration: Registration,
    connection: Option<Arc<RTCPeerConnection>>,
    event: RegistrationEvent,
    transport: TransportView,
)
    requires
        registration.advanced(connection, event) matches Registration::Finished(Err(_)),
    ensures
        registration.noted(registration.advanced(connection, event), transport) == transport,
{
}

/// A message whose description is refused is not taken in, however many candidates it has: the
/// refusal is the result, and the transport stays as it was, its key included.
pub proof fn law_refused_description_ends_the_registration(
    request: DescriptionRequest,
    info: RemoteInfo,
    before: TransportView,
    error: webrtc::error::Error,
)
    ensures
        ({
            let refused = (Registration::SettingRemote { request, info }).stepped(
                before,
                RegistrationEvent::RemoteDescriptionSet(Err(error)),
            );
            &&& refused.0 == Registration::Finished(
                Err(TransportError::RTCPeerConnectionSetRemoteDescFailed(error)),
            )
            &&& refused.1 == before
        }),
{
}

/// A message is taken in only if its description was applied: as long as that is not answered with
/// success, no candidate is tried, the sender is not the result, and the transport stays as it was,
/// whatever else happens.
pub proof fn law_nothing_is_taken_in_before_the_description(
    request: DescriptionRequest,
    info: RemoteInfo,
    before: TransportView,
    events: Seq<RegistrationEvent>,
)
    requires
        forall|i: int|
            0 <= i < events.len() ==> !(#[trigger] events[i]
                matches RegistrationEvent::RemoteDescriptionSet(Ok(_))),
    ensures
        ({
            let reached = (Registration::SettingRemote { request, info }).run(before, events);
            &&& reached.1 == before
            &&& {
                ||| reached.0 == (Registration::SettingRemote { request, info })
                ||| reached.0 matches Registration::Finished(
                    Err(TransportError::RTCPeerConnectionSetRemoteDescFailed(_)),
                )
            }
        }),
    decreases events.len(),
{
    if events.len() > 0 {
        assert(events.last() == events[events.len() - 1]);
        assert forall|i: int| 0 <= i < events.drop_last().len() implies !(
        #[trigger] events.drop_last()[i] matches RegistrationEvent::RemoteDescriptionSet(Ok(_))) by {
            assert(events.drop_last()[i] == events[i]);
        }
        law_nothing_is_taken_in_before_the_description(
            request,
            info,
            before,
            events.drop_last(),
        );
    }
}

/// Which messages are let in: those whose signature verifies and whose description can be read,
/// where there is a peer connection. The others are refused for the first of these reasons.
pub proof fn law_which_messages_are_let_in(
    registration: Registration,
    info: RemoteInfo,
    connection: Option<Arc<RTCPeerConnection>>,
)
    requires
        Registration::begins(registration, info, connection),
    ensures
        registration is SettingRemote <==> info.verified && rtc::parsed_description(
            info.payload.sdp@,
        ) is Some && connection is Some,
        !info.verified <==> registration matches Registration::Finished(
            Err(TransportError::VerifySignatureFailed),
        ),
        info.verified && rtc::parsed_description(info.payload.sdp@) is None
            <==> registration matches Registration::Finished(Err(TransportError::Deserialize(_))),
        info.verified && rtc::parsed_description(info.payload.sdp@) is Some && connection is None
            <==> registration matches Registration::Finished(
            Err(TransportError::RTCPeerConnectionNotEstablish),
        ),
        !(registration is AddingCandidate),
        !(registration matches Registration::Finished(Ok(_))),
        registration matches Registration::SettingRemote { request, info: kept } ==> {
            &&& kept == info
            &&& connection == Some(request.connection)
            &&& rtc::parsed_description(info.payload.sdp@) == Some(
                (request.description.sdp_type, request.description.sdp@),
            )
        },
{
}

/// Once the description is applied, every candidate of the message is tried, each in its turn, on
/// the peer connection, whatever was answered for the ones before. The transport stays as it was
/// meanwhile.
pub proof fn law_every_candidate_is_tried(
    request: DescriptionRequest,
    info: RemoteInfo,
    before: TransportView,
    answers: Seq<Result<(), webrtc::error::Error>>,
)
    requires
        before.connection is Some,
        answers.len() < info.payload.candidates@.len() <= usize::MAX,
    ensures
        ({
            let reached = (Registration::SettingRemote { request, info }).carried(before, answers);
            &&& reached.1 == before
            &&& reached.0 matches Registration::AddingCandidate { attempt, info: kept, next }
            &&& before.connection == Some(attempt.connection)
            &&& attempt.candidate == info.payload.candidates@[answers.len() as int]
            &&& kept == info
            &&& next == answers.len() + 1
        }),
{
    law_key_is_noted_at_the_end(request, info, before, answers);
}

/// A message whose description is applied and whose candidates are all answered for is taken in:
/// its sender is the result. The transport then knows the key that the message gives, or the one
/// that it knew before if the message gives none, and nothing else of it has changed.
pub proof fn law_taken_in_message_names_its_sender(
    request: DescriptionRequest,
    info: RemoteInfo,
    before: TransportView,
    answers: Seq<Result<(), webrtc::error::Error>>,
)
    requires
        answers.len() == info.payload.candidates@.len() <= usize::MAX,
    ensures
        ({
            let reached = (Registration::SettingRemote { request, info }).carried(before, answers);
            &&& reached.0 == Registration::Finished(Ok(info.addr))
            &&& info.authorizer_pubkey is Some ==> reached.1.public_key == info.authorizer_pubkey
            &&& info.authorizer_pubkey is None ==> reached.1.public_key == before.public_key
            &&& reached.1.id == before.id
            &&& reached.1.connection == before.connection
            &&& reached.1.pending_candidates == before.pending_candidates
            &&& reached.1.data_channel == before.data_channel
        }),
{
    law_key_is_noted_at_the_end(request, info, before, answers);
}

/// A registration moves only on what it waits for, and never once it is finished.
pub proof fn law_registration_waits_its_turn(
    registration: Registration,
    before: TransportView,
    event: RegistrationEvent,
)
    requires
        registration is SettingRemote ==> event is CandidateAdded,
        registration is AddingCandidate ==> event is RemoteDescriptionSet,
    ensures
        registration.stepped(before, event) == (registration, before),
{
}

/// The peer gets what the sender of a handshake message put into it: the kind and the text of the
/// description, and the line of each of the sender's candidates, in the sender's order.
pub proof fn law_peer_gets_what_was_sent(
    description: SessionDescription,
    candidates: Seq<LocalCandidate>,
    info: RemoteInfo,
    peer: TransportView,
    registration: Registration,
    answers: Seq<Result<(), webrtc::error::Error>>,
)
    requires
        Handshake::Described(description).concludes(
            candidates,
            HandshakeOutcome::Finished(Ok(info.payload)),
        ),
        info.verified,
        peer.connection is Some,
        Registration::begins(registration, info, peer.connection),
        answers.len() < candidates.len() <= usize::MAX,
    ensures
        registration matches Registration::SettingRemote { request, .. } && {
            &&& peer.connection == Some(request.connection)
            &&& request.description.sdp_type == description.sdp_type
            &&& request.description.sdp@ == description.sdp@
        },
        registration.carried(peer, answers).0 matches Registration::AddingCandidate { attempt, .. }
            && {
            let c = candidates[answers.len() as int];
            &&& peer.connection == Some(attempt.connection)
            &&& Some(attempt.candidate.candidate@) == rtc::candidate_line(
                c.foundation@,
                c.priority,
                c.address@,
                c.protocol.spec_name(),
                c.port,
                c.typ.spec_name(),
                c.component,
                c.related_address@,
                c.related_port,
            )
        },
{
    law_handshake_holds_every_candidate(description, candidates, info.payload);
    let request = registration->request;
    law_every_candidate_is_tried(request, info, peer, answers);
    assert(registration.carried(peer, answers).0->attempt.candidate
        == info.payload.candidates@[answers.len() as int]);
}

/// A step of a registration whose description is refused gives the refusal, and leaves the
/// transport as it was.
pub proof fn law_advance_refuses_with_the_description(
    request: DescriptionRequest,
    info: RemoteInfo,
    error: webrtc::error::Error,
    next: Registration,
)
    ensures
        forall|transport: &mut DefaultTransport| #[trigger]
            call_ensures(
                Registration::advance,
                (
                    Registration::SettingRemote { request, info },
                    transport,
                    RegistrationEvent::RemoteDescriptionSet(Err(error)),
                ),
                next,
            ) ==> {
                &&& next == Registration::Finished(
                    Err(TransportError::RTCPeerConnectionSetRemoteDescFailed(error)),
                )
                &&& final(transport)@ == (*transport)@
            },
{
}

/// A registration begins and goes on with what the transport has.
pub proof fn law_registration_is_the_transports(
    transport: &DefaultTransport,
    info: RemoteInfo,
    begun: Registration,
    before: Registration,
    event: RegistrationEvent,
    after: Registration,
)
    requires
        call_ensures(Registration::begin, (transport, info), begun),
    ensures
        Registration::begins(begun, info, transport@.connection),
        forall|changed: &mut DefaultTransport| #[trigger]
            call_ensures(Registration::advance, (before, changed, event), after) ==> (
                after,
                final(changed)@,
            ) == before.stepped((*changed)@, event),
{
}

/// What a node asks of a transport to meet a peer is begun as a handshake and as a registration.
pub proof fn law_trickle_scheme_is_followed(
    transport: &DefaultTransport,
    kind: SdpType,
    handshake: Handshake,
    info: RemoteInfo,
    registration: Registration,
)
    requires
        call_ensures(DefaultTransport::get_handshake_info, (transport, kind), handshake),
        call_ensures(DefaultTransport::register_remote_info, (transport, info), registration),
    ensures
        handshake == Handshake::begun(transport@.connection, kind),
        Registration::begins(registration, info, transport@.connection),
{
}

} // verus!
