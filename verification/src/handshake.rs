//! The handshake message of a transport: its description and its candidates.
use vstd::prelude::*;

use std::sync::Arc;
use webrtc::peer_connection::RTCPeerConnection;

use crate::error::TransportError;
use crate::ice_transport::{IceTransport, LocalKind};
use crate::negotiation::{Negotiation, NegotiationEvent};
use crate::rtc;
use crate::transport::DefaultTransport;
use crate::types::{IceCandidate, LocalCandidate, SdpType, SessionDescription, TricklePayload};

verus! {

/// How hard a handshake message is compressed.
pub const HANDSHAKE_GZIP_LEVEL: u8 = 9;

/// The making of a handshake message, as far as it has come.
#[derive(Debug)]
pub enum Handshake {
    /// The local description is being made, to be sent as one of the given kind.
    Negotiating { kind: SdpType, negotiation: Negotiation },
    /// The description to send. The candidates are still to be added to it.
    Described(SessionDescription),
    /// Why there is no description.
    Failed(TransportError),
}

/// What the making of a handshake message comes to.
#[derive(Debug)]
pub enum HandshakeOutcome {
    /// The description is still being made.
    Unfinished(Handshake),
    /// A candidate cannot be written for the peer.
    Unwritable,
    /// The message, or why there is none.
    Finished(Result<TricklePayload, TransportError>),
}

impl Handshake {
    /// The description that is made for a handshake message of the given kind: an answer for an
    /// answer, an offer for everything else.
    pub open spec fn local_kind(kind: SdpType) -> LocalKind {
        if kind is Answer {
            LocalKind::Answer
        } else {
            LocalKind::Offer
        }
    }

    /// The description that is sent: an offer made for neither an offer nor an answer is labelled
    /// as what was asked for.
    pub open spec fn labelled(kind: SdpType, description: SessionDescription) -> SessionDescription {
        if kind is Answer || kind is Offer {
            description
        } else {
            SessionDescription { sdp_type: kind, ..description }
        }
    }

    /// How far the handshake message has come when its description has come as far as
    /// `negotiation`.
    pub open spec fn after(kind: SdpType, negotiation: Negotiation) -> Handshake {
        match negotiation {
            Negotiation::Finished(Ok(description)) => Handshake::Described(
                Self::labelled(kind, description),
            ),
            Negotiation::Finished(Err(e)) => Handshake::Failed(e),
            _ => Handshake::Negotiating { kind, negotiation },
        }
    }

    /// How the making of a handshake message begins.
    pub open spec fn begun(connection: Option<Arc<RTCPeerConnection>>, kind: SdpType) -> Handshake {
        Self::after(kind, Negotiation::begun(connection, Self::local_kind(kind)))
    }

    /// How far the handshake message has come after `event`. Once there is a description or an
    /// error, nothing changes it.
    pub open spec fn advanced(
        self,
        connection: Option<Arc<RTCPeerConnection>>,
        event: NegotiationEvent,
    ) -> Handshake {
        match self {
            Handshake::Negotiating { kind, negotiation } => Self::after(
                kind,
                negotiation.advanced(connection, event),
            ),
            _ => self,
        }
    }

    fn from_negotiation(kind: SdpType, negotiation: Negotiation) -> (handshake: Handshake)
        ensures
            handshake == Self::after(kind, negotiation),
    {
        match negotiation {
            Negotiation::Finished(Ok(description)) => match kind {
                SdpType::Answer | SdpType::Offer => Handshake::Described(description),
                kind => {
                    let mut relabelled = description;
                    relabelled.sdp_type = kind;
                    Handshake::Described(relabelled)
                },
            },
            Negotiation::Finished(Err(e)) => Handshake::Failed(e),
            unfinished => Handshake::Negotiating { kind, negotiation: unfinished },
        }
    }

    /// Begins to make a handshake message with a description of the given kind.
    pub fn begin(transport: &DefaultTransport, kind: SdpType) -> (handshake: Handshake)
        ensures
            handshake == Self::begun(transport@.connection, kind),
    {
        let negotiation = match kind {
            SdpType::Answer => transport.get_answer(),
            _ => transport.get_offer(),
        };
        Self::from_negotiation(kind, negotiation)
    }

    /// Carries on with what the peer connection answered.
    pub fn advance(self, transport: &DefaultTransport, event: NegotiationEvent) -> (next: Handshake)
        ensures
            next == self.advanced(transport@.connection, event),
    {
        match self {
            Handshake::Negotiating { kind, negotiation } => {
                let next = negotiation.advance(transport, event);
                Self::from_negotiation(kind, next)
            },
            unchanged => unchanged,
        }
    }

    /// What the making of a handshake message comes to on a transport with the given candidates:
    /// once there is a description, the message is made of it and of those candidates.
    pub open spec fn concludes(
        self,
        candidates: Seq<LocalCandidate>,
        outcome: HandshakeOutcome,
    ) -> bool {
        match self {
            Handshake::Negotiating { .. } => outcome == HandshakeOutcome::Unfinished(self),
            Handshake::Failed(e) => outcome == HandshakeOutcome::Finished(Err(e)),
            Handshake::Described(description) => if all_writable(candidates) {
                outcome matches HandshakeOutcome::Finished(payload) && is_payload(
                    payload,
                    description,
                    candidates,
                )
            } else {
                outcome is Unwritable
            },
        }
    }

    /// Puts the handshake message together, once there is a description.
    pub fn conclude(self, transport: &DefaultTransport) -> (outcome: HandshakeOutcome)
        ensures
            self.concludes(transport@.pending_candidates, outcome),
    {
        match self {
            Handshake::Described(description) => match transport.handshake_payload(&description) {
                Some(payload) => HandshakeOutcome::Finished(payload),
                None => HandshakeOutcome::Unwritable,
            },
            Handshake::Failed(e) => HandshakeOutcome::Finished(Err(e)),
            unfinished => HandshakeOutcome::Unfinished(unfinished),
        }
    }
}

/// Whether a local candidate can be written for a peer.
pub open spec fn is_writable(candidate: LocalCandidate) -> bool {
    rtc::priority_fits(candidate) && rtc::line_of(candidate) is Some
}

/// Whether each of the local candidates can be written for a peer.
pub open spec fn all_writable(candidates: Seq<LocalCandidate>) -> bool {
    forall|i: int| 0 <= i < candidates.len() ==> #[trigger] is_writable(candidates[i])
}

/// Whether `written` is what is written for a peer of the local candidate.
pub open spec fn is_written(candidate: LocalCandidate, written: IceCandidate) -> bool {
    &&& rtc::line_of(candidate) == Some(written.candidate@)
    &&& rtc::is_json_form(written)
}

/// Whether `written` is what is written for a peer of the local candidates, one by one.
pub open spec fn all_written(candidates: Seq<LocalCandidate>, written: Seq<IceCandidate>) -> bool {
    &&& written.len() == candidates.len()
    &&& forall|i: int|
        #![trigger written[i]]
        #![trigger candidates[i]]
        0 <= i < candidates.len() ==> is_written(candidates[i], written[i])
}

/// Whether a text is the JSON form of a description, and is read back as it.
pub open spec fn is_description_text(text: Seq<char>, description: SessionDescription) -> bool {
    &&& text == rtc::description_json(description.sdp_type, description.sdp@)
    &&& rtc::parsed_description(text) == Some((description.sdp_type, description.sdp@))
}

/// Whether `payload` is the handshake message with the given description and candidates, or the
/// error for want of a candidate.
pub open spec fn is_payload(
    payload: Result<TricklePayload, TransportError>,
    description: SessionDescription,
    candidates: Seq<LocalCandidate>,
) -> bool {
    match payload {
        Ok(payload) => {
            &&& candidates.len() > 0
            &&& is_description_text(payload.sdp@, description)
            &&& all_written(candidates, payload.candidates@)
        },
        Err(e) => {
            &&& candidates.len() == 0
            &&& e == TransportError::FailedOnGatherLocalCandidate
        },
    }
}

impl TricklePayload {
    /// Puts a description and candidates together. There must be a candidate.
    pub fn assemble(description: &SessionDescription, candidates: Vec<IceCandidate>) -> (payload:
        Result<TricklePayload, TransportError>)
        ensures
            match payload {
                Ok(payload) => {
                    &&& candidates@.len() > 0
                    &&& is_description_text(payload.sdp@, *description)
                    &&& payload.candidates == candidates
                },
                Err(e) => {
                    &&& candidates@.len() == 0
                    &&& e == TransportError::FailedOnGatherLocalCandidate
                },
            },
    {
        if candidates.len() == 0 {
            return Err(TransportError::FailedOnGatherLocalCandidate);
        }
        Ok(TricklePayload { sdp: rtc::description_to_json(description), candidates })
    }
}

impl DefaultTransport {
    /// What is written for a peer of the candidates gathered so far, or nothing if one of them
    /// cannot be written.
    pub fn written_candidates(&self) -> (written: Option<Vec<IceCandidate>>)
        ensures
            written is Some <==> all_writable(self@.pending_candidates),
            written is Some ==> all_written(self@.pending_candidates, written->0@),
    {
        let candidates = self.get_pending_candidates();
        let mut written: Vec<IceCandidate> = Vec::new();
        let mut i: usize = 0;
        while i < candidates.len()
            invariant
                candidates@ == self@.pending_candidates,
                i <= candidates@.len(),
                forall|j: int| 0 <= j < i ==> #[trigger] is_writable(candidates@[j]),
                all_written(candidates@.take(i as int), written@),
            decreases candidates.len() - i,
        {
            let candidate = candidates[i].clone();
            let ghost refused = !is_writable(candidates@[i as int]);
            if candidate.priority == 0 && candidate.component > 256 {
                assert(refused);
                return None;
            }
            let protocol = candidate.protocol.name();
            let typ = candidate.typ.name();
            match rtc::candidate_to_json(candidate, protocol, typ) {
                Some(json) => {
                    let ghost before = written@;
                    written.push(json);
                    proof {
                        let taken = candidates@.take(i + 1);
                        assert forall|j: int| 0 <= j < taken.len() implies is_written(
                            taken[j],
                            written@[j],
                        ) by {
                            if j < i {
                                assert(candidates@.take(i as int)[j] == taken[j]);
                                assert(before[j] == written@[j]);
                            }
                        }
                    }
                },
                None => {
                    assert(refused);
                    return None;
                },
            }
            i = i + 1;
        }
        proof {
            assert(candidates@.take(i as int) =~= candidates@);
        }
        Some(written)
    }

    /// The handshake message for a description, with the candidates gathered so far: `None` if one
    /// of them cannot be written, an error if there is none.
    pub fn handshake_payload(&self, description: &SessionDescription) -> (payload: Option<
        Result<TricklePayload, TransportError>,
    >)
        ensures
            payload is Some <==> all_writable(self@.pending_candidates),
            payload is Some ==> is_payload(payload->0, *description, self@.pending_candidates),
    {
        match self.written_candidates() {
            Some(candidates) => Some(TricklePayload::assemble(description, candidates)),
            None => None,
        }
    }
}

/// Three answers decide the description of a handshake message: it is the one that was made,
/// labelled as what was asked for, or the first error.
pub proof fn law_handshake_result(
    connection: Option<Arc<RTCPeerConnection>>,
    kind: SdpType,
    created: Result<SessionDescription, webrtc::error::Error>,
    applied: Result<(), webrtc::error::Error>,
)
    ensures
        Handshake::begun(connection, kind).advanced(
            connection,
            NegotiationEvent::Created(created),
        ).advanced(connection, NegotiationEvent::LocalDescriptionSet(applied)).advanced(
            connection,
            NegotiationEvent::Gathered,
        ) == (match Negotiation::result(connection, Handshake::local_kind(kind), created, applied) {
            Ok(description) => Handshake::Described(Handshake::labelled(kind, description)),
            Err(e) => Handshake::Failed(e),
        }),
{
}

/// If the peer connection makes offers for offers and answers for answers, a handshake message
/// carries a description of the kind that was asked for.
pub proof fn law_handshake_has_requested_kind(kind: SdpType, description: SessionDescription)
    requires
        match Handshake::local_kind(kind) {
            LocalKind::Offer => description.sdp_type is Offer,
            LocalKind::Answer => description.sdp_type is Answer,
        },
    ensures
        Handshake::labelled(kind, description).sdp_type == kind,
        Handshake::labelled(kind, description).sdp == description.sdp,
{
}

/// A handshake message is made of the transport's own description: an answer where an answer is
/// asked for, an offer for everything else.
pub proof fn law_handshake_begins_with_a_description(
    connection: Option<Arc<RTCPeerConnection>>,
    kind: SdpType,
)
    ensures
        connection is None ==> Handshake::begun(connection, kind) == Handshake::Failed(
            TransportError::RTCPeerConnectionNotEstablish,
        ),
        connection matches Some(c) ==> Handshake::begun(connection, kind) == (
        Handshake::Negotiating {
            kind,
            negotiation: Negotiation::Creating {
                kind: if kind == SdpType::Answer {
                    LocalKind::Answer
                } else {
                    LocalKind::Offer
                },
                connection: c,
            },
        }),
{
}

/// A description that is created, applied and gathered for is sent with its text as it is. Its kind
/// is its own where an offer or an answer was asked for, and else what was asked for.
pub proof fn law_handshake_sends_the_created_text(
    connection: Arc<RTCPeerConnection>,
    kind: SdpType,
    description: SessionDescription,
)
    ensures
        ({
            let sent = Handshake::begun(Some(connection), kind).advanced(
                Some(connection),
                NegotiationEvent::Created(Ok(description)),
            ).advanced(Some(connection), NegotiationEvent::LocalDescriptionSet(Ok(()))).advanced(
                Some(connection),
                NegotiationEvent::Gathered,
            );
            &&& sent matches Handshake::Described(d)
            &&& d.sdp == description.sdp
            &&& kind == SdpType::Offer || kind == SdpType::Answer ==> d.sdp_type
                == description.sdp_type
            &&& kind != SdpType::Offer && kind != SdpType::Answer ==> d.sdp_type == kind
        }),
{
}

/// A handshake message fails as its description fails.
pub proof fn law_handshake_failures(
    connection: Arc<RTCPeerConnection>,
    kind: SdpType,
    description: SessionDescription,
    error: webrtc::error::Error,
)
    ensures
        Handshake::begun(Some(connection), kind).advanced(
            Some(connection),
            NegotiationEvent::Created(Err(error)),
        ) == Handshake::Failed(
            if kind == SdpType::Answer {
                TransportError::RTCPeerConnectionCreateAnswerFailed(error)
            } else {
                TransportError::RTCPeerConnectionCreateOfferFailed(error)
            },
        ),
        Handshake::begun(Some(connection), kind).advanced(
            Some(connection),
            NegotiationEvent::Created(Ok(description)),
        ).advanced(Some(connection), NegotiationEvent::LocalDescriptionSet(Err(error)))
            == Handshake::Failed(TransportError::RTCPeerConnectionSetLocalDescFailed(error)),
{
}

/// A handshake message follows the making of its description step by step, and is left alone once
/// that is over.
pub proof fn law_handshake_follows_the_negotiation(
    before: Handshake,
    connection: Option<Arc<RTCPeerConnection>>,
    event: NegotiationEvent,
)
    ensures
        !(before is Negotiating) ==> before.advanced(connection, event) == before,
        before matches Handshake::Negotiating { kind, negotiation } ==> {
            let made = negotiation.advanced(connection, event);
            let after = before.advanced(connection, event);
            &&& made matches Negotiation::Finished(Ok(d)) ==> {
                &&& after matches Handshake::Described(sent)
                &&& sent.sdp == d.sdp
            }
            &&& made matches Negotiation::Finished(Err(e)) ==> after == Handshake::Failed(e)
            &&& !(made is Finished) ==> after == (Handshake::Negotiating {
                kind,
                negotiation: made,
            })
        },
{
}

/// Which local candidates can be written: those with a candidate line, unless neither their
/// priority is given nor can it be computed.
pub proof fn law_writable_candidates(c: LocalCandidate)
    ensures
        is_writable(c) <==> (c.priority != 0 || c.component <= 256) && rtc::candidate_line(
            c.foundation@,
            c.priority,
            c.address@,
            c.protocol.spec_name(),
            c.port,
            c.typ.spec_name(),
            c.component,
            c.related_address@,
            c.related_port,
        ) is Some,
{
}

/// A finished handshake message holds the description's text in a form that is read back as it, and
/// for each local candidate, in its place, the line of that candidate: none is left out, and none
/// is added.
pub proof fn law_handshake_holds_every_candidate(
    description: SessionDescription,
    candidates: Seq<LocalCandidate>,
    payload: TricklePayload,
)
    requires
        Handshake::Described(description).concludes(
            candidates,
            HandshakeOutcome::Finished(Ok(payload)),
        ),
    ensures
        rtc::parsed_description(payload.sdp@) == Some((description.sdp_type, description.sdp@)),
        payload.sdp@ == rtc::description_json(description.sdp_type, description.sdp@),
        payload.candidates@.len() == candidates.len(),
        candidates.len() > 0,
        forall|i: int|
            #![trigger payload.candidates@[i]]
            0 <= i < candidates.len() ==> {
                let c = candidates[i];
                let written = payload.candidates@[i];
                &&& Some(written.candidate@) == rtc::candidate_line(
                    c.foundation@,
                    c.priority,
                    c.address@,
                    c.protocol.spec_name(),
                    c.port,
                    c.typ.spec_name(),
                    c.component,
                    c.related_address@,
                    c.related_port,
                )
                &&& written.sdp_mid is Some && written.sdp_mid->0@.len() == 0
                &&& written.sdp_m_line_index == Some(0u16)
                &&& written.username_fragment is None
            },
{
    assert forall|i: int|
        #![trigger payload.candidates@[i]]
        0 <= i < candidates.len() implies is_written(candidates[i], payload.candidates@[i]) by {}
}

/// How a handshake message ends: unfinished while its description is being made, with the error of
/// its description, without a message if a candidate cannot be written, and with an error for want
/// of a candidate. Otherwise there is a message.
pub proof fn law_how_a_handshake_ends(
    handshake: Handshake,
    candidates: Seq<LocalCandidate>,
    outcome: HandshakeOutcome,
)
    requires
        handshake.concludes(candidates, outcome),
    ensures
        handshake is Negotiating <==> outcome is Unfinished,
        outcome matches HandshakeOutcome::Unfinished(same) ==> same == handshake,
        handshake matches Handshake::Failed(e) ==> outcome == HandshakeOutcome::Finished(Err(e)),
        handshake is Described ==> {
            &&& outcome is Unwritable <==> exists|i: int|
                0 <= i < candidates.len() && !#[trigger] is_writable(candidates[i])
            &&& candidates.len() == 0 ==> outcome == HandshakeOutcome::Finished(
                Err(TransportError::FailedOnGatherLocalCandidate),
            )
            &&& candidates.len() > 0 && !(outcome is Unwritable)
                ==> outcome matches HandshakeOutcome::Finished(Ok(_))
        },
{
}

/// What is written of a transport's candidates is written of each of them.
pub proof fn law_written_candidates_are_all(
    transport: &DefaultTransport,
    written: Option<Vec<IceCandidate>>,
)
    requires
        call_ensures(DefaultTransport::written_candidates, (transport,), written),
    ensures
        written matches Some(list) ==> {
            &&& list@.len() == transport@.pending_candidates.len()
            &&& forall|i: int|
                0 <= i < list@.len() ==> Some((#[trigger] list@[i]).candidate@) == rtc::line_of(
                    transport@.pending_candidates[i],
                )
        },
        written is None <==> exists|i: int|
            0 <= i < transport@.pending_candidates.len() && !#[trigger] is_writable(
                transport@.pending_candidates[i],
            ),
{
}

/// Handshake messages are compressed as hard as gzip compresses: its levels end at nine.
pub proof fn law_handshakes_are_compressed_hardest(level: u8)
    requires
        level <= 9,
    ensures
        level <= HANDSHAKE_GZIP_LEVEL <= 9,
{
}

/// A handshake message begins, goes on and ends with the connection and the candidates that the
/// transport has.
pub proof fn law_handshake_is_the_transports(
    transport: &DefaultTransport,
    kind: SdpType,
    begun: Handshake,
    before: Handshake,
    event: NegotiationEvent,
    after: Handshake,
    outcome: HandshakeOutcome,
)
    requires
        call_ensures(Handshake::begin, (transport, kind), begun),
        call_ensures(Handshake::advance, (before, transport, event), after),
        call_ensures(Handshake::conclude, (before, transport), outcome),
    ensures
        begun == Handshake::begun(transport@.connection, kind),
        after == before.advanced(transport@.connection, event),
        before.concludes(transport@.pending_candidates, outcome),
{
}

} // verus!
