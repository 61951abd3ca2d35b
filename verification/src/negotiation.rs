//! The making of a local description: create it, apply it, wait until all candidates are gathered.
use vstd::prelude::*;

use std::sync::Arc;
use webrtc::peer_connection::RTCPeerConnection;

use crate::error::TransportError;
use crate::ice_transport::{IceTransport, LocalKind};
use crate::transport::{DefaultTransport, DescriptionRequest};
use crate::types::SessionDescription;

verus! {

/// The making of a local description, as far as it has come.
#[derive(Debug)]
pub enum Negotiation {
    /// Ask to be told when gathering is complete; then have `connection` create a description.
    Creating { kind: LocalKind, connection: Arc<RTCPeerConnection> },
    /// Have the peer connection apply the description.
    SettingLocal { request: DescriptionRequest },
    /// Wait until gathering is complete.
    Gathering { description: SessionDescription },
    /// The description, or why there is none.
    Finished(Result<SessionDescription, TransportError>),
}

/// What the peer connection answered.
#[derive(Debug)]
pub enum NegotiationEvent {
    /// The description that was created, or why it was not.
    Created(Result<SessionDescription, webrtc::error::Error>),
    /// The description was applied, or why it was not.
    LocalDescriptionSet(Result<(), webrtc::error::Error>),
    /// Gathering is complete.
    Gathered,
}

impl Negotiation {
    /// How the making of a description begins: it takes a peer connection.
    pub open spec fn begun(
        connection: Option<Arc<RTCPeerConnection>>,
        kind: LocalKind,
    ) -> Negotiation {
        match connection {
            Some(connection) => Negotiation::Creating { kind, connection },
            None => Negotiation::Finished(Err(TransportError::RTCPeerConnectionNotEstablish)),
        }
    }

    /// The error for a description of the given kind that could not be created.
    pub open spec fn creation_error(kind: LocalKind, error: webrtc::error::Error) -> TransportError {
        match kind {
            LocalKind::Offer => TransportError::RTCPeerConnectionCreateOfferFailed(error),
            LocalKind::Answer => TransportError::RTCPeerConnectionCreateAnswerFailed(error),
        }
    }

    /// How far the making of a description has come after `event`, on a transport with the given
    /// peer connection. An event that is not waited for changes nothing.
    pub open spec fn advanced(
        self,
        connection: Option<Arc<RTCPeerConnection>>,
        event: NegotiationEvent,
    ) -> Negotiation {
        match (self, event) {
            (Negotiation::Creating { kind, .. }, NegotiationEvent::Created(answer)) => match answer {
                Ok(description) => match DescriptionRequest::on(connection, description) {
                    Ok(request) => Negotiation::SettingLocal { request },
                    Err(e) => Negotiation::Finished(Err(e)),
                },
                Err(e) => Negotiation::Finished(Err(Self::creation_error(kind, e))),
            },
            (
                Negotiation::SettingLocal { request },
                NegotiationEvent::LocalDescriptionSet(answer),
            ) => match answer {
                Ok(_) => Negotiation::Gathering { description: request.description },
                Err(e) => Negotiation::Finished(
                    Err(TransportError::RTCPeerConnectionSetLocalDescFailed(e)),
                ),
            },
            (Negotiation::Gathering { description }, NegotiationEvent::Gathered) => {
                Negotiation::Finished(Ok(description))
            },
            _ => self,
        }
    }

    /// What the making of a description comes to when the peer connection stays the same and
    /// answers `created`, then `applied`, then reports the end of gathering.
    pub open spec fn result(
        connection: Option<Arc<RTCPeerConnection>>,
        kind: LocalKind,
        created: Result<SessionDescription, webrtc::error::Error>,
        applied: Result<(), webrtc::error::Error>,
    ) -> Result<SessionDescription, TransportError> {
        if connection is None {
            Err(TransportError::RTCPeerConnectionNotEstablish)
        } else if created is Err {
            Err(Self::creation_error(kind, created->Err_0))
        } else if applied is Err {
            Err(TransportError::RTCPeerConnectionSetLocalDescFailed(applied->Err_0))
        } else {
            Ok(created->Ok_0)
        }
    }

    /// Begins to make a description.
    pub fn begin(transport: &DefaultTransport, kind: LocalKind) -> (negotiation: Negotiation)
        ensures
            negotiation == Self::begun(transport@.connection, kind),
    {
        match transport.get_peer_connection() {
            Some(connection) => Negotiation::Creating { kind, connection },
            None => Negotiation::Finished(Err(TransportError::RTCPeerConnectionNotEstablish)),
        }
    }

    /// Carries on with what the peer connection answered.
    pub fn advance(self, transport: &DefaultTransport, event: NegotiationEvent) -> (next: Negotiation)
        ensures
            next == self.advanced(transport@.connection, event),
    {
        match (self, event) {
            (Negotiation::Creating { kind, .. }, NegotiationEvent::Created(answer)) => match answer {
                Ok(description) => match transport.set_local_description(description) {
                    Ok(request) => Negotiation::SettingLocal { request },
                    Err(e) => Negotiation::Finished(Err(e)),
                },
                Err(e) => Negotiation::Finished(
                    Err(
                        match kind {
                            LocalKind::Offer => {
                                TransportError::RTCPeerConnectionCreateOfferFailed(e)
                            },
                            LocalKind::Answer => {
                                TransportError::RTCPeerConnectionCreateAnswerFailed(e)
                            },
                        },
                    ),
                ),
            },
            (
                Negotiation::SettingLocal { request },
                NegotiationEvent::LocalDescriptionSet(answer),
            ) => match DescriptionRequest::local_description_set(answer) {
                Ok(_) => Negotiation::Gathering { description: request.description },
                Err(e) => Negotiation::Finished(Err(e)),
            },
            (Negotiation::Gathering { description }, NegotiationEvent::Gathered) => {
                Negotiation::Finished(Ok(description))
            },
            (unchanged, _) => unchanged,
        }
    }
}

/// Three answers finish the making of a description, and the result depends on nothing else: the
/// description that was created, if it was created and applied, and else the first error.
pub proof fn law_negotiation_result(
    connection: Option<Arc<RTCPeerConnection>>,
    kind: LocalKind,
    created: Result<SessionDescription, webrtc::error::Error>,
    applied: Result<(), webrtc::error::Error>,
)
    ensures
        Negotiation::begun(connection, kind).advanced(
            connection,
            NegotiationEvent::Created(created),
        ).advanced(connection, NegotiationEvent::LocalDescriptionSet(applied)).advanced(
            connection,
            NegotiationEvent::Gathered,
        ) == Negotiation::Finished(Negotiation::result(connection, kind, created, applied)),
{
}

/// What is finished stays as it is.
pub proof fn law_finished_negotiation_is_final(
    result: Result<SessionDescription, TransportError>,
    connection: Option<Arc<RTCPeerConnection>>,
    event: NegotiationEvent,
)
    ensures
        Negotiation::Finished(result).advanced(connection, event) == Negotiation::Finished(result),
{
}

/// Nothing is made without a peer connection, and where there is one, it is the one that is asked,
/// for what was asked.
pub proof fn law_negotiation_asks_the_connection(
    connection: Option<Arc<RTCPeerConnection>>,
    kind: LocalKind,
)
    ensures
        connection is None ==> Negotiation::begun(connection, kind) == Negotiation::Finished(
            Err(TransportError::RTCPeerConnectionNotEstablish),
        ),
        connection matches Some(c) ==> Negotiation::begun(connection, kind) == (
        Negotiation::Creating { kind, connection: c }),
{
}

/// A description that was created is the one that is applied, and the one that results once
/// gathering is complete.
pub proof fn law_created_description_results(
    connection: Arc<RTCPeerConnection>,
    kind: LocalKind,
    description: SessionDescription,
)
    ensures
        ({
            let created = Negotiation::begun(Some(connection), kind).advanced(
                Some(connection),
                NegotiationEvent::Created(Ok(description)),
            );
            let applied = created.advanced(
                Some(connection),
                NegotiationEvent::LocalDescriptionSet(Ok(())),
            );
            &&& created == (Negotiation::SettingLocal {
                request: DescriptionRequest { connection, description },
            })
            &&& !(applied is Finished)
            &&& applied.advanced(Some(connection), NegotiationEvent::Gathered)
                == Negotiation::Finished(Ok(description))
        }),
{
}

/// A failure ends the making of a description with its reason: an offer's as an offer's, an
/// answer's as an answer's.
pub proof fn law_negotiation_failures(
    connection: Arc<RTCPeerConnection>,
    description: SessionDescription,
    error: webrtc::error::Error,
)
    ensures
        Negotiation::begun(Some(connection), LocalKind::Offer).advanced(
            Some(connection),
            NegotiationEvent::Created(Err(error)),
        ) == Negotiation::Finished(Err(TransportError::RTCPeerConnectionCreateOfferFailed(error))),
        Negotiation::begun(Some(connection), LocalKind::Answer).advanced(
            Some(connection),
            NegotiationEvent::Created(Err(error)),
        ) == Negotiation::Finished(Err(TransportError::RTCPeerConnectionCreateAnswerFailed(error))),
        forall|kind: LocalKind|
            #[trigger] Negotiation::begun(Some(connection), kind).advanced(
                Some(connection),
                NegotiationEvent::Created(Ok(description)),
            ).advanced(Some(connection), NegotiationEvent::LocalDescriptionSet(Err(error)))
                == Negotiation::Finished(
                Err(TransportError::RTCPeerConnectionSetLocalDescFailed(error)),
            ),
{
}

/// There is a description only after it was created, applied and gathered for, in this order.
pub proof fn law_negotiation_waits_its_turn(
    before: Negotiation,
    connection: Option<Arc<RTCPeerConnection>>,
    event: NegotiationEvent,
)
    ensures
        before.advanced(connection, event) matches Negotiation::Finished(Ok(d)) ==> {
            ||| before == Negotiation::Finished(Ok(d))
            ||| before == (Negotiation::Gathering { description: d }) && event is Gathered
        },
        before.advanced(connection, event) matches Negotiation::Gathering { description: d } ==> {
            ||| before == (Negotiation::Gathering { description: d })
            ||| {
                &&& before matches Negotiation::SettingLocal { request }
                &&& request.description == d
                &&& event matches NegotiationEvent::LocalDescriptionSet(Ok(_))
            }
        },
        before.advanced(connection, event) matches Negotiation::SettingLocal { request } ==> {
            ||| before == (Negotiation::SettingLocal { request })
            ||| {
                &&& before is Creating
                &&& event == NegotiationEvent::Created(Ok(request.description))
                &&& connection == Some(request.connection)
            }
        },
        before.advanced(connection, event) is Creating ==> before.advanced(connection, event)
            == before,
        before.advanced(connection, event) matches Negotiation::Finished(Err(_)) ==> {
            ||| before is Finished
            ||| event matches NegotiationEvent::Created(Err(_))
            ||| event matches NegotiationEvent::LocalDescriptionSet(Err(_))
            ||| connection is None
        },
{
}

/// From whatever state, an answer that is waited for carries the making of a description on: what
/// was created goes to the connection that the transport has, what was applied is waited for, and
/// what was waited for is the result.
pub proof fn law_negotiation_goes_on(
    connection: Option<Arc<RTCPeerConnection>>,
    asked: Arc<RTCPeerConnection>,
    kind: LocalKind,
    request: DescriptionRequest,
    description: SessionDescription,
    error: webrtc::error::Error,
)
    ensures
        connection matches Some(c) ==> (Negotiation::Creating { kind, connection: asked }).advanced(
            connection,
            NegotiationEvent::Created(Ok(description)),
        ) == (Negotiation::SettingLocal {
            request: DescriptionRequest { connection: c, description },
        }),
        connection is None ==> (Negotiation::Creating { kind, connection: asked }).advanced(
            connection,
            NegotiationEvent::Created(Ok(description)),
        ) == Negotiation::Finished(Err(TransportError::RTCPeerConnectionNotEstablish)),
        (Negotiation::SettingLocal { request }).advanced(
            connection,
            NegotiationEvent::LocalDescriptionSet(Ok(())),
        ) == (Negotiation::Gathering { description: request.description }),
        (Negotiation::SettingLocal { request }).advanced(
            connection,
            NegotiationEvent::LocalDescriptionSet(Err(error)),
        ) == Negotiation::Finished(Err(TransportError::RTCPeerConnectionSetLocalDescFailed(error))),
        (Negotiation::Gathering { description }).advanced(connection, NegotiationEvent::Gathered)
            == Negotiation::Finished(Ok(description)),
{
}

/// The making of a description begins and goes on with the connection that the transport has.
pub proof fn law_negotiation_is_the_transports(
    transport: &DefaultTransport,
    kind: LocalKind,
    begun: Negotiation,
    before: Negotiation,
    event: NegotiationEvent,
    after: Negotiation,
)
    requires
        call_ensures(Negotiation::begin, (transport, kind), begun),
        call_ensures(Negotiation::advance, (before, transport, event), after),
    ensures
        begun == Negotiation::begun(transport@.connection, kind),
        after == before.advanced(transport@.connection, event),
{
}

} // verus!
