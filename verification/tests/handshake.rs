use rings_core::error::TransportError;
use rings_core::handshake::{Handshake, HandshakeOutcome};
use rings_core::ice_transport::{IceTransport, IceTrickleScheme, LocalKind};
use rings_core::negotiation::{Negotiation, NegotiationEvent};
use rings_core::registration::{Registration, RegistrationEvent, RemoteInfo};
use rings_core::startup::StartupEvent;
use rings_core::transport::DefaultTransport;
use rings_core::types::{
    Address, Did, IceCandidateType, IceProtocol, LocalCandidate, PublicKey, SdpType,
    SessionDescription, TricklePayload,
};
use tokio::runtime::Runtime;
use webrtc::api::APIBuilder;
use webrtc::peer_connection::configuration::RTCConfiguration;
use webrtc::Error;

/// A transport with a peer connection that has not met anybody.
async fn established() -> DefaultTransport {
    let mut transport = DefaultTransport::new();
    let answer = APIBuilder::new()
        .build()
        .new_peer_connection(RTCConfiguration::default())
        .await;
    let startup = transport.start(vec![], None);
    startup.advance(&mut transport, StartupEvent::ConnectionCreated(answer));
    transport
}

fn described(sdp_type: SdpType, sdp: &str) -> SessionDescription {
    SessionDescription { sdp_type, sdp: sdp.to_string() }
}

fn candidate(address: &str, typ: IceCandidateType) -> LocalCandidate {
    LocalCandidate {
        stats_id: "candidate:1".to_string(),
        foundation: "4207374051".to_string(),
        priority: 2130706431,
        address: address.to_string(),
        protocol: IceProtocol::Udp,
        port: 53987,
        typ,
        component: 1,
        related_address: "10.0.0.7".to_string(),
        related_port: 4000,
        tcp_type: String::new(),
    }
}

fn gather(transport: &mut DefaultTransport, candidates: Vec<LocalCandidate>) {
    let handler = transport.apply_callback().unwrap().on_ice_candidate;
    for candidate in candidates {
        handler.call(transport, Some(candidate));
    }
}

fn key() -> PublicKey {
    PublicKey { compressed: [2; 33], account: Address { bytes: [7; 20] } }
}

fn message(payload: TricklePayload) -> RemoteInfo {
    RemoteInfo {
        verified: true,
        payload,
        addr: Did { bytes: [9; 20] },
        authorizer_pubkey: Some(key()),
    }
}

fn plain_payload() -> TricklePayload {
    TricklePayload {
        sdp: "{\"type\":\"offer\",\"sdp\":\"v=0\"}".to_string(),
        candidates: vec![],
    }
}

#[test]
fn negotiation_makes_the_description() {
    Runtime::new().unwrap().block_on(async {
        let transport = established().await;
        let negotiation = transport.get_offer();
        assert!(matches!(negotiation, Negotiation::Creating { kind: LocalKind::Offer, .. }));
        let created = Ok(described(SdpType::Offer, "v=0"));
        let negotiation = negotiation.advance(&transport, NegotiationEvent::Created(created));
        match &negotiation {
            Negotiation::SettingLocal { request } => assert_eq!(request.description.sdp, "v=0"),
            _ => panic!("the description is not applied"),
        }
        let negotiation =
            negotiation.advance(&transport, NegotiationEvent::LocalDescriptionSet(Ok(())));
        assert!(matches!(negotiation, Negotiation::Gathering { .. }));
        match negotiation.advance(&transport, NegotiationEvent::Gathered) {
            Negotiation::Finished(Ok(description)) => {
                assert_eq!(description.sdp_type, SdpType::Offer);
                assert_eq!(description.sdp, "v=0");
            }
            _ => panic!("the description is not finished"),
        }
    });
}

#[test]
fn negotiation_without_connection() {
    let transport = DefaultTransport::new();
    for negotiation in [transport.get_offer(), transport.get_answer()] {
        assert!(matches!(
            negotiation,
            Negotiation::Finished(Err(TransportError::RTCPeerConnectionNotEstablish))
        ));
    }
}

#[test]
fn negotiation_errors() {
    Runtime::new().unwrap().block_on(async {
        let transport = established().await;
        let event = NegotiationEvent::Created(Err(Error::ErrConnectionClosed));
        assert!(matches!(
            transport.get_offer().advance(&transport, event),
            Negotiation::Finished(Err(TransportError::RTCPeerConnectionCreateOfferFailed(
                Error::ErrConnectionClosed
            )))
        ));
        let event = NegotiationEvent::Created(Err(Error::ErrNoRemoteDescription));
        assert!(matches!(
            transport.get_answer().advance(&transport, event),
            Negotiation::Finished(Err(TransportError::RTCPeerConnectionCreateAnswerFailed(
                Error::ErrNoRemoteDescription
            )))
        ));
        let event = NegotiationEvent::Created(Ok(described(SdpType::Offer, "v=0")));
        let negotiation = transport.get_offer().advance(&transport, event);
        let event = NegotiationEvent::LocalDescriptionSet(Err(Error::ErrConnectionClosed));
        assert!(matches!(
            negotiation.advance(&transport, event),
            Negotiation::Finished(Err(TransportError::RTCPeerConnectionSetLocalDescFailed(
                Error::ErrConnectionClosed
            )))
        ));
    });
}

#[test]
fn negotiation_ignores_what_it_does_not_wait_for() {
    Runtime::new().unwrap().block_on(async {
        let transport = established().await;
        let negotiation = transport.get_answer().advance(&transport, NegotiationEvent::Gathered);
        assert!(matches!(negotiation, Negotiation::Creating { kind: LocalKind::Answer, .. }));
        let finished = Negotiation::Finished(Ok(described(SdpType::Answer, "v=0")));
        let event = NegotiationEvent::Created(Err(Error::ErrConnectionClosed));
        assert!(matches!(finished.advance(&transport, event), Negotiation::Finished(Ok(_))));
    });
}

/// Runs the making of a handshake message with a peer connection that does what it is asked.
fn make(transport: &DefaultTransport, kind: SdpType) -> SessionDescription {
    let handshake = transport.get_handshake_info(kind);
    let made = match &handshake {
        Handshake::Negotiating {
            negotiation: Negotiation::Creating { kind: LocalKind::Offer, .. },
            ..
        } => described(SdpType::Offer, "v=0"),
        Handshake::Negotiating {
            negotiation: Negotiation::Creating { kind: LocalKind::Answer, .. },
            ..
        } => described(SdpType::Answer, "v=0"),
        _ => panic!("no description was asked for"),
    };
    let handshake = handshake
        .advance(transport, NegotiationEvent::Created(Ok(made)))
        .advance(transport, NegotiationEvent::LocalDescriptionSet(Ok(())))
        .advance(transport, NegotiationEvent::Gathered);
    match handshake {
        Handshake::Described(description) => description,
        _ => panic!("there is no description"),
    }
}

#[test]
fn handshake_has_the_requested_kind() {
    Runtime::new().unwrap().block_on(async {
        let transport = established().await;
        for kind in [
            SdpType::Offer,
            SdpType::Answer,
            SdpType::Pranswer,
            SdpType::Rollback,
            SdpType::Unspecified,
        ] {
            let description = make(&transport, kind);
            assert_eq!(description.sdp_type, kind);
            assert_eq!(description.sdp, "v=0");
        }
    });
}

#[test]
fn handshake_for_a_provisional_answer_is_an_offer() {
    Runtime::new().unwrap().block_on(async {
        let transport = established().await;
        assert!(matches!(
            transport.get_handshake_info(SdpType::Pranswer),
            Handshake::Negotiating {
                kind: SdpType::Pranswer,
                negotiation: Negotiation::Creating { kind: LocalKind::Offer, .. }
            }
        ));
    });
}

#[test]
fn handshake_fails_with_its_description() {
    let transport = DefaultTransport::new();
    assert!(matches!(
        transport.get_handshake_info(SdpType::Offer),
        Handshake::Failed(TransportError::RTCPeerConnectionNotEstablish)
    ));
    Runtime::new().unwrap().block_on(async {
        let transport = established().await;
        let event = NegotiationEvent::Created(Err(Error::ErrNoRemoteDescription));
        let failed = transport.get_handshake_info(SdpType::Answer).advance(&transport, event);
        let failed = failed.advance(&transport, NegotiationEvent::Gathered);
        assert!(matches!(
            failed,
            Handshake::Failed(TransportError::RTCPeerConnectionCreateAnswerFailed(_))
        ));
    });
}

#[test]
fn handshake_needs_a_candidate() {
    let transport = DefaultTransport::new();
    assert!(matches!(
        transport.handshake_payload(&described(SdpType::Offer, "v=0")),
        Some(Err(TransportError::FailedOnGatherLocalCandidate))
    ));
}

#[test]
fn candidates_are_written_for_the_peer() {
    Runtime::new().unwrap().block_on(async {
        let mut transport = established().await;
        gather(
            &mut transport,
            vec![candidate("10.0.0.1", IceCandidateType::Host), candidate("203.0.113.9", IceCandidateType::Srflx)],
        );
        let payload = transport
            .handshake_payload(&described(SdpType::Offer, "v=0\r\n\"quoted\""))
            .unwrap()
            .unwrap();
        assert_eq!(payload.sdp, "{\"type\":\"offer\",\"sdp\":\"v=0\\r\\n\\\"quoted\\\"\"}");
        assert_eq!(payload.candidates.len(), 2);
        assert_eq!(
            payload.candidates[0].candidate,
            "candidate:4207374051 1 udp 2130706431 10.0.0.1 53987 typ host"
        );
        assert_eq!(
            payload.candidates[1].candidate,
            "candidate:4207374051 1 udp 2130706431 203.0.113.9 53987 typ srflx raddr 10.0.0.7 rport 4000"
        );
        for written in &payload.candidates {
            assert_eq!(written.sdp_mid, Some(String::new()));
            assert_eq!(written.sdp_m_line_index, Some(0));
            assert_eq!(written.username_fragment, None);
        }
    });
}

#[test]
fn protocols_and_types_have_names() {
    Runtime::new().unwrap().block_on(async {
        for (protocol, typ, written) in [
            (IceProtocol::Udp, IceCandidateType::Host, "udp 2130706431 10.0.0.1 53987 typ host"),
            (
                IceProtocol::Udp,
                IceCandidateType::Prflx,
                "udp 2130706431 10.0.0.1 53987 typ prflx raddr 10.0.0.7 rport 4000",
            ),
            (
                IceProtocol::Udp,
                IceCandidateType::Relay,
                "udp 2130706431 10.0.0.1 53987 typ relay raddr 10.0.0.7 rport 4000",
            ),
            (IceProtocol::Tcp, IceCandidateType::Host, "tcp 2130706431 10.0.0.1 53987 typ host"),
        ] {
            let mut transport = established().await;
            let mut local = candidate("10.0.0.1", typ);
            local.protocol = protocol;
            gather(&mut transport, vec![local]);
            let line = &transport.written_candidates().unwrap()[0].candidate;
            assert_eq!(line, &format!("candidate:4207374051 1 {}", written));
        }
    });
    assert_eq!(IceProtocol::Unspecified.name(), "unspecified");
    assert_eq!(IceCandidateType::Unspecified.name(), "unspecified");
    assert_eq!(IceCandidateType::Srflx.name(), "srflx");
}

#[test]
fn concluded_handshake_carries_its_description() {
    Runtime::new().unwrap().block_on(async {
        let mut transport = established().await;
        let unfinished = transport.get_handshake_info(SdpType::Offer).conclude(&transport);
        assert!(matches!(
            unfinished,
            HandshakeOutcome::Unfinished(Handshake::Negotiating { kind: SdpType::Offer, .. })
        ));
        let failed = Handshake::Failed(TransportError::RTCPeerConnectionNotEstablish);
        assert!(matches!(
            failed.conclude(&transport),
            HandshakeOutcome::Finished(Err(TransportError::RTCPeerConnectionNotEstablish))
        ));
        let made = Handshake::Described(described(SdpType::Answer, "v=0"));
        assert!(matches!(
            made.conclude(&transport),
            HandshakeOutcome::Finished(Err(TransportError::FailedOnGatherLocalCandidate))
        ));
        gather(&mut transport, vec![candidate("10.0.0.1", IceCandidateType::Host)]);
        let made = Handshake::Described(described(SdpType::Answer, "v=0"));
        match made.conclude(&transport) {
            HandshakeOutcome::Finished(Ok(payload)) => {
                assert_eq!(payload.sdp, "{\"type\":\"answer\",\"sdp\":\"v=0\"}");
                assert_eq!(payload.candidates.len(), 1);
            }
            _ => panic!("there is no message"),
        }
        gather(&mut transport, vec![candidate("10.0.0.1", IceCandidateType::Unspecified)]);
        let made = Handshake::Described(described(SdpType::Answer, "v=0"));
        assert!(matches!(made.conclude(&transport), HandshakeOutcome::Unwritable));
    });
}

#[test]
fn nothing_is_written_of_unwritable_candidates() {
    Runtime::new().unwrap().block_on(async {
        let mut transport = established().await;
        gather(&mut transport, vec![candidate("10.0.0.1", IceCandidateType::Host), candidate("10.0.0.1", IceCandidateType::Unspecified)]);
        assert!(transport.written_candidates().is_none());
        assert!(transport.handshake_payload(&described(SdpType::Offer, "v=0")).is_none());
        let mut transport = established().await;
        let mut unranked = candidate("10.0.0.1", IceCandidateType::Host);
        unranked.priority = 0;
        unranked.component = 257;
        gather(&mut transport, vec![unranked]);
        assert!(transport.written_candidates().is_none());
    });
}

#[test]
fn registration_needs_a_signature() {
    let transport = DefaultTransport::new();
    let mut info = message(plain_payload());
    info.verified = false;
    assert!(matches!(
        transport.register_remote_info(info),
        Registration::Finished(Err(TransportError::VerifySignatureFailed))
    ));
}

#[test]
fn registration_needs_a_readable_description() {
    let transport = DefaultTransport::new();
    let mut payload = plain_payload();
    payload.sdp = "{\"type\":\"neither\",\"sdp\":\"v=0\"}".to_string();
    assert!(matches!(
        transport.register_remote_info(message(payload)),
        Registration::Finished(Err(TransportError::Deserialize(_)))
    ));
}

#[test]
fn registration_needs_a_connection() {
    let transport = DefaultTransport::new();
    assert!(matches!(
        transport.register_remote_info(message(plain_payload())),
        Registration::Finished(Err(TransportError::RTCPeerConnectionNotEstablish))
    ));
}

#[test]
fn registration_fails_with_its_description() {
    Runtime::new().unwrap().block_on(async {
        let mut transport = established().await;
        let registration = transport.register_remote_info(message(plain_payload()));
        let event = RegistrationEvent::RemoteDescriptionSet(Err(Error::ErrConnectionClosed));
        assert!(matches!(
            registration.advance(&mut transport, event),
            Registration::Finished(Err(TransportError::RTCPeerConnectionSetRemoteDescFailed(
                Error::ErrConnectionClosed
            )))
        ));
        assert!(!transport.knows_pubkey());
    });
}

#[test]
fn registration_without_key_leaves_the_transport_alone() {
    Runtime::new().unwrap().block_on(async {
        let mut transport = established().await;
        let mut info = message(plain_payload());
        info.authorizer_pubkey = None;
        let registration = transport.register_remote_info(info);
        let event = RegistrationEvent::RemoteDescriptionSet(Ok(()));
        match registration.advance(&mut transport, event) {
            Registration::Finished(Ok(addr)) => assert_eq!(addr, Did { bytes: [9; 20] }),
            _ => panic!("the message was not taken in"),
        }
        assert!(!transport.knows_pubkey());
    });
}

#[test]
fn registration_without_key_keeps_the_one_that_is_known() {
    Runtime::new().unwrap().block_on(async {
        let mut transport = established().await;
        let registration = transport.register_remote_info(message(plain_payload()));
        registration.advance(&mut transport, RegistrationEvent::RemoteDescriptionSet(Ok(())));
        assert_eq!(transport.pubkey().account.bytes, [7; 20]);
        let mut info = message(plain_payload());
        info.authorizer_pubkey = None;
        let registration = transport.register_remote_info(info);
        registration.advance(&mut transport, RegistrationEvent::RemoteDescriptionSet(Ok(())));
        assert_eq!(transport.pubkey().account.bytes, [7; 20]);
        let mut info = message(plain_payload());
        info.authorizer_pubkey =
            Some(PublicKey { compressed: [3; 33], account: Address { bytes: [8; 20] } });
        let registration = transport.register_remote_info(info);
        registration.advance(&mut transport, RegistrationEvent::RemoteDescriptionSet(Ok(())));
        assert_eq!(transport.pubkey().account.bytes, [8; 20]);
    });
}

#[test]
fn registration_ignores_what_it_does_not_wait_for() {
    Runtime::new().unwrap().block_on(async {
        let mut transport = established().await;
        let registration = transport.register_remote_info(message(plain_payload()));
        let event = RegistrationEvent::CandidateAdded(Ok(()));
        assert!(matches!(
            registration.advance(&mut transport, event),
            Registration::SettingRemote { .. }
        ));
    });
}

#[test]
fn handshake_gives_the_peer_what_was_put_into_it() {
    Runtime::new().unwrap().block_on(async {
        let mut sender = established().await;
        gather(
            &mut sender,
            vec![candidate("10.0.0.1", IceCandidateType::Host), candidate("10.0.0.2", IceCandidateType::Host)],
        );
        let description = make(&sender, SdpType::Pranswer);
        let payload = sender.handshake_payload(&description).unwrap().unwrap();
        let mut peer = established().await;
        let registration = peer.register_remote_info(message(payload));
        match &registration {
            Registration::SettingRemote { request, .. } => {
                assert_eq!(request.description.sdp_type, SdpType::Pranswer);
                assert_eq!(request.description.sdp, "v=0");
            }
            _ => panic!("the description is not applied"),
        }
        let mut registration =
            registration.advance(&mut peer, RegistrationEvent::RemoteDescriptionSet(Ok(())));
        for address in ["10.0.0.1", "10.0.0.2"] {
            assert!(!peer.knows_pubkey());
            match &registration {
                Registration::AddingCandidate { attempt, .. } => assert_eq!(
                    attempt.candidate.candidate,
                    format!("candidate:4207374051 1 udp 2130706431 {} 53987 typ host", address)
                ),
                _ => panic!("the candidate is not tried"),
            }
            let refused = Err(Error::ErrNoRemoteDescription);
            registration =
                registration.advance(&mut peer, RegistrationEvent::CandidateAdded(refused));
        }
        match registration {
            Registration::Finished(Ok(addr)) => assert_eq!(addr, Did { bytes: [9; 20] }),
            _ => panic!("the message was not taken in"),
        }
        assert_eq!(peer.pubkey().account.bytes, [7; 20]);
    });
}
