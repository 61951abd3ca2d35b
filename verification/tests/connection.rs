use std::sync::{Arc, Mutex};

use rings_core::error::TransportError;
use rings_core::handshake::{Handshake, HandshakeOutcome};
use rings_core::ice_transport::{IceTransport, IceTrickleScheme, LocalKind};
use rings_core::negotiation::{Negotiation, NegotiationEvent};
use rings_core::promise::PromiseState;
use rings_core::registration::{Registration, RegistrationEvent, RemoteInfo};
use rings_core::startup::{MulticastDnsMode, Startup, StartupEvent};
use rings_core::transport::{ChannelWait, DefaultTransport};
use rings_core::types::{
    Address, Did, Event, IceCandidateType, IceConnectionState, IceCredentialType,
    IceGatheringState, IceProtocol, IceServer, LocalCandidate, PeerConnectionState, PublicKey, SdpType, SessionDescription, TricklePayload,
};
use tokio::runtime::Runtime;
use tokio::sync::mpsc::{unbounded_channel, UnboundedReceiver};
use tokio::sync::oneshot;
use tokio::sync::Mutex as AsyncMutex;
use webrtc::api::setting_engine::SettingEngine;
use webrtc::api::APIBuilder;
use webrtc::ice::mdns;
use webrtc::ice_transport::ice_candidate::{RTCIceCandidate, RTCIceCandidateInit};
use webrtc::ice_transport::ice_candidate_type::RTCIceCandidateType;
use webrtc::ice_transport::ice_connection_state::RTCIceConnectionState;
use webrtc::ice_transport::ice_protocol::RTCIceProtocol;
use webrtc::ice_transport::ice_server::RTCIceServer;
use webrtc::peer_connection::configuration::RTCConfiguration;
use webrtc::peer_connection::peer_connection_state::RTCPeerConnectionState;
use webrtc::peer_connection::sdp::sdp_type::RTCSdpType;
use webrtc::peer_connection::sdp::session_description::RTCSessionDescription;
use webrtc::util::vnet::net::{Net, NetConfig};
use webrtc::util::vnet::router::{Router, RouterConfig};

type Shared = Arc<Mutex<DefaultTransport>>;
type Promise = Arc<Mutex<PromiseState<oneshot::Sender<()>>>>;

fn sdp_type(kind: RTCSdpType) -> SdpType {
    match kind {
        RTCSdpType::Unspecified => SdpType::Unspecified,
        RTCSdpType::Offer => SdpType::Offer,
        RTCSdpType::Pranswer => SdpType::Pranswer,
        RTCSdpType::Answer => SdpType::Answer,
        RTCSdpType::Rollback => SdpType::Rollback,
    }
}

fn outside(description: &SessionDescription) -> RTCSessionDescription {
    let mut outside = RTCSessionDescription::default();
    outside.sdp = description.sdp.clone();
    outside.sdp_type = match description.sdp_type {
        SdpType::Unspecified => RTCSdpType::Unspecified,
        SdpType::Offer => RTCSdpType::Offer,
        SdpType::Pranswer => RTCSdpType::Pranswer,
        SdpType::Answer => RTCSdpType::Answer,
        SdpType::Rollback => RTCSdpType::Rollback,
    };
    outside
}

fn gathered(candidate: RTCIceCandidate) -> LocalCandidate {
    LocalCandidate {
        stats_id: candidate.stats_id,
        foundation: candidate.foundation,
        priority: candidate.priority,
        address: candidate.address,
        protocol: match candidate.protocol {
            RTCIceProtocol::Unspecified => IceProtocol::Unspecified,
            RTCIceProtocol::Udp => IceProtocol::Udp,
            RTCIceProtocol::Tcp => IceProtocol::Tcp,
        },
        port: candidate.port,
        typ: match candidate.typ {
            RTCIceCandidateType::Unspecified => IceCandidateType::Unspecified,
            RTCIceCandidateType::Host => IceCandidateType::Host,
            RTCIceCandidateType::Srflx => IceCandidateType::Srflx,
            RTCIceCandidateType::Prflx => IceCandidateType::Prflx,
            RTCIceCandidateType::Relay => IceCandidateType::Relay,
        },
        component: candidate.component,
        related_address: candidate.related_address,
        related_port: candidate.related_port,
        tcp_type: candidate.tcp_type,
    }
}

/// Joins a node with the given address to a virtual network.
async fn join(wan: &Arc<AsyncMutex<Router>>, address: &str) -> Arc<Net> {
    let net = Arc::new(Net::new(Some(NetConfig {
        static_ips: vec![address.to_string()],
        ..Default::default()
    })));
    let nic = net.get_nic().unwrap();
    wan.lock().await.add_net(Arc::clone(&nic)).await.unwrap();
    nic.lock().await.set_router(Arc::clone(wan)).await.unwrap();
    net
}

/// A started transport on a virtual network, and the events that it reports.
async fn prepare_transport(net: Arc<Net>) -> (Shared, UnboundedReceiver<Event>) {
    let stun = IceServer {
        urls: vec!["stun:stun.l.google.com:19302".to_string()],
        username: String::new(),
        credential: String::new(),
        credential_type: IceCredentialType::Unspecified,
    };
    let mut transport = DefaultTransport::new();
    let startup = transport.start(vec![stun], None);
    let answer = match &startup {
        Startup::CreatingConnection { config } => {
            let mut setting = SettingEngine::default();
            if !config.nat_1to1_ips.is_empty() {
                setting.set_nat_1to1_ips(config.nat_1to1_ips.clone(), RTCIceCandidateType::Host);
            }
            // There is no multicast on the virtual network.
            assert_eq!(config.multicast_dns_mode, MulticastDnsMode::QueryAndGather);
            setting.set_ice_multicast_dns_mode(mdns::MulticastDnsMode::Disabled);
            setting.set_vnet(Some(net));
            let servers = config.ice_servers.iter().map(|server| RTCIceServer {
                urls: server.urls.clone(),
                username: server.username.clone(),
                credential: server.credential.clone(),
                ..Default::default()
            });
            APIBuilder::new()
                .with_setting_engine(setting)
                .build()
                .new_peer_connection(RTCConfiguration {
                    ice_servers: servers.collect(),
                    ice_candidate_pool_size: config.ice_candidate_pool_size,
                    ..Default::default()
                })
                .await
        }
        _ => panic!("no connection was asked for"),
    };
    let startup = startup.advance(&mut transport, StartupEvent::ConnectionCreated(answer));
    let answer = match &startup {
        Startup::CreatingChannel { request } => {
            request.connection.create_data_channel(&request.label, None).await
        }
        _ => panic!("no channel was asked for"),
    };
    let startup = startup.advance(&mut transport, StartupEvent::ChannelCreated(answer));
    assert!(matches!(startup, Startup::Finished(Ok(()))));
    let callbacks = transport.apply_callback().unwrap();
    let shared = Arc::new(Mutex::new(transport));
    let keeper = Arc::clone(&shared);
    let handler = callbacks.on_ice_candidate;
    callbacks.connection.on_ice_candidate(Box::new(move |candidate| {
        handler.call(&mut keeper.lock().unwrap(), candidate.map(gathered));
        Box::pin(async {})
    }));
    let (sender, receiver) = unbounded_channel();
    let handler = callbacks.on_data_channel;
    let reports = sender.clone();
    callbacks.connection.on_data_channel(Box::new(move |channel| {
        let reports = reports.clone();
        let request = handler.call(channel);
        let handler = request.handler;
        request.channel.on_message(Box::new(move |message| {
            let _ = reports.send(handler.on_message(message.data.to_vec()));
            Box::pin(async {})
        }));
        Box::pin(async {})
    }));
    let handler = callbacks.on_ice_connection_state_change;
    let watched = Arc::clone(&shared);
    callbacks.connection.on_ice_connection_state_change(Box::new(move |state| {
        let state = match state {
            RTCIceConnectionState::Connected => IceConnectionState::Connected,
            RTCIceConnectionState::Disconnected => IceConnectionState::Disconnected,
            RTCIceConnectionState::Failed => IceConnectionState::Failed,
            RTCIceConnectionState::Closed => IceConnectionState::Closed,
            _ => IceConnectionState::Unspecified,
        };
        if let Some(event) = handler.call(&watched.lock().unwrap(), state) {
            let _ = sender.send(event);
        }
        Box::pin(async {})
    }));
    (shared, receiver)
}

async fn get_handshake_info(
    shared: &Shared,
    kind: SdpType,
) -> Result<TricklePayload, TransportError> {
    let mut handshake = shared.lock().unwrap().get_handshake_info(kind);
    let mut complete = None;
    loop {
        let concluded = handshake.conclude(&shared.lock().unwrap());
        handshake = match concluded {
            HandshakeOutcome::Unfinished(handshake) => handshake,
            HandshakeOutcome::Unwritable => panic!("a candidate cannot be written"),
            HandshakeOutcome::Finished(payload) => return payload,
        };
        let event = match &handshake {
            Handshake::Negotiating { negotiation, .. } => match negotiation {
                Negotiation::Creating { kind, connection } => {
                    complete = Some(connection.gathering_complete_promise().await);
                    let answer = match kind {
                        LocalKind::Offer => connection.create_offer(None).await,
                        LocalKind::Answer => connection.create_answer(None).await,
                    };
                    NegotiationEvent::Created(answer.map(|created| SessionDescription {
                        sdp_type: sdp_type(created.sdp_type),
                        sdp: created.sdp,
                    }))
                }
                Negotiation::SettingLocal { request } => {
                    let description = outside(&request.description);
                    NegotiationEvent::LocalDescriptionSet(
                        request.connection.set_local_description(description).await,
                    )
                }
                _ => {
                    let _ = complete.as_mut().unwrap().recv().await;
                    NegotiationEvent::Gathered
                }
            },
            _ => panic!("there is nothing to wait for"),
        };
        handshake = handshake.advance(&shared.lock().unwrap(), event);
    }
}

async fn register_remote_info(shared: &Shared, info: RemoteInfo) -> Result<Did, TransportError> {
    let mut registration = shared.lock().unwrap().register_remote_info(info);
    loop {
        let event = match registration {
            Registration::SettingRemote { ref request, .. } => {
                let description = outside(&request.description);
                RegistrationEvent::RemoteDescriptionSet(
                    request.connection.set_remote_description(description).await,
                )
            }
            Registration::AddingCandidate { ref attempt, .. } => {
                let candidate = RTCIceCandidateInit {
                    candidate: attempt.candidate.candidate.clone(),
                    sdp_mid: attempt.candidate.sdp_mid.clone(),
                    sdp_mline_index: attempt.candidate.sdp_m_line_index,
                    username_fragment: attempt.candidate.username_fragment.clone(),
                };
                RegistrationEvent::CandidateAdded(
                    attempt.connection.add_ice_candidate(candidate).await,
                )
            }
            Registration::Finished(result) => return result,
        };
        registration = registration.advance(&mut shared.lock().unwrap(), event);
    }
}

fn signed(payload: TricklePayload, n: u8) -> RemoteInfo {
    let key = PublicKey { compressed: [2; 33], account: Address { bytes: [n; 20] } };
    RemoteInfo {
        verified: true,
        payload,
        addr: key.address().into(),
        authorizer_pubkey: Some(key),
    }
}

fn states(shared: &Shared) -> (Option<IceGatheringState>, Option<IceConnectionState>) {
    let transport = shared.lock().unwrap();
    (transport.ice_gathering_state(), transport.ice_connection_state())
}

/// Registers the promise of a connection, and gives what tells that it was settled.
fn expect_connection(shared: &Shared) -> (Promise, oneshot::Receiver<()>) {
    let awaited = shared.lock().unwrap().connect_success_promise().unwrap();
    let promise: Promise = Arc::new(Mutex::new(awaited.promise));
    let settled = Arc::clone(&promise);
    awaited.connection.on_peer_connection_state_change(Box::new(move |state| {
        let state = match state {
            RTCPeerConnectionState::Connected => PeerConnectionState::Connected,
            RTCPeerConnectionState::Failed => PeerConnectionState::Failed,
            _ => PeerConnectionState::Unspecified,
        };
        let woken = settled.lock().unwrap().on_peer_connection_state_change(state);
        if let Some(waker) = woken {
            let _ = waker.send(());
        }
        Box::pin(async {})
    }));
    assert!(promise.lock().unwrap().handler_registered(&awaited.connection).is_none());
    let (waker, woken) = oneshot::channel();
    assert!(promise.lock().unwrap().poll(waker).is_none());
    // The connection may have been made before anybody waited for the promise.
    let late = promise.lock().unwrap().handler_registered(&awaited.connection);
    if let Some(waker) = late {
        let _ = waker.send(());
    }
    (promise, woken)
}

/// Waits until a promise is settled, and asks for its outcome.
async fn outcome(promise: (Promise, oneshot::Receiver<()>)) -> Result<(), TransportError> {
    promise.1.await.unwrap();
    let (waker, _) = oneshot::channel();
    let outcome = promise.0.lock().unwrap().poll(waker);
    outcome.unwrap()
}

#[test]
fn test_ice_connection_establish() {
    Runtime::new().unwrap().block_on(async {
        let wan = Router::new(RouterConfig {
            cidr: "1.2.3.0/24".to_string(),
            ..Default::default()
        });
        let wan = Arc::new(AsyncMutex::new(wan.unwrap()));
        let net1 = join(&wan, "1.2.3.4").await;
        let net2 = join(&wan, "1.2.3.5").await;
        wan.lock().await.start().await.unwrap();

        let (transport1, mut events1) = prepare_transport(net1).await;
        let (transport2, mut events2) = prepare_transport(net2).await;
        let new = (Some(IceGatheringState::New), Some(IceConnectionState::New));
        let complete = (Some(IceGatheringState::Complete), Some(IceConnectionState::New));
        assert_eq!(states(&transport1), new);
        assert_eq!(states(&transport2), new);

        // Peer 1 tries to connect peer 2.
        let info1 = get_handshake_info(&transport1, SdpType::Offer).await.unwrap();
        assert!(info1.candidates[0].candidate.contains(" 1.2.3.4 "));
        assert_eq!(states(&transport1), complete);
        assert_eq!(states(&transport2), new);

        // Peer 2 takes in the offer.
        let addr1 = register_remote_info(&transport2, signed(info1, 1)).await.unwrap();
        assert_eq!(addr1, Did { bytes: [1; 20] });
        assert_eq!(states(&transport1), complete);
        assert_eq!(states(&transport2), new);

        // Peer 2 creates an answer.
        let info2 = get_handshake_info(&transport2, SdpType::Answer).await.unwrap();
        assert_eq!(states(&transport1), complete);
        assert_eq!(
            states(&transport2),
            (Some(IceGatheringState::Complete), Some(IceConnectionState::Checking))
        );

        // Peer 1 takes in the answer.
        let addr2 = register_remote_info(&transport1, signed(info2, 2)).await.unwrap();
        assert_eq!(addr2, Did { bytes: [2; 20] });
        let promise1 = expect_connection(&transport1);
        let promise2 = expect_connection(&transport2);
        assert!(outcome(promise1).await.is_ok());
        assert!(outcome(promise2).await.is_ok());
        assert_eq!(states(&transport1).1, Some(IceConnectionState::Connected));
        assert_eq!(states(&transport2).1, Some(IceConnectionState::Connected));
        assert!(transport1.lock().unwrap().is_connected());
        assert!(!transport1.lock().unwrap().is_disconnected());

        // Each reports the other as reached.
        let id1 = transport1.lock().unwrap().id;
        match events1.recv().await.unwrap() {
            Event::RegisterTransport((did, id)) => {
                assert_eq!(did, Did { bytes: [2; 20] });
                assert_eq!(id, id1);
            }
            _ => panic!("another event was reported"),
        }
        assert!(matches!(events2.recv().await.unwrap(), Event::RegisterTransport(_)));

        // A connected promise that comes too late is not kept.
        let late = transport1.lock().unwrap().connect_success_promise::<u8>().unwrap();
        let mut promise = late.promise;
        assert_eq!(promise.handler_registered(&late.connection), None);
        assert!(!promise.completed);
        assert!(promise.poll(1).is_none());
        assert_eq!(promise.handler_registered(&late.connection), Some(1));

        // What one sends on its open channel arrives at the other.
        let wait = transport1.lock().unwrap().wait_for_data_channel_open().unwrap();
        if let ChannelWait::UntilOpen { channel } = wait {
            let (open, opened) = oneshot::channel();
            channel.on_open(Box::new(move || {
                let _ = open.send(());
                Box::pin(async {})
            }));
            opened.await.unwrap();
        }
        assert!(matches!(
            transport1.lock().unwrap().wait_for_data_channel_open(),
            Ok(ChannelWait::Open)
        ));
        let request = transport1.lock().unwrap().send_message(b"hello").unwrap();
        let answer = request.channel.send(&bytes::Bytes::from(request.data.clone())).await;
        assert!(matches!(answer, Ok(5)));
        assert!(request.message_sent(answer).is_ok());
        match events2.recv().await.unwrap() {
            Event::DataChannelMessage(data) => assert_eq!(data, b"hello"),
            _ => panic!("another event was reported"),
        }

        // A transport that is closed counts as lost.
        let connection = transport1.lock().unwrap().close().unwrap();
        assert!(DefaultTransport::connection_closed(connection.close().await).is_ok());
        match events1.recv().await.unwrap() {
            Event::ConnectClosed((did, id)) => {
                assert_eq!(did, Did { bytes: [2; 20] });
                assert_eq!(id, id1);
            }
            _ => panic!("another event was reported"),
        }
        assert!(transport1.lock().unwrap().is_disconnected());
        assert!(!transport1.lock().unwrap().is_connected());
        wan.lock().await.stop().await.unwrap();
    });
}
