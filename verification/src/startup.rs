//! The start of a transport: create the peer connection, then a data channel on it.
use vstd::prelude::*;

use std::sync::Arc;
use webrtc::data_channel::RTCDataChannel;
use webrtc::peer_connection::RTCPeerConnection;

use crate::error::TransportError;
use crate::ice_transport::IceTransport;
use crate::transport::{ChannelRequest, DefaultTransport, TransportView};
use crate::types::IceServer;

verus! {

/// How many candidates a peer connection gathers ahead of time.
pub const ICE_CANDIDATE_POOL_SIZE: u8 = 100;

/// How a peer connection takes part in multicast DNS.
#[derive(Clone, Copy, Debug, PartialEq, Eq, Structural)]
pub enum MulticastDnsMode {
    /// Resolve the names of remote candidates.
    QueryOnly,
    /// Resolve those names, and announce local candidates by name.
    QueryAndGather,
}

/// What a peer connection is created with.
#[derive(Debug)]
pub struct PeerConfig {
    /// The servers that help to find candidates.
    pub ice_servers: Vec<IceServer>,
    /// How many candidates to gather ahead of time.
    pub ice_candidate_pool_size: u8,
    /// The addresses to announce in place of those of the host candidates.
    pub nat_1to1_ips: Vec<String>,
    /// The part to take in multicast DNS.
    pub multicast_dns_mode: MulticastDnsMode,
}

/// The start of a transport, as far as it has come.
#[derive(Debug)]
pub enum Startup {
    /// Create a peer connection.
    CreatingConnection { config: PeerConfig },
    /// Have the peer connection create a data channel.
    CreatingChannel { request: ChannelRequest },
    /// The transport is started, or why it is not.
    Finished(Result<(), TransportError>),
}

/// What was created.
pub enum StartupEvent {
    /// The peer connection, or why there is none.
    ConnectionCreated(Result<RTCPeerConnection, webrtc::error::Error>),
    /// The data channel, or why there is none.
    ChannelCreated(Result<Arc<RTCDataChannel>, webrtc::error::Error>),
}

impl PeerConfig {
    /// The configuration for the given servers and, if there is one, the external address.
    pub open spec fn is_for(
        self,
        ice_servers: Vec<IceServer>,
        external_ip: Option<String>,
    ) -> bool {
        &&& self.ice_servers == ice_servers
        &&& self.ice_candidate_pool_size == 100
        &&& match external_ip {
            Some(address) => {
                &&& self.nat_1to1_ips@ == seq![address]
                &&& self.multicast_dns_mode is QueryOnly
            },
            None => {
                &&& self.nat_1to1_ips@ == Seq::<String>::empty()
                &&& self.multicast_dns_mode is QueryAndGather
            },
        }
    }
}

impl Startup {
    /// How the start begins.
    pub open spec fn begins(
        startup: Startup,
        ice_servers: Vec<IceServer>,
        external_ip: Option<String>,
    ) -> bool {
        startup matches Startup::CreatingConnection { config } && config.is_for(
            ice_servers,
            external_ip,
        )
    }

    /// How the start goes on after `event`, and what becomes of the transport. An event that is
    /// not waited for changes nothing.
    pub open spec fn steps(
        before: (Startup, TransportView),
        event: StartupEvent,
        after: (Startup, TransportView),
    ) -> bool {
        match (before.0, event) {
            (Startup::CreatingConnection { .. }, StartupEvent::ConnectionCreated(answer)) => {
                match answer {
                    Ok(connection) => {
                        &&& after.1 == (TransportView {
                            connection: Some(Arc::new(connection)),
                            ..before.1
                        })
                        &&& after.0 matches Startup::CreatingChannel { request }
                            && request.connection == Arc::new(connection)
                            && request.label@ == "rings"@
                    },
                    Err(e) => {
                        &&& after.1 == before.1
                        &&& after.0 == Startup::Finished(
                            Err(TransportError::RTCPeerConnectionCreateFailed(e)),
                        )
                    },
                }
            },
            (Startup::CreatingChannel { .. }, StartupEvent::ChannelCreated(answer)) => {
                match answer {
                    Ok(channel) => {
                        &&& after.1 == (TransportView { data_channel: Some(channel), ..before.1 })
                        &&& after.0 == Startup::Finished(Ok(()))
                    },
                    Err(_) => {
                        &&& after.1 == before.1
                        &&& after.0 == Startup::Finished(
                            Err(TransportError::RTCDataChannelNotReady),
                        )
                    },
                }
            },
            _ => after == before,
        }
    }

    /// Begins to start a transport.
    pub fn begin(ice_servers: Vec<IceServer>, external_ip: Option<String>) -> (startup: Startup)
        ensures
            Self::begins(startup, ice_servers, external_ip),
    {
        let mut nat_1to1_ips: Vec<String> = Vec::new();
        let multicast_dns_mode = match external_ip {
            Some(address) => {
                nat_1to1_ips.push(address);
                MulticastDnsMode::QueryOnly
            },
            // Gathering by name cannot be used where the host candidates' addresses are mapped.
            None => MulticastDnsMode::QueryAndGather,
        };
        Startup::CreatingConnection {
            config: PeerConfig {
                ice_servers,
                ice_candidate_pool_size: ICE_CANDIDATE_POOL_SIZE,
                nat_1to1_ips,
                multicast_dns_mode,
            },
        }
    }

    /// Carries on with what was created.
    pub fn advance(self, transport: &mut DefaultTransport, event: StartupEvent) -> (next: Startup)
        ensures
            Self::steps((self, old(transport)@), event, (next, final(transport)@)),
    {
        match (self, event) {
            (Startup::CreatingConnection { .. }, StartupEvent::ConnectionCreated(answer)) => {
                match transport.connection_created(answer) {
                    Ok(_) => match transport.setup_channel("rings") {
                        Ok(request) => Startup::CreatingChannel { request },
                        Err(e) => Startup::Finished(Err(e)),
                    },
                    Err(e) => Startup::Finished(Err(e)),
                }
            },
            (Startup::CreatingChannel { .. }, StartupEvent::ChannelCreated(answer)) => {
                Startup::Finished(transport.channel_created(answer))
            },
            (unchanged, _) => unchanged,
        }
    }
}

/// Local candidates are announced by name only where their addresses are not mapped.
pub proof fn law_no_names_for_mapped_addresses(
    config: PeerConfig,
    ice_servers: Vec<IceServer>,
    external_ip: Option<String>,
)
    requires
        config.is_for(ice_servers, external_ip),
    ensures
        config.multicast_dns_mode is QueryAndGather <==> config.nat_1to1_ips@.len() == 0,
{
}

/// A transport whose start succeeds has the peer connection and the data channel that were
/// created for it, and is otherwise as it was.
pub proof fn law_started_transport_has_both(
    first: (Startup, TransportView),
    connection: RTCPeerConnection,
    second: (Startup, TransportView),
    channel: Arc<RTCDataChannel>,
    third: (Startup, TransportView),
)
    requires
        first.0 is CreatingConnection,
        Startup::steps(first, StartupEvent::ConnectionCreated(Ok(connection)), second),
        Startup::steps(second, StartupEvent::ChannelCreated(Ok(channel)), third),
    ensures
        third.0 == Startup::Finished(Ok(())),
        third.1 == (TransportView {
            connection: Some(Arc::new(connection)),
            data_channel: Some(channel),
            ..first.1
        }),
{
}

/// A start that fails does not take away what the transport has.
pub proof fn law_failed_start_keeps(
    before: (Startup, TransportView),
    event: StartupEvent,
    after: (Startup, TransportView),
)
    requires
        !(before.0 is Finished),
        Startup::steps(before, event, after),
        after.0 matches Startup::Finished(Err(_)),
    ensures
        after.1 == before.1,
{
}

/// A peer connection is asked for with every server that was given, in the given order, with the
/// external address if there is one, and with a pool of a hundred candidates.
pub proof fn law_configuration_is_what_was_given(
    startup: Startup,
    ice_servers: Vec<IceServer>,
    external_ip: Option<String>,
)
    requires
        Startup::begins(startup, ice_servers, external_ip),
    ensures
        startup matches Startup::CreatingConnection { config } && {
            &&& config.ice_servers@.len() == ice_servers@.len()
            &&& forall|i: int|
                0 <= i < ice_servers@.len() ==> #[trigger] config.ice_servers@[i] == ice_servers@[i]
            &&& config.ice_candidate_pool_size == 100
            &&& external_ip is Some ==> config.nat_1to1_ips@.len() == 1
                && config.nat_1to1_ips@[0] == external_ip->0 && config.multicast_dns_mode
                == MulticastDnsMode::QueryOnly
            &&& external_ip is None ==> config.nat_1to1_ips@.len() == 0
                && config.multicast_dns_mode == MulticastDnsMode::QueryAndGather
        },
{
}

/// What `start` gives holds the servers that it was called with, one by one.
pub proof fn law_start_keeps_every_server(
    transport: &DefaultTransport,
    ice_servers: Vec<IceServer>,
    external_ip: Option<String>,
    startup: Startup,
)
    requires
        call_ensures(DefaultTransport::start, (transport, ice_servers, external_ip), startup),
    ensures
        startup matches Startup::CreatingConnection { config } && config.ice_servers@
            =~= ice_servers@,
{
}

/// A peer connection that was created is kept, and a data channel by the name of the ring is asked
/// of that very connection; one that was not created ends the start with the reason.
pub proof fn law_connection_comes_first(
    config: PeerConfig,
    transport: TransportView,
    answer: Result<RTCPeerConnection, webrtc::error::Error>,
    after: (Startup, TransportView),
)
    requires
        Startup::steps(
            (Startup::CreatingConnection { config }, transport),
            StartupEvent::ConnectionCreated(answer),
            after,
        ),
    ensures
        answer matches Ok(connection) ==> {
            &&& after.0 matches Startup::CreatingChannel { request } && request.connection
                == Arc::new(connection) && request.label@ == "rings"@
            &&& after.1.connection == Some(Arc::new(connection))
        },
        answer matches Err(e) ==> after.0 == Startup::Finished(
            Err(TransportError::RTCPeerConnectionCreateFailed(e)),
        ) && after.1.connection == transport.connection,
        after.1.id == transport.id,
        after.1.pending_candidates == transport.pending_candidates,
        after.1.data_channel == transport.data_channel,
        after.1.public_key == transport.public_key,
{
}

/// The start ends with the answer to the request for a data channel: with the channel kept, or with
/// the error that there is none. The peer connection stays either way.
pub proof fn law_channel_ends_the_start(
    request: ChannelRequest,
    transport: TransportView,
    answer: Result<Arc<RTCDataChannel>, webrtc::error::Error>,
    after: (Startup, TransportView),
)
    requires
        Startup::steps(
            (Startup::CreatingChannel { request }, transport),
            StartupEvent::ChannelCreated(answer),
            after,
        ),
    ensures
        answer matches Ok(channel) ==> after.0 == Startup::Finished(Ok(()))
            && after.1.data_channel == Some(channel),
        answer is Err ==> after.0 == Startup::Finished(Err(TransportError::RTCDataChannelNotReady))
            && after.1.data_channel == transport.data_channel,
        after.1.id == transport.id,
        after.1.connection == transport.connection,
        after.1.pending_candidates == transport.pending_candidates,
        after.1.public_key == transport.public_key,
{
}

/// A start moves only on what it waits for.
pub proof fn law_startup_waits_its_turn(
    before: (Startup, TransportView),
    event: StartupEvent,
    after: (Startup, TransportView),
)
    requires
        Startup::steps(before, event, after),
        before.0 is CreatingConnection ==> event is ChannelCreated,
        before.0 is CreatingChannel ==> event is ConnectionCreated,
    ensures
        after == before,
{
}

/// A step of a start is the one that its states allow.
pub proof fn law_startup_advances_by_steps(
    startup: Startup,
    event: StartupEvent,
    next: Startup,
)
    ensures
        forall|transport: &mut DefaultTransport| #[trigger]
            call_ensures(Startup::advance, (startup, transport, event), next) ==> Startup::steps(
                (startup, (*transport)@),
                event,
                (next, final(transport)@),
            ),
{
}

} // verus!
