//! Granting a connection: make a transport, exchange handshake messages, wait for the peer.
use vstd::prelude::*;

use crate::handler::Outgoing;
use crate::message::{ConnectNodeResponse, Message, MsrpReport};
use crate::types::{Did, SdpType};

verus! {

/// The first of the two bounds that the wait for a granted connection is given.
pub const CONNECTED_WAIT_FIRST: u32 = 20;

/// The second of the two bounds that the wait for a granted connection is given.
pub const CONNECTED_WAIT_SECOND: u32 = 3;

/// What is needed to grant a connection.
#[derive(Debug)]
pub struct Grant {
    /// The node that grants it.
    pub answer_id: Did,
    /// The node that asked for it.
    pub sender: Did,
    /// The handshake message of the node that asked.
    pub handshake_info: String,
    /// The node that the response is sent to.
    pub to: Did,
    /// The way of the response.
    pub report: MsrpReport,
}

impl Grant {
    /// The response with the given handshake message.
    pub open spec fn spec_response(self, handshake_info: String) -> Outgoing {
        Outgoing {
            to: self.to,
            message: Message::ConnectNodeResponse(
                self.report,
                ConnectNodeResponse { answer_id: self.answer_id, handshake_info },
            ),
        }
    }

    /// The response with the given handshake message.
    pub fn response(self, handshake_info: String) -> (sent: Outgoing)
        ensures
            sent == self.spec_response(handshake_info),
    {
        Outgoing {
            to: self.to,
            message: Message::ConnectNodeResponse(
                self.report,
                ConnectNodeResponse { answer_id: self.answer_id, handshake_info },
            ),
        }
    }
}

/// The granting of a connection, as far as it has come. `T` is a transport.
#[derive(Debug)]
pub enum Granting<T, E> {
    /// Make and start a transport.
    CreatingTransport { grant: Grant },
    /// Have the transport take in the handshake message of the node that asked.
    TakingIn { grant: Grant, transport: T },
    /// Have the transport make a handshake message of the given kind.
    Describing { grant: Grant, transport: T, kind: SdpType },
    /// Send the response.
    Responding { response: Outgoing, sender: Did, transport: T },
    /// Wait until the transport is connected, within the two given bounds.
    Connecting { sender: Did, transport: T, bounds: (u32, u32) },
    /// Keep the transport as the one to the node that asked, or why there is none to keep.
    Finished(Result<(Did, T), E>),
}

/// What was done.
#[derive(Debug)]
pub enum GrantingEvent<T, E> {
    /// The transport that was started, or why there is none.
    TransportCreated(Result<T, E>),
    /// The sender of the handshake message that was taken in, or why it was not.
    TakenIn(Result<Did, E>),
    /// The handshake message that was made, or why it was not.
    Described(Result<String, E>),
    /// The response was sent, or why it was not.
    Responded(Result<(), E>),
    /// The transport is connected, or why it is not.
    Connected(Result<(), E>),
}

impl<T, E> Granting<T, E> {
    /// How far the granting has come after `event`. The first failure ends it. An event that is not
    /// waited for changes nothing.
    pub open spec fn advanced(self, event: GrantingEvent<T, E>) -> Granting<T, E> {
        match (self, event) {
            (Granting::CreatingTransport { grant }, GrantingEvent::TransportCreated(answer)) => {
                match answer {
                    Ok(transport) => Granting::TakingIn { grant, transport },
                    Err(e) => Granting::Finished(Err(e)),
                }
            },
            (Granting::TakingIn { grant, transport }, GrantingEvent::TakenIn(answer)) => {
                match answer {
                    Ok(_) => Granting::Describing { grant, transport, kind: SdpType::Answer },
                    Err(e) => Granting::Finished(Err(e)),
                }
            },
            (Granting::Describing { grant, transport, .. }, GrantingEvent::Described(answer)) => {
                match answer {
                    Ok(info) => Granting::Responding {
                        response: grant.spec_response(info),
                        sender: grant.sender,
                        transport,
                    },
                    Err(e) => Granting::Finished(Err(e)),
                }
            },
            (Granting::Responding { sender, transport, .. }, GrantingEvent::Responded(answer)) => {
                match answer {
                    Ok(_) => Granting::Connecting {
                        sender,
                        transport,
                        bounds: (CONNECTED_WAIT_FIRST, CONNECTED_WAIT_SECOND),
                    },
                    Err(e) => Granting::Finished(Err(e)),
                }
            },
            (Granting::Connecting { sender, transport, .. }, GrantingEvent::Connected(answer)) => {
                match answer {
                    Ok(_) => Granting::Finished(Ok((sender, transport))),
                    Err(e) => Granting::Finished(Err(e)),
                }
            },
            _ => self,
        }
    }

    /// What the granting comes to with the given answers: the first error, or the transport to keep
    /// and the node that it leads to.
    pub open spec fn result(
        grant: Grant,
        created: Result<T, E>,
        taken_in: Result<Did, E>,
        described: Result<String, E>,
        responded: Result<(), E>,
        connected: Result<(), E>,
    ) -> Result<(Did, T), E> {
        if created is Err {
            Err(created->Err_0)
        } else if taken_in is Err {
            Err(taken_in->Err_0)
        } else if described is Err {
            Err(described->Err_0)
        } else if responded is Err {
            Err(responded->Err_0)
        } else if connected is Err {
            Err(connected->Err_0)
        } else {
            Ok((grant.sender, created->Ok_0))
        }
    }

    /// Begins to grant a connection.
    pub fn begin(grant: Grant) -> (granting: Granting<T, E>)
        ensures
            granting == (Granting::<T, E>::CreatingTransport { grant }),
    {
        Granting::CreatingTransport { grant }
    }

    /// Carries on with what was done.
    pub fn advance(self, event: GrantingEvent<T, E>) -> (next: Granting<T, E>)
        ensures
            next == self.advanced(event),
    {
        match (self, event) {
            (Granting::CreatingTransport { grant }, GrantingEvent::TransportCreated(answer)) => {
                match answer {
                    Ok(transport) => Granting::TakingIn { grant, transport },
                    Err(e) => Granting::Finished(Err(e)),
                }
            },
            (Granting::TakingIn { grant, transport }, GrantingEvent::TakenIn(answer)) => {
                match answer {
                    Ok(_) => Granting::Describing { grant, transport, kind: SdpType::Answer },
                    Err(e) => Granting::Finished(Err(e)),
                }
            },
            (Granting::Describing { grant, transport, .. }, GrantingEvent::Described(answer)) => {
                match answer {
                    Ok(info) => {
                        let sender = grant.sender;
                        let response = grant.response(info);
                        Granting::Responding { response, sender, transport }
                    },
                    Err(e) => Granting::Finished(Err(e)),
                }
            },
            (Granting::Responding { sender, transport, .. }, GrantingEvent::Responded(answer)) => {
                match answer {
                    Ok(_) => Granting::Connecting {
                        sender,
                        transport,
                        bounds: (CONNECTED_WAIT_FIRST, CONNECTED_WAIT_SECOND),
                    },
                    Err(e) => Granting::Finished(Err(e)),
                }
            },
            (Granting::Connecting { sender, transport, .. }, GrantingEvent::Connected(answer)) => {
                match answer {
                    Ok(_) => Granting::Finished(Ok((sender, transport))),
                    Err(e) => Granting::Finished(Err(e)),
                }
            },
            (unchanged, _) => unchanged,
        }
    }
}

/// Five answers finish the granting of a connection: the transport is kept for the node that asked
/// if all of them are good, and else the first error is the result.
pub proof fn law_granting_result<T, E>(
    grant: Grant,
    created: Result<T, E>,
    taken_in: Result<Did, E>,
    described: Result<String, E>,
    responded: Result<(), E>,
    connected: Result<(), E>,
)
    ensures
        (Granting::CreatingTransport { grant }).advanced(
            GrantingEvent::TransportCreated(created),
        ).advanced(GrantingEvent::TakenIn(taken_in)).advanced(
            GrantingEvent::Described(described),
        ).advanced(GrantingEvent::Responded(responded)).advanced(
            GrantingEvent::Connected(connected),
        ) == Granting::Finished(
            Granting::result(grant, created, taken_in, described, responded, connected),
        ),
{
}

/// The response carries the handshake message that was made after the one of the node that asked
/// was taken in; a message that was made before is not sent.
pub proof fn law_response_carries_the_handshake<T, E>(
    grant: Grant,
    transport: T,
    sender: Did,
    early: String,
    info: String,
)
    ensures
        ({
            let taking_in = Granting::<T, E>::TakingIn { grant, transport };
            &&& taking_in.advanced(GrantingEvent::Described(Ok(early))) == taking_in
            &&& taking_in.advanced(GrantingEvent::TakenIn(Ok(sender))).advanced(
                GrantingEvent::Described(Ok(info)),
            ) == (Granting::<T, E>::Responding {
                response: grant.spec_response(info),
                sender: grant.sender,
                transport,
            })
        }),
{
}

/// A granting moves only on what it waits for.
pub proof fn law_granting_waits_its_turn<T, E>(before: Granting<T, E>, event: GrantingEvent<T, E>)
    requires
        before is CreatingTransport ==> !(event is TransportCreated),
        before is TakingIn ==> !(event is TakenIn),
        before is Describing ==> !(event is Described),
        before is Responding ==> !(event is Responded),
        before is Connecting ==> !(event is Connected),
    ensures
        before.advanced(event) == before,
{
}

/// A granting in which all goes well asks for an answer, sends the response with the handshake
/// message that was made, waits within the two bounds, and keeps the transport that was made for
/// the node that asked.
pub proof fn law_granting_keeps_the_transport<T, E>(
    grant: Grant,
    transport: T,
    from: Did,
    info: String,
)
    ensures
        ({
            let taking_in = (Granting::<T, E>::CreatingTransport { grant }).advanced(
                GrantingEvent::TransportCreated(Ok(transport)),
            );
            let describing = taking_in.advanced(GrantingEvent::TakenIn(Ok(from)));
            let responding = describing.advanced(GrantingEvent::Described(Ok(info)));
            let connecting = responding.advanced(GrantingEvent::Responded(Ok(())));
            &&& taking_in == (Granting::<T, E>::TakingIn { grant, transport })
            &&& describing == (Granting::<T, E>::Describing {
                grant,
                transport,
                kind: SdpType::Answer,
            })
            &&& responding matches Granting::Responding { response, sender, transport: kept }
            &&& kept == transport
            &&& sender == grant.sender
            &&& response.to == grant.to
            &&& response.message matches Message::ConnectNodeResponse(report, sent)
            &&& report == grant.report
            &&& sent.answer_id == grant.answer_id
            &&& sent.handshake_info == info
            &&& connecting == (Granting::<T, E>::Connecting {
                sender: grant.sender,
                transport,
                bounds: (20, 3),
            })
            &&& connecting.advanced(GrantingEvent::Connected(Ok(()))) == Granting::<
                T,
                E,
            >::Finished(Ok((grant.sender, transport)))
        }),
{
}

/// A failure ends a granting with its reason, at whichever step it comes, and nothing follows it.
pub proof fn law_granting_failures<T, E>(
    grant: Grant,
    transport: T,
    response: Outgoing,
    sender: Did,
    kind: SdpType,
    bounds: (u32, u32),
    error: E,
    later: GrantingEvent<T, E>,
)
    ensures
        ({
            let failed = Granting::<T, E>::Finished(Err(error));
            &&& (Granting::<T, E>::CreatingTransport { grant }).advanced(
                GrantingEvent::TransportCreated(Err(error)),
            ) == failed
            &&& (Granting::<T, E>::TakingIn { grant, transport }).advanced(
                GrantingEvent::TakenIn(Err(error)),
            ) == failed
            &&& (Granting::<T, E>::Describing { grant, transport, kind }).advanced(
                GrantingEvent::Described(Err(error)),
            ) == failed
            &&& (Granting::<T, E>::Responding { response, sender, transport }).advanced(
                GrantingEvent::Responded(Err(error)),
            ) == failed
            &&& (Granting::<T, E>::Connecting { sender, transport, bounds }).advanced(
                GrantingEvent::Connected(Err(error)),
            ) == failed
            &&& failed.advanced(later) == failed
        }),
{
}

/// A granting begins with what is to be granted, and goes on with what was done.
pub proof fn law_granting_advances<T, E>(
    grant: Grant,
    begun: Granting<T, E>,
    before: Granting<T, E>,
    event: GrantingEvent<T, E>,
    after: Granting<T, E>,
)
    requires
        call_ensures(Granting::<T, E>::begin, (grant,), begun),
        call_ensures(Granting::<T, E>::advance, (before, event), after),
    ensures
        begun == (Granting::<T, E>::CreatingTransport { grant }),
        after == before.advanced(event),
{
}

} // verus!
