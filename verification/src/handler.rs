//! What a node does with the messages of the ring.
use vstd::prelude::*;

use std::collections::VecDeque;

use crate::granting::Grant;
use crate::message::{
    AlreadyConnected, ConnectNode, ConnectNodeResponse, FindSuccessor, FindSuccessorForFix,
    FoundSuccessor, Message, MessageRelay, MessageView, MsrpReport, MsrpSend,
    NotifiedPredecessor, NotifyPredecessor, RelayProtocol, RelayView,
};
use crate::types::Did;

verus! {

/// What the ring's routing table answers to a question.
#[derive(Clone, Copy, Debug)]
pub enum ChordAction {
    /// There is nothing to do.
    Nothing,
    /// This node is the answer.
    Node(Did),
    /// The question is to be put to another node.
    RemoteAction((Did, RemoteAction)),
}

/// A question for another node.
#[derive(Clone, Copy, Debug)]
pub enum RemoteAction {
    FindSuccessor(Did),
    FindSuccessorForFix(Did),
}

/// Why a message was not handled.
#[derive(Clone, Copy, Debug, PartialEq, Eq, Structural)]
pub enum HandlerError {
    UnsupportedMessageType,
    NoNextNode,
    NoPreviousNode,
    NoTransportForAlreadyConnected,
    NoTransportForConnectNodeResponse,
    InvalidChordAction,
}

impl HandlerError {
    /// The error in words.
    pub fn text(self) -> (text: &'static str)
        ensures
            text@ == (match self {
                HandlerError::UnsupportedMessageType => "Unsupported message type"@,
                HandlerError::NoNextNode => "Cannot find next node by dht"@,
                HandlerError::NoPreviousNode => "Cannot get node"@,
                HandlerError::NoTransportForAlreadyConnected => {
                    "Receive AlreadyConnected but cannot get transport"@
                },
                HandlerError::NoTransportForConnectNodeResponse => {
                    "Cannot get trans while handle connect node response"@
                },
                HandlerError::InvalidChordAction => "Invalid Chord Action"@,
            }),
    {
        match self {
            HandlerError::UnsupportedMessageType => "Unsupported message type",
            HandlerError::NoNextNode => "Cannot find next node by dht",
            HandlerError::NoPreviousNode => "Cannot get node",
            HandlerError::NoTransportForAlreadyConnected => {
                "Receive AlreadyConnected but cannot get transport"
            },
            HandlerError::NoTransportForConnectNodeResponse => {
                "Cannot get trans while handle connect node response"
            },
            HandlerError::InvalidChordAction => "Invalid Chord Action",
        }
    }
}

/// A message to send.
#[derive(Debug)]
pub struct Outgoing {
    pub to: Did,
    pub message: Message,
}

/// What a message to send says, and to whom.
pub struct OutgoingView {
    pub to: Did,
    pub message: MessageView,
}

impl View for Outgoing {
    type V = OutgoingView;

    open spec fn view(&self) -> OutgoingView {
        OutgoingView { to: self.to, message: self.message@ }
    }
}

/// The messages that a node handles.
#[derive(Clone, Copy, Debug, PartialEq, Eq, Structural)]
pub enum Handling {
    ConnectNode,
    FindSuccessor,
    FoundSuccessor,
    NotifyPredecessor,
    NotifiedPredecessor,
}

/// What a request for a connection calls for first.
#[derive(Clone, Copy, Debug)]
pub enum ConnectStep {
    /// The request is for another node: ask the routing table who follows `target`.
    FindNext { target: Did },
    /// The request is for this node and came from `prev`: look for a transport to `sender`.
    LookUp { sender: Did, prev: Did },
}

/// How a request for a connection to this node is answered.
#[derive(Debug)]
pub enum ConnectAnswer {
    /// Grant the connection.
    Accept(Grant),
    /// Send this.
    Reply(Outgoing),
}

/// What the answer to a request for a connection calls for.
#[derive(Debug)]
pub enum ResponseAction {
    /// It is for another node: send this.
    Forward(Outgoing),
    /// It is for this node: take in its handshake message.
    Register,
}

/// What the handler knows of the ring.
#[derive(Clone, Copy, Debug)]
pub struct ChordState {
    pub id: Did,
    pub successor: Did,
}

/// Decides what a node does with a message.
#[derive(Clone, Copy, Debug)]
pub struct MessageHandler {
    pub routing: ChordState,
}

impl MessageHandler {
    pub fn new(routing: ChordState) -> (handler: MessageHandler)
        ensures
            handler.routing == routing,
    {
        MessageHandler { routing }
    }

    /// Whether a message that arrived is looked at: it must not be expired, and its signature must
    /// verify.
    pub fn admits(expired: bool, verified: bool) -> (admitted: bool)
        ensures
            admitted <==> !expired && verified,
    {
        !(expired || !verified)
    }

    /// How a message is handled. Answers to connection requests and the messages that mend fingers
    /// are not.
    pub fn handle_message(message: &Message) -> (handling: Result<Handling, HandlerError>)
        ensures
            handling == (match message@ {
                MessageView::ConnectNode(..) => Ok(Handling::ConnectNode),
                MessageView::FindSuccessor(..) => Ok(Handling::FindSuccessor),
                MessageView::FoundSuccessor(..) => Ok(Handling::FoundSuccessor),
                MessageView::NotifyPredecessor(..) => Ok(Handling::NotifyPredecessor),
                MessageView::NotifiedPredecessor(..) => Ok(Handling::NotifiedPredecessor),
                _ => Err(HandlerError::UnsupportedMessageType),
            }),
    {
        match message {
            Message::ConnectNode(..) => Ok(Handling::ConnectNode),
            Message::FindSuccessor(..) => Ok(Handling::FindSuccessor),
            Message::FoundSuccessor(..) => Ok(Handling::FoundSuccessor),
            Message::NotifyPredecessor(..) => Ok(Handling::NotifyPredecessor),
            Message::NotifiedPredecessor(..) => Ok(Handling::NotifiedPredecessor),
            _ => Err(HandlerError::UnsupportedMessageType),
        }
    }

    /// What a request for a connection calls for first. `msrp` records the node that it came from.
    pub fn handle_connect_node(&self, msrp: &MsrpSend, msg: &ConnectNode) -> (step: Result<
        ConnectStep,
        HandlerError,
    >)
        ensures
            step == (if self.routing.id != msg.target_id {
                Ok(ConnectStep::FindNext { target: msg.target_id })
            } else if msrp@.from_path.len() == 0 {
                Err(HandlerError::NoPreviousNode)
            } else {
                Ok(ConnectStep::LookUp { sender: msg.sender_id, prev: msrp@.from_path.last() })
            }),
    {
        if self.routing.id != msg.target_id {
            return Ok(ConnectStep::FindNext { target: msg.target_id });
        }
        let hops: usize = msrp.from_path.len();
        if hops == 0 {
            return Err(HandlerError::NoPreviousNode);
        }
        Ok(ConnectStep::LookUp { sender: msg.sender_id, prev: msrp.from_path[hops - 1] })
    }

    /// Passes a request for a connection on towards its target. `found` is what the routing table
    /// says of who follows the target.
    pub fn forward_connect_node(msrp: &MsrpSend, msg: &ConnectNode, found: ChordAction) -> (sent:
        Result<Outgoing, HandlerError>)
        ensures
            match found {
                ChordAction::Node(next) | ChordAction::RemoteAction((next, _)) => {
                    &&& sent is Ok
                    &&& sent->Ok_0@ == (OutgoingView {
                        to: next,
                        message: MessageView::ConnectNode(msrp@, *msg),
                    })
                },
                ChordAction::Nothing => sent == Err::<Outgoing, _>(HandlerError::NoNextNode),
            },
    {
        let next = match found {
            ChordAction::Node(node) => node,
            ChordAction::RemoteAction((node, _)) => node,
            ChordAction::Nothing => {
                return Err(HandlerError::NoNextNode);
            },
        };
        Ok(Outgoing { to: next, message: Message::ConnectNode(msrp.clone(), msg.clone()) })
    }

    /// Answers a request for a connection to this node, which came from `prev`. `report` is the way
    /// back, and `connected` says whether there is a transport to the sender.
    pub fn answer_connect_node(
        &self,
        msg: &ConnectNode,
        prev: Did,
        report: MsrpReport,
        connected: bool,
    ) -> (answer: ConnectAnswer)
        ensures
            match answer {
                ConnectAnswer::Accept(grant) => {
                    &&& !connected
                    &&& grant == (Grant {
                        answer_id: self.routing.id,
                        sender: msg.sender_id,
                        handshake_info: msg.handshake_info,
                        to: prev,
                        report,
                    })
                },
                ConnectAnswer::Reply(sent) => {
                    &&& connected
                    &&& sent@ == (OutgoingView {
                        to: prev,
                        message: MessageView::AlreadyConnected(
                            report@,
                            AlreadyConnected { answer_id: self.routing.id },
                        ),
                    })
                },
            },
    {
        let answer_id = self.routing.id;
        if connected {
            let message = Message::AlreadyConnected(report, AlreadyConnected { answer_id });
            ConnectAnswer::Reply(Outgoing { to: prev, message })
        } else {
            ConnectAnswer::Accept(
                Grant {
                    answer_id,
                    sender: msg.sender_id,
                    handshake_info: msg.handshake_info.clone(),
                    to: prev,
                    report,
                },
            )
        }
    }

    /// Passes on the word that there is a connection already. Where the way ends, there must be a
    /// transport to the node that says so; `connected` says whether there is.
    pub fn handle_already_connected(
        msrp: &MsrpReport,
        msg: &AlreadyConnected,
        connected: bool,
    ) -> (sent: Result<Option<Outgoing>, HandlerError>)
        ensures
            if msrp@.to_path.len() > 0 {
                &&& sent matches Ok(Some(outgoing))
                &&& outgoing@ == (OutgoingView {
                    to: msrp@.to_path.last(),
                    message: MessageView::AlreadyConnected(msrp@, *msg),
                })
            } else if connected {
                sent == Ok::<Option<Outgoing>, HandlerError>(None)
            } else {
                sent == Err::<Option<Outgoing>, _>(HandlerError::NoTransportForAlreadyConnected)
            },
    {
        let hops: usize = msrp.to_path.len();
        if hops > 0 {
            let to = msrp.to_path[hops - 1];
            Ok(Some(Outgoing { to, message: Message::AlreadyConnected(msrp.clone(), *msg) }))
        } else if connected {
            Ok(None)
        } else {
            Err(HandlerError::NoTransportForAlreadyConnected)
        }
    }

    /// Passes on a granted connection. Where the way ends, it is taken in by the transport to the
    /// node that grants it; `connected` says whether there is one.
    pub fn handle_connect_node_response(
        msrp: &MsrpReport,
        msg: &ConnectNodeResponse,
        connected: bool,
    ) -> (action: Result<ResponseAction, HandlerError>)
        ensures
            if msrp@.to_path.len() > 0 {
                &&& action matches Ok(ResponseAction::Forward(outgoing))
                &&& outgoing@ == (OutgoingView {
                    to: msrp@.to_path.last(),
                    message: MessageView::ConnectNodeResponse(msrp@, *msg),
                })
            } else if connected {
                action == Ok::<_, HandlerError>(ResponseAction::Register)
            } else {
                action == Err::<ResponseAction, _>(HandlerError::NoTransportForConnectNodeResponse)
            },
    {
        let hops: usize = msrp.to_path.len();
        if hops > 0 {
            let to = msrp.to_path[hops - 1];
            let message = Message::ConnectNodeResponse(msrp.clone(), msg.clone());
            Ok(ResponseAction::Forward(Outgoing { to, message }))
        } else if connected {
            Ok(ResponseAction::Register)
        } else {
            Err(HandlerError::NoTransportForConnectNodeResponse)
        }
    }

    /// The report that answers the proposal of a predecessor.
    pub open spec fn notified_report(relay: RelayView, predecessor: Did) -> OutgoingView {
        OutgoingView {
            to: relay.to_path.last(),
            message: MessageView::NotifiedPredecessor(
                RelayView { protocol: RelayProtocol::REPORT, ..relay },
                NotifiedPredecessor { predecessor },
            ),
        }
    }

    /// Tells the node that the message came over which predecessor this node has, now that the
    /// proposed one was considered.
    pub fn handle_notify_predecessor(relay: &MessageRelay, predecessor: Did) -> (sent: Outgoing)
        requires
            relay@.to_path.len() > 0,
        ensures
            sent@ == Self::notified_report(relay@, predecessor),
    {
        let hops: usize = relay.to_path.len();
        let prev = relay.to_path[hops - 1];
        let mut report = relay.clone();
        report.protocol = RelayProtocol::REPORT;
        Outgoing {
            to: prev,
            message: Message::NotifiedPredecessor(report, NotifiedPredecessor { predecessor }),
        }
    }

    /// What a report must be like for this node to take it: a report, and on its way to this node.
    pub open spec fn accepts_report(self, relay: RelayView) -> bool {
        &&& relay.protocol is REPORT
        &&& relay.to_path.len() > 0
        &&& relay.to_path.last() == self.routing.id
    }

    /// Takes the predecessor of this node's successor as its new successor, if it lies on the ring
    /// between this node, excluded, and its successor, included; `between` says whether it does.
    pub fn handle_notified_predecessor(
        &mut self,
        relay: &MessageRelay,
        msg: &NotifiedPredecessor,
        between: bool,
    )
        requires
            old(self).accepts_report(relay@),
        ensures
            final(self).routing == (if between {
                ChordState { successor: msg.predecessor, ..old(self).routing }
            } else {
                old(self).routing
            }),
    {
        if between {
            self.routing.successor = msg.predecessor;
        }
    }

    /// The report that answers the question who follows a node.
    pub open spec fn found_report(relay: RelayView, id: Did) -> OutgoingView {
        OutgoingView {
            to: relay.to_path.last(),
            message: MessageView::FoundSuccessor(
                RelayView {
                    to_path: relay.from_path,
                    from_path: relay.to_path,
                    protocol: RelayProtocol::REPORT,
                    ..relay
                },
                FoundSuccessor { id },
            ),
        }
    }

    /// The question who follows `id`, put to `next`. The two ways of the question change places:
    /// this node is added to the way that it came from, and `next` to the other.
    pub open spec fn find_forward(self, relay: RelayView, next: Did, id: Did) -> OutgoingView {
        OutgoingView {
            to: next,
            message: MessageView::FindSuccessor(
                RelayView {
                    to_path: relay.from_path.push(self.routing.id),
                    from_path: relay.to_path.push(next),
                    protocol: RelayProtocol::SEND,
                    ..relay
                },
                FindSuccessor { id },
            ),
        }
    }

    /// Answers the question who follows a node, or puts it to the node that the routing table names.
    pub fn handle_find_successor(&self, relay: &MessageRelay, action: ChordAction) -> (sent: Outgoing)
        requires
            match action {
                ChordAction::Node(_) => relay@.to_path.len() > 0,
                ChordAction::RemoteAction((_, RemoteAction::FindSuccessor(_))) => true,
                _ => false,
            },
        ensures
            sent@ == (match action {
                ChordAction::RemoteAction((next, RemoteAction::FindSuccessor(id))) => {
                    self.find_forward(relay@, next, id)
                },
                _ => Self::found_report(relay@, action->Node_0),
            }),
    {
        let MessageRelay { tx_id, message_id, to_path, from_path, .. } = relay.clone();
        match action {
            ChordAction::RemoteAction((next, RemoteAction::FindSuccessor(id))) => {
                let mut came = from_path;
                let mut goes = to_path;
                came.push_back(self.routing.id);
                goes.push_back(next);
                let send = MessageRelay::new(tx_id, message_id, came, goes, RelayProtocol::SEND);
                Outgoing { to: next, message: Message::FindSuccessor(send, FindSuccessor { id }) }
            },
            ChordAction::Node(id) => {
                let hops: usize = to_path.len();
                let prev = to_path[hops - 1];
                let report = MessageRelay::new(
                    tx_id,
                    message_id,
                    from_path,
                    to_path,
                    RelayProtocol::REPORT,
                );
                Outgoing {
                    to: prev,
                    message: Message::FoundSuccessor(report, FoundSuccessor { id }),
                }
            },
            _ => vstd::pervasive::unreached(),
        }
    }

    /// The way back of a report without its last node: the node that the report has reached.
    pub open spec fn shortened(path: Seq<Did>) -> Seq<Did> {
        if path.len() == 0 {
            path
        } else {
            path.drop_last()
        }
    }

    /// A report that has been to its last node.
    pub open spec fn passed_on(relay: RelayView) -> RelayView {
        RelayView {
            to_path: Self::shortened(relay.to_path),
            from_path: Self::shortened(relay.from_path),
            ..relay
        }
    }

    /// Passes the answer who follows a node on to the node before, or, where its way ends, takes
    /// the answer as this node's successor.
    pub fn handle_found_successor(&mut self, relay: &MessageRelay, msg: &FoundSuccessor) -> (sent:
        Option<Outgoing>)
        requires
            old(self).accepts_report(relay@),
        ensures
            if relay@.to_path.len() > 1 {
                &&& sent matches Some(outgoing)
                &&& outgoing@ == (OutgoingView {
                    to: relay@.to_path[relay@.to_path.len() - 2],
                    message: MessageView::FoundSuccessor(Self::passed_on(relay@), *msg),
                })
                &&& *final(self) == *old(self)
            } else {
                &&& sent is None
                &&& final(self).routing == (ChordState { successor: msg.id, ..old(self).routing })
            },
    {
        let mut report = relay.clone();
        let _ = report.to_path.pop_back();
        let _ = report.from_path.pop_back();
        assert(report@ == Self::passed_on(relay@));
        let hops: usize = report.to_path.len();
        if hops > 0 {
            let prev = report.to_path[hops - 1];
            Some(Outgoing { to: prev, message: Message::FoundSuccessor(report, *msg) })
        } else {
            self.routing.successor = msg.id;
            None
        }
    }

    /// The message with which a node proposes itself as a predecessor to its successor. The node
    /// hands it to itself, for delivery along the ring.
    pub fn stabilize(&self) -> (sent: Outgoing)
        ensures
            sent@ == (OutgoingView {
                to: self.routing.id,
                message: MessageView::NotifyPredecessor(
                    Self::direct(self.routing.successor, self.routing.id),
                    NotifyPredecessor { predecessor: self.routing.id },
                ),
            }),
    {
        let relay = Self::direct_relay(self.routing.successor, self.routing.id);
        Outgoing {
            to: self.routing.id,
            message: Message::NotifyPredecessor(
                relay,
                NotifyPredecessor { predecessor: self.routing.id },
            ),
        }
    }

    /// The message that mends a finger, if the routing table asks for one.
    pub fn fix_fingers(action: ChordAction) -> (sent: Result<Option<Outgoing>, HandlerError>)
        ensures
            match action {
                ChordAction::Nothing => sent == Ok::<Option<Outgoing>, HandlerError>(None),
                ChordAction::RemoteAction((next, RemoteAction::FindSuccessorForFix(current))) => {
                    &&& sent matches Ok(Some(outgoing))
                    &&& outgoing@ == (OutgoingView {
                        to: next,
                        message: MessageView::FindSuccessorForFix(
                            Self::direct(next, current),
                            FindSuccessorForFix { successor: current },
                        ),
                    })
                },
                _ => sent == Err::<Option<Outgoing>, _>(HandlerError::InvalidChordAction),
            },
    {
        match action {
            ChordAction::Nothing => Ok(None),
            ChordAction::RemoteAction((next, RemoteAction::FindSuccessorForFix(current))) => {
                let relay = Self::direct_relay(next, current);
                let message = Message::FindSuccessorForFix(
                    relay,
                    FindSuccessorForFix { successor: current },
                );
                Ok(Some(Outgoing { to: next, message }))
            },
            _ => Err(HandlerError::InvalidChordAction),
        }
    }

    /// The way of a message from one node straight to another.
    pub open spec fn direct(to: Did, from: Did) -> RelayView {
        RelayView {
            tx_id: Seq::empty(),
            message_id: Seq::empty(),
            to_path: seq![to],
            from_path: seq![from],
            protocol: RelayProtocol::SEND,
        }
    }

    fn direct_relay(to: Did, from: Did) -> (relay: MessageRelay)
        ensures
            relay@ == Self::direct(to, from),
    {
        let mut to_path: VecDeque<Did> = VecDeque::new();
        let mut from_path: VecDeque<Did> = VecDeque::new();
        to_path.push_back(to);
        from_path.push_back(from);
        assert(to_path@ =~= seq![to]);
        assert(from_path@ =~= seq![from]);
        MessageRelay::new(String::new(), String::new(), to_path, from_path, RelayProtocol::SEND)
    }
}

/// A report after `hops` nodes have passed it on.
pub open spec fn passed_on_by(relay: RelayView, hops: nat) -> RelayView
    decreases hops,
{
    if hops == 0 {
        relay
    } else {
        MessageHandler::passed_on(passed_on_by(relay, (hops - 1) as nat))
    }
}

/// A report that its node passes on comes to a node that takes it. So it visits the nodes of its
/// way from the last to the first, each of them takes it, and only the first, where the way ends,
/// does not pass it on.
pub proof fn law_report_goes_all_the_way(relay: RelayView, hops: nat, node: MessageHandler)
    requires
        relay.protocol is REPORT,
        hops < relay.to_path.len(),
        node.routing.id == relay.to_path[relay.to_path.len() - 1 - hops],
    ensures
        node.accepts_report(passed_on_by(relay, hops)),
        passed_on_by(relay, hops).to_path == relay.to_path.take(relay.to_path.len() - hops),
        passed_on_by(relay, hops).to_path.len() > 1 <==> hops < relay.to_path.len() - 1,
    decreases hops,
{
    if hops > 0 {
        let before = MessageHandler {
            routing: ChordState {
                id: relay.to_path[relay.to_path.len() - hops],
                successor: node.routing.successor,
            },
        };
        law_report_goes_all_the_way(relay, (hops - 1) as nat, before);
        assert(relay.to_path.take(relay.to_path.len() - hops + 1).drop_last() =~= relay.to_path.take(
            relay.to_path.len() - hops,
        ));
    } else {
        assert(relay.to_path.take(relay.to_path.len() as int) =~= relay.to_path);
    }
}

/// A node that answers a question sends its answer to the node that put the question to it.
pub proof fn law_answer_goes_to_whoever_asked(
    asking: MessageHandler,
    relay: RelayView,
    next: Did,
    id: Did,
    answer: Did,
)
    ensures
        ({
            let question = asking.find_forward(relay, next, id);
            &&& question.to == next
            &&& question.message matches MessageView::FindSuccessor(put, _)
            &&& MessageHandler::found_report(put, answer).to == asking.routing.id
        }),
{
}

/// The answer to the proposal that a node makes when it stabilizes goes to the node's successor,
/// which takes it.
pub proof fn law_stabilize_is_answered(node: MessageHandler, successor: MessageHandler, known: Did)
    requires
        successor.routing.id == node.routing.successor,
    ensures
        ({
            let proposal = MessageHandler::direct(node.routing.successor, node.routing.id);
            let answer = MessageHandler::notified_report(proposal, known);
            &&& proposal.to_path.len() > 0
            &&& answer.to == node.routing.successor
            &&& answer.message matches MessageView::NotifiedPredecessor(report, _)
            &&& successor.accepts_report(report)
        }),
{
}

/// The model of a message to send names its receiver and holds the message.
pub proof fn law_outgoing_model_is_faithful(outgoing: Outgoing)
    ensures
        outgoing@.to == outgoing.to,
        outgoing@.message == outgoing.message@,
{
}

/// A message is looked at exactly if it is neither expired nor unverified.
pub proof fn law_only_good_messages_are_admitted(expired: bool, verified: bool, admitted: bool)
    requires
        call_ensures(MessageHandler::admits, (expired, verified), admitted),
    ensures
        expired ==> !admitted,
        !verified ==> !admitted,
        !expired && verified ==> admitted,
{
}

/// A message that is handled is handled as what it is, and the kinds that no node handles are
/// refused.
pub proof fn law_messages_are_handled_as_what_they_are(
    message: &Message,
    handling: Result<Handling, HandlerError>,
)
    requires
        call_ensures(MessageHandler::handle_message, (message,), handling),
    ensures
        handling == Ok::<_, HandlerError>(Handling::ConnectNode) <==> *message is ConnectNode,
        handling == Ok::<_, HandlerError>(Handling::FindSuccessor) <==> *message is FindSuccessor,
        handling == Ok::<_, HandlerError>(Handling::FoundSuccessor) <==> *message is FoundSuccessor,
        handling == Ok::<_, HandlerError>(Handling::NotifyPredecessor)
            <==> *message is NotifyPredecessor,
        handling == Ok::<_, HandlerError>(Handling::NotifiedPredecessor)
            <==> *message is NotifiedPredecessor,
        handling matches Err(e) ==> e == HandlerError::UnsupportedMessageType,
{
}

/// A request for a connection is this node's exactly if it names this node as its target, and it is
/// then looked at for its sender, over the last node of its way.
pub proof fn law_request_is_for_its_target(
    node: &MessageHandler,
    msrp: &MsrpSend,
    msg: &ConnectNode,
    step: Result<ConnectStep, HandlerError>,
)
    requires
        call_ensures(MessageHandler::handle_connect_node, (node, msrp, msg), step),
    ensures
        msg.target_id != node.routing.id <==> step matches Ok(ConnectStep::FindNext { .. }),
        step matches Ok(ConnectStep::FindNext { target }) ==> target == msg.target_id,
        step matches Ok(ConnectStep::LookUp { sender, prev }) ==> {
            &&& sender == msg.sender_id
            &&& msrp.from_path@.len() > 0
            &&& prev == msrp.from_path@[msrp.from_path@.len() - 1]
        },
        step matches Err(e) ==> {
            &&& e == HandlerError::NoPreviousNode
            &&& msg.target_id == node.routing.id
            &&& msrp.from_path@.len() == 0
        },
{
}

/// A request that is passed on is passed on unchanged, to the node that the routing table named.
pub proof fn law_request_is_passed_on_unchanged(
    msrp: &MsrpSend,
    msg: &ConnectNode,
    found: ChordAction,
    sent: Result<Outgoing, HandlerError>,
)
    requires
        call_ensures(MessageHandler::forward_connect_node, (msrp, msg, found), sent),
    ensures
        found is Nothing <==> sent is Err,
        sent matches Err(e) ==> e == HandlerError::NoNextNode,
        sent matches Ok(outgoing) ==> {
            &&& found matches ChordAction::Node(node) ==> node == outgoing.to
            &&& found matches ChordAction::RemoteAction((node, _)) ==> node == outgoing.to
            &&& outgoing.message matches Message::ConnectNode(way, passed)
            &&& way.from_path@ == msrp.from_path@
            &&& way.to_path@ == msrp.to_path@
            &&& passed.sender_id == msg.sender_id
            &&& passed.target_id == msg.target_id
            &&& passed.handshake_info == msg.handshake_info
        },
{
}

/// A node that is not connected to the sender of a request grants it what it asked for, over the
/// node that the request came from; a node that is says so, over the same node.
pub proof fn law_request_is_granted_once(
    node: &MessageHandler,
    msg: &ConnectNode,
    prev: Did,
    report: MsrpReport,
    connected: bool,
    answer: ConnectAnswer,
)
    requires
        call_ensures(
            MessageHandler::answer_connect_node,
            (node, msg, prev, report, connected),
            answer,
        ),
    ensures
        connected <==> answer is Reply,
        answer matches ConnectAnswer::Accept(grant) ==> {
            &&& grant.answer_id == node.routing.id
            &&& grant.sender == msg.sender_id
            &&& grant.handshake_info == msg.handshake_info
            &&& grant.to == prev
            &&& grant.report == report
        },
        answer matches ConnectAnswer::Reply(sent) ==> {
            &&& sent.to == prev
            &&& sent.message matches Message::AlreadyConnected(way, word)
            &&& way.from_path@ == report.from_path@
            &&& way.to_path@ == report.to_path@
            &&& word.answer_id == node.routing.id
        },
{
}

/// The answer to a request for a connection, whether it grants one or says that there is one, is
/// passed on unchanged to the last node of its way, and used where its way ends.
pub proof fn law_answers_travel_back(
    msrp: &MsrpReport,
    word: &AlreadyConnected,
    response: &ConnectNodeResponse,
    connected: bool,
    told: Result<Option<Outgoing>, HandlerError>,
    action: Result<ResponseAction, HandlerError>,
)
    requires
        call_ensures(MessageHandler::handle_already_connected, (msrp, word, connected), told),
        call_ensures(
            MessageHandler::handle_connect_node_response,
            (msrp, response, connected),
            action,
        ),
    ensures
        msrp.to_path@.len() > 0 ==> {
            &&& told matches Ok(Some(outgoing))
            &&& outgoing.to == msrp.to_path@[msrp.to_path@.len() - 1]
            &&& outgoing.message matches Message::AlreadyConnected(way, passed)
            &&& way.from_path@ == msrp.from_path@
            &&& way.to_path@ == msrp.to_path@
            &&& passed == *word
        },
        msrp.to_path@.len() > 0 ==> {
            &&& action matches Ok(ResponseAction::Forward(outgoing))
            &&& outgoing.to == msrp.to_path@[msrp.to_path@.len() - 1]
            &&& outgoing.message matches Message::ConnectNodeResponse(way, passed)
            &&& way.from_path@ == msrp.from_path@
            &&& way.to_path@ == msrp.to_path@
            &&& passed == *response
        },
        msrp.to_path@.len() == 0 && connected ==> told == Ok::<Option<Outgoing>, HandlerError>(None)
            && action == Ok::<_, HandlerError>(ResponseAction::Register),
        msrp.to_path@.len() == 0 && !connected ==> told == Err::<Option<Outgoing>, _>(
            HandlerError::NoTransportForAlreadyConnected,
        ) && action == Err::<ResponseAction, _>(HandlerError::NoTransportForConnectNodeResponse),
{
}

/// The answer to the proposal of a predecessor goes to the last node of the proposal's way, as a
/// report with that way, and tells the predecessor.
pub proof fn law_proposal_is_answered_in_full(
    relay: &MessageRelay,
    predecessor: Did,
    sent: Outgoing,
)
    requires
        relay.to_path@.len() > 0,
        call_ensures(MessageHandler::handle_notify_predecessor, (relay, predecessor), sent),
    ensures
        sent.to == relay.to_path@[relay.to_path@.len() - 1],
        sent.message matches Message::NotifiedPredecessor(way, told) && {
            &&& told.predecessor == predecessor
            &&& way.protocol == RelayProtocol::REPORT
            &&& way.tx_id@ == relay.tx_id@
            &&& way.message_id@ == relay.message_id@
            &&& way.to_path@ == relay.to_path@
            &&& way.from_path@ == relay.from_path@
        },
{
}

/// A node takes a report exactly if it is one and its way ends at the node.
pub proof fn law_which_reports_are_taken(node: MessageHandler, relay: RelayView)
    ensures
        node.accepts_report(relay) <==> relay.protocol == RelayProtocol::REPORT
            && relay.to_path.len() > 0 && relay.to_path[relay.to_path.len() - 1]
            == node.routing.id,
{
}

/// A question that is answered is answered with the node that was found, in a report whose two
/// ways are those of the question, exchanged; a question that is put to another node goes there
/// with both ways one node longer, exchanged as well.
pub proof fn law_question_is_answered_or_passed_on(
    node: &MessageHandler,
    relay: &MessageRelay,
    action: ChordAction,
    sent: Outgoing,
)
    requires
        action matches ChordAction::Node(_) ==> relay.to_path@.len() > 0,
        action is Node || action matches ChordAction::RemoteAction(
            (_, RemoteAction::FindSuccessor(_)),
        ),
        call_ensures(MessageHandler::handle_find_successor, (node, relay, action), sent),
    ensures
        action matches ChordAction::Node(found) ==> {
            &&& sent.to == relay.to_path@[relay.to_path@.len() - 1]
            &&& sent.message matches Message::FoundSuccessor(way, answer)
            &&& answer.id == found
            &&& way.protocol == RelayProtocol::REPORT
            &&& way.tx_id@ == relay.tx_id@
            &&& way.message_id@ == relay.message_id@
            &&& way.to_path@ == relay.from_path@
            &&& way.from_path@ == relay.to_path@
        },
        action matches ChordAction::RemoteAction((next, RemoteAction::FindSuccessor(id))) ==> {
            &&& sent.to == next
            &&& sent.message matches Message::FindSuccessor(way, question)
            &&& question.id == id
            &&& way.protocol == RelayProtocol::SEND
            &&& way.tx_id@ == relay.tx_id@
            &&& way.message_id@ == relay.message_id@
            &&& way.to_path@ == relay.from_path@.push(node.routing.id)
            &&& way.from_path@ == relay.to_path@.push(next)
        },
{
}

/// A report that is passed on loses the last node of either way, if there is one, and nothing else.
pub proof fn law_report_loses_one_node(relay: RelayView)
    ensures
        ({
            let passed = MessageHandler::passed_on(relay);
            &&& passed.tx_id == relay.tx_id
            &&& passed.message_id == relay.message_id
            &&& passed.protocol == relay.protocol
            &&& relay.to_path.len() > 0 ==> passed.to_path.push(relay.to_path.last())
                =~= relay.to_path
            &&& relay.to_path.len() == 0 ==> passed.to_path.len() == 0
            &&& relay.from_path.len() > 0 ==> passed.from_path.push(relay.from_path.last())
                =~= relay.from_path
            &&& relay.from_path.len() == 0 ==> passed.from_path.len() == 0
        }),
{
}

/// When it stabilizes, a node proposes itself as the predecessor of its successor, in a message to
/// itself whose way leads from it to the successor.
pub proof fn law_stabilize_proposes_the_node(node: &MessageHandler, sent: Outgoing)
    requires
        call_ensures(MessageHandler::stabilize, (node,), sent),
    ensures
        sent.to == node.routing.id,
        sent.message matches Message::NotifyPredecessor(way, proposal) && {
            &&& proposal.predecessor == node.routing.id
            &&& way.protocol == RelayProtocol::SEND
            &&& way.tx_id@.len() == 0
            &&& way.message_id@.len() == 0
            &&& way.to_path@.len() == 1 && way.to_path@[0] == node.routing.successor
            &&& way.from_path@.len() == 1 && way.from_path@[0] == node.routing.id
        },
{
}

/// A finger is mended by asking the node that the routing table names, and only where it asks for
/// that; an answer that is none is an error.
pub proof fn law_finger_is_mended_where_asked(
    action: ChordAction,
    sent: Result<Option<Outgoing>, HandlerError>,
)
    requires
        call_ensures(MessageHandler::fix_fingers, (action,), sent),
    ensures
        action is Nothing <==> sent == Ok::<Option<Outgoing>, HandlerError>(None),
        sent matches Ok(Some(outgoing)) ==> {
            &&& outgoing.message matches Message::FindSuccessorForFix(way, question)
            &&& action == ChordAction::RemoteAction(
                (outgoing.to, RemoteAction::FindSuccessorForFix(question.successor)),
            )
            &&& way.protocol == RelayProtocol::SEND
            &&& way.tx_id@.len() == 0
            &&& way.message_id@.len() == 0
            &&& way.to_path@.len() == 1 && way.to_path@[0] == outgoing.to
            &&& way.from_path@.len() == 1 && way.from_path@[0] == question.successor
        },
        sent matches Err(e) ==> e == HandlerError::InvalidChordAction && (action is Node
            || action matches ChordAction::RemoteAction((_, RemoteAction::FindSuccessor(_)))),
{
}

/// A node takes the reported predecessor as its successor exactly if that lies between; its own
/// position never changes.
pub proof fn law_successor_moves_only_closer(
    relay: &MessageRelay,
    msg: &NotifiedPredecessor,
    between: bool,
)
    ensures
        forall|node: &mut MessageHandler| #[trigger]
            call_ensures(
                MessageHandler::handle_notified_predecessor,
                (node, relay, msg, between),
                (),
            ) ==> {
                &&& final(node).routing.id == node.routing.id
                &&& between ==> final(node).routing.successor == msg.predecessor
                &&& !between ==> final(node).routing.successor == node.routing.successor
            },
{
}

/// A found successor is passed on to the node before, on ways that are one node shorter, by every
/// node but the first; the first takes it as its successor.
pub proof fn law_found_successor_goes_back(
    relay: &MessageRelay,
    msg: &FoundSuccessor,
    sent: Option<Outgoing>,
)
    requires
        relay.to_path@.len() > 0,
    ensures
        forall|node: &mut MessageHandler| #[trigger]
            call_ensures(MessageHandler::handle_found_successor, (node, relay, msg), sent) ==> {
                &&& final(node).routing.id == node.routing.id
                &&& sent is Some <==> relay.to_path@.len() > 1
                &&& sent is None ==> final(node).routing.successor == msg.id
                &&& sent matches Some(outgoing) ==> {
                    &&& final(node).routing.successor == node.routing.successor
                    &&& outgoing.to == relay.to_path@[relay.to_path@.len() - 2]
                    &&& outgoing.message matches Message::FoundSuccessor(way, passed)
                    &&& passed.id == msg.id
                    &&& way.protocol == relay.protocol
                    &&& way.tx_id@ == relay.tx_id@
                    &&& way.message_id@ == relay.message_id@
                    &&& way.to_path@ == relay.to_path@.drop_last()
                    &&& way.from_path@ == (if relay.from_path@.len() > 0 {
                        relay.from_path@.drop_last()
                    } else {
                        relay.from_path@
                    })
                }
            },
{
}

} // verus!
