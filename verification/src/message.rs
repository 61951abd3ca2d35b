//! The messages that keep a Chord ring together.
use vstd::prelude::*;

use std::collections::VecDeque;

use crate::types::Did;

verus! {

/// Which way a message travels.
#[derive(Clone, Copy, Debug, PartialEq, Eq, Structural)]
pub enum RelayProtocol {
    /// Towards the node that it is for.
    SEND,
    /// Back to the node that asked.
    REPORT,
}

/// The way of a message through the ring.
#[derive(Debug)]
pub struct MessageRelay {
    pub tx_id: String,
    pub message_id: String,
    pub to_path: VecDeque<Did>,
    pub from_path: VecDeque<Did>,
    pub protocol: RelayProtocol,
}

/// What a relay says.
pub struct RelayView {
    pub tx_id: Seq<char>,
    pub message_id: Seq<char>,
    pub to_path: Seq<Did>,
    pub from_path: Seq<Did>,
    pub protocol: RelayProtocol,
}

impl View for MessageRelay {
    type V = RelayView;

    open spec fn view(&self) -> RelayView {
        RelayView {
            tx_id: self.tx_id@,
            message_id: self.message_id@,
            to_path: self.to_path@,
            from_path: self.from_path@,
            protocol: self.protocol,
        }
    }
}

impl MessageRelay {
    pub fn new(
        tx_id: String,
        message_id: String,
        to_path: VecDeque<Did>,
        from_path: VecDeque<Did>,
        protocol: RelayProtocol,
    ) -> (relay: MessageRelay)
        ensures
            relay@ == (RelayView {
                tx_id: tx_id@,
                message_id: message_id@,
                to_path: to_path@,
                from_path: from_path@,
                protocol,
            }),
    {
        MessageRelay { tx_id, message_id, to_path, from_path, protocol }
    }
}

impl Clone for MessageRelay {
    fn clone(&self) -> (copy: MessageRelay)
        ensures
            copy@ == self@,
    {
        let to_path = self.to_path.clone();
        let from_path = self.from_path.clone();
        assert(to_path@ =~= self.to_path@);
        assert(from_path@ =~= self.from_path@);
        MessageRelay {
            tx_id: self.tx_id.clone(),
            message_id: self.message_id.clone(),
            to_path,
            from_path,
            protocol: self.protocol,
        }
    }
}

/// The way of a connection request, as far as it has come.
#[derive(Debug)]
pub struct MsrpSend {
    pub from_path: Vec<Did>,
    pub to_path: Vec<Did>,
}

/// The way back of the answer to a connection request.
#[derive(Debug)]
pub struct MsrpReport {
    pub from_path: Vec<Did>,
    pub to_path: Vec<Did>,
}

/// What the way of a request or an answer says.
pub struct MsrpView {
    pub from_path: Seq<Did>,
    pub to_path: Seq<Did>,
}

impl View for MsrpSend {
    type V = MsrpView;

    open spec fn view(&self) -> MsrpView {
        MsrpView { from_path: self.from_path@, to_path: self.to_path@ }
    }
}

impl View for MsrpReport {
    type V = MsrpView;

    open spec fn view(&self) -> MsrpView {
        MsrpView { from_path: self.from_path@, to_path: self.to_path@ }
    }
}

impl Clone for MsrpSend {
    fn clone(&self) -> (copy: MsrpSend)
        ensures
            copy@ == self@,
    {
        let copy = MsrpSend { from_path: self.from_path.clone(), to_path: self.to_path.clone() };
        assert(copy.from_path@ =~= self.from_path@);
        assert(copy.to_path@ =~= self.to_path@);
        copy
    }
}

impl Clone for MsrpReport {
    fn clone(&self) -> (copy: MsrpReport)
        ensures
            copy@ == self@,
    {
        let copy = MsrpReport { from_path: self.from_path.clone(), to_path: self.to_path.clone() };
        assert(copy.from_path@ =~= self.from_path@);
        assert(copy.to_path@ =~= self.to_path@);
        copy
    }
}

/// Asks the node `target_id` for a connection.
#[derive(Debug)]
pub struct ConnectNode {
    pub sender_id: Did,
    pub target_id: Did,
    pub handshake_info: String,
}

impl Clone for ConnectNode {
    fn clone(&self) -> (copy: ConnectNode)
        ensures
            copy == *self,
    {
        ConnectNode {
            sender_id: self.sender_id,
            target_id: self.target_id,
            handshake_info: self.handshake_info.clone(),
        }
    }
}

/// Grants a connection.
#[derive(Debug)]
pub struct ConnectNodeResponse {
    pub answer_id: Did,
    pub handshake_info: String,
}

impl Clone for ConnectNodeResponse {
    fn clone(&self) -> (copy: ConnectNodeResponse)
        ensures
            copy == *self,
    {
        ConnectNodeResponse {
            answer_id: self.answer_id,
            handshake_info: self.handshake_info.clone(),
        }
    }
}

/// Says that there is a connection already.
#[derive(Clone, Copy, Debug)]
pub struct AlreadyConnected {
    pub answer_id: Did,
}

/// Asks who follows `id` on the ring.
#[derive(Clone, Copy, Debug)]
pub struct FindSuccessor {
    pub id: Did,
}

/// Says who follows on the ring.
#[derive(Clone, Copy, Debug)]
pub struct FoundSuccessor {
    pub id: Did,
}

/// Asks who follows `successor` on the ring, to mend a finger.
#[derive(Clone, Copy, Debug)]
pub struct FindSuccessorForFix {
    pub successor: Did,
}

/// Says who follows on the ring, to mend a finger.
#[derive(Clone, Copy, Debug)]
pub struct FoundSuccessorForFix {
    pub successor: Did,
}

/// Proposes a predecessor to a node.
#[derive(Clone, Copy, Debug)]
pub struct NotifyPredecessor {
    pub predecessor: Did,
}

/// Says which predecessor the node has.
#[derive(Clone, Copy, Debug)]
pub struct NotifiedPredecessor {
    pub predecessor: Did,
}

/// A message between two nodes.
#[derive(Debug)]
pub enum Message {
    ConnectNode(MsrpSend, ConnectNode),
    ConnectNodeResponse(MsrpReport, ConnectNodeResponse),
    AlreadyConnected(MsrpReport, AlreadyConnected),
    FindSuccessor(MessageRelay, FindSuccessor),
    FoundSuccessor(MessageRelay, FoundSuccessor),
    FindSuccessorForFix(MessageRelay, FindSuccessorForFix),
    FoundSuccessorForFix(MessageRelay, FoundSuccessorForFix),
    NotifyPredecessor(MessageRelay, NotifyPredecessor),
    NotifiedPredecessor(MessageRelay, NotifiedPredecessor),
}

/// What a message says.
pub enum MessageView {
    ConnectNode(MsrpView, ConnectNode),
    ConnectNodeResponse(MsrpView, ConnectNodeResponse),
    AlreadyConnected(MsrpView, AlreadyConnected),
    FindSuccessor(RelayView, FindSuccessor),
    FoundSuccessor(RelayView, FoundSuccessor),
    FindSuccessorForFix(RelayView, FindSuccessorForFix),
    FoundSuccessorForFix(RelayView, FoundSuccessorForFix),
    NotifyPredecessor(RelayView, NotifyPredecessor),
    NotifiedPredecessor(RelayView, NotifiedPredecessor),
}

impl View for Message {
    type V = MessageView;

    open spec fn view(&self) -> MessageView {
        match self {
            Message::ConnectNode(msrp, msg) => MessageView::ConnectNode(msrp@, *msg),
            Message::ConnectNodeResponse(msrp, msg) => MessageView::ConnectNodeResponse(
                msrp@,
                *msg,
            ),
            Message::AlreadyConnected(msrp, msg) => MessageView::AlreadyConnected(msrp@, *msg),
            Message::FindSuccessor(relay, msg) => MessageView::FindSuccessor(relay@, *msg),
            Message::FoundSuccessor(relay, msg) => MessageView::FoundSuccessor(relay@, *msg),
            Message::FindSuccessorForFix(relay, msg) => MessageView::FindSuccessorForFix(
                relay@,
                *msg,
            ),
            Message::FoundSuccessorForFix(relay, msg) => MessageView::FoundSuccessorForFix(
                relay@,
                *msg,
            ),
            Message::NotifyPredecessor(relay, msg) => MessageView::NotifyPredecessor(relay@, *msg),
            Message::NotifiedPredecessor(relay, msg) => MessageView::NotifiedPredecessor(
                relay@,
                *msg,
            ),
        }
    }
}

/// The model of a relay leaves nothing out and makes nothing up.
pub proof fn law_relay_model_is_faithful(relay: MessageRelay)
    ensures
        relay@.tx_id == relay.tx_id@,
        relay@.message_id == relay.message_id@,
        relay@.to_path == relay.to_path@,
        relay@.from_path == relay.from_path@,
        relay@.protocol == relay.protocol,
{
}

/// The models of requests' and answers' ways leave nothing out and make nothing up.
pub proof fn law_way_models_are_faithful(send: MsrpSend, report: MsrpReport)
    ensures
        send@.from_path == send.from_path@,
        send@.to_path == send.to_path@,
        report@.from_path == report.from_path@,
        report@.to_path == report.to_path@,
{
}

/// The model of a message is of the message's kind and holds its way and its content.
pub proof fn law_message_model_is_faithful(message: Message)
    ensures
        match message {
            Message::ConnectNode(way, msg) => message@ == MessageView::ConnectNode(way@, msg),
            Message::ConnectNodeResponse(way, msg) => message@
                == MessageView::ConnectNodeResponse(way@, msg),
            Message::AlreadyConnected(way, msg) => message@ == MessageView::AlreadyConnected(
                way@,
                msg,
            ),
            Message::FindSuccessor(way, msg) => message@ == MessageView::FindSuccessor(way@, msg),
            Message::FoundSuccessor(way, msg) => message@ == MessageView::FoundSuccessor(way@, msg),
            Message::FindSuccessorForFix(way, msg) => message@
                == MessageView::FindSuccessorForFix(way@, msg),
            Message::FoundSuccessorForFix(way, msg) => message@
                == MessageView::FoundSuccessorForFix(way@, msg),
            Message::NotifyPredecessor(way, msg) => message@ == MessageView::NotifyPredecessor(
                way@,
                msg,
            ),
            Message::NotifiedPredecessor(way, msg) => message@
                == MessageView::NotifiedPredecessor(way@, msg),
        },
{
}

} // verus!
