use std::collections::VecDeque;

use rings_core::granting::{Grant, Granting, GrantingEvent};
use rings_core::handler::{
    ChordAction, ChordState, ConnectAnswer, ConnectStep, Handling, HandlerError, MessageHandler,
    Outgoing, RemoteAction, ResponseAction,
};
use rings_core::message::{
    AlreadyConnected, ConnectNode, ConnectNodeResponse, FindSuccessor, FindSuccessorForFix,
    FoundSuccessor, FoundSuccessorForFix, Message, MessageRelay, MsrpReport, MsrpSend,
    NotifiedPredecessor, NotifyPredecessor, RelayProtocol,
};
use rings_core::types::{Did, SdpType};

fn did(n: u8) -> Did {
    Did { bytes: [n; 20] }
}

fn node(n: u8, successor: u8) -> MessageHandler {
    MessageHandler::new(ChordState { id: did(n), successor: did(successor) })
}

fn path(nodes: &[u8]) -> VecDeque<Did> {
    nodes.iter().map(|n| did(*n)).collect()
}

fn relay(to: &[u8], from: &[u8], protocol: RelayProtocol) -> MessageRelay {
    MessageRelay::new("tx".to_string(), "mid".to_string(), path(to), path(from), protocol)
}

fn send(from: &[u8]) -> MsrpSend {
    MsrpSend { from_path: path(from).into(), to_path: vec![did(90)] }
}

fn report(to: &[u8]) -> MsrpReport {
    MsrpReport { from_path: vec![did(91)], to_path: path(to).into() }
}

fn request(target: u8) -> ConnectNode {
    ConnectNode { sender_id: did(1), target_id: did(target), handshake_info: "hs".to_string() }
}

fn response() -> ConnectNodeResponse {
    ConnectNodeResponse { answer_id: did(3), handshake_info: "hs".to_string() }
}

#[test]
fn only_fresh_and_signed_messages_are_admitted() {
    assert!(MessageHandler::admits(false, true));
    assert!(!MessageHandler::admits(true, true));
    assert!(!MessageHandler::admits(false, false));
    assert!(!MessageHandler::admits(true, false));
}

#[test]
fn messages_are_told_apart() {
    let way = || relay(&[1], &[2], RelayProtocol::SEND);
    let handled = [
        (Message::ConnectNode(send(&[1]), request(2)), Ok(Handling::ConnectNode)),
        (
            Message::FindSuccessor(way(), FindSuccessor { id: did(1) }),
            Ok(Handling::FindSuccessor),
        ),
        (
            Message::FoundSuccessor(way(), FoundSuccessor { id: did(1) }),
            Ok(Handling::FoundSuccessor),
        ),
        (
            Message::NotifyPredecessor(way(), NotifyPredecessor { predecessor: did(1) }),
            Ok(Handling::NotifyPredecessor),
        ),
        (
            Message::NotifiedPredecessor(way(), NotifiedPredecessor { predecessor: did(1) }),
            Ok(Handling::NotifiedPredecessor),
        ),
        (
            Message::ConnectNodeResponse(report(&[1]), response()),
            Err(HandlerError::UnsupportedMessageType),
        ),
        (
            Message::AlreadyConnected(report(&[1]), AlreadyConnected { answer_id: did(1) }),
            Err(HandlerError::UnsupportedMessageType),
        ),
        (
            Message::FindSuccessorForFix(way(), FindSuccessorForFix { successor: did(1) }),
            Err(HandlerError::UnsupportedMessageType),
        ),
        (
            Message::FoundSuccessorForFix(way(), FoundSuccessorForFix { successor: did(1) }),
            Err(HandlerError::UnsupportedMessageType),
        ),
    ];
    for (message, handling) in handled {
        assert_eq!(MessageHandler::handle_message(&message), handling);
    }
}

#[test]
fn errors_in_words() {
    assert_eq!(HandlerError::UnsupportedMessageType.text(), "Unsupported message type");
    assert_eq!(HandlerError::NoNextNode.text(), "Cannot find next node by dht");
    assert_eq!(HandlerError::NoPreviousNode.text(), "Cannot get node");
    assert_eq!(
        HandlerError::NoTransportForAlreadyConnected.text(),
        "Receive AlreadyConnected but cannot get transport"
    );
    assert_eq!(
        HandlerError::NoTransportForConnectNodeResponse.text(),
        "Cannot get trans while handle connect node response"
    );
    assert_eq!(HandlerError::InvalidChordAction.text(), "Invalid Chord Action");
}

#[test]
fn request_for_another_node_is_passed_on() {
    match node(2, 3).handle_connect_node(&send(&[1]), &request(5)) {
        Ok(ConnectStep::FindNext { target }) => assert_eq!(target, did(5)),
        _ => panic!("the request was taken as this node's"),
    }
    let found = [
        ChordAction::Node(did(4)),
        ChordAction::RemoteAction((did(4), RemoteAction::FindSuccessor(did(5)))),
    ];
    for action in found {
        let sent = MessageHandler::forward_connect_node(&send(&[1]), &request(5), action).unwrap();
        assert_eq!(sent.to, did(4));
        match sent.message {
            Message::ConnectNode(msrp, msg) => {
                assert_eq!(msrp.from_path, [did(1)]);
                assert_eq!(msrp.to_path, [did(90)]);
                assert_eq!(msg.sender_id, did(1));
                assert_eq!(msg.target_id, did(5));
                assert_eq!(msg.handshake_info, "hs");
            }
            _ => panic!("another message was sent"),
        }
    }
}

#[test]
fn request_that_leads_nowhere() {
    assert!(matches!(
        MessageHandler::forward_connect_node(&send(&[1]), &request(5), ChordAction::Nothing),
        Err(HandlerError::NoNextNode)
    ));
}

#[test]
fn request_for_this_node() {
    match node(2, 3).handle_connect_node(&send(&[8, 9]), &request(2)) {
        Ok(ConnectStep::LookUp { sender, prev }) => {
            assert_eq!(sender, did(1));
            assert_eq!(prev, did(9));
        }
        _ => panic!("the request was not taken as this node's"),
    }
    assert!(matches!(
        node(2, 3).handle_connect_node(&send(&[]), &request(2)),
        Err(HandlerError::NoPreviousNode)
    ));
}

fn grant() -> Grant {
    match node(2, 3).answer_connect_node(&request(2), did(9), report(&[1]), false) {
        ConnectAnswer::Accept(grant) => grant,
        _ => panic!("the sender was turned away"),
    }
}

#[test]
fn unknown_sender_is_accepted() {
    let grant = grant();
    assert_eq!(grant.answer_id, did(2));
    assert_eq!(grant.sender, did(1));
    assert_eq!(grant.handshake_info, "hs");
    assert_eq!(grant.to, did(9));
    assert_eq!(grant.report.to_path, [did(1)]);
}

#[test]
fn connection_is_granted_step_by_step() {
    let granting: Granting<&str, u8> = Granting::begin(grant());
    assert!(matches!(granting, Granting::CreatingTransport { .. }));
    let granting = granting.advance(GrantingEvent::TransportCreated(Ok("transport")));
    match &granting {
        Granting::TakingIn { grant, transport } => {
            assert_eq!(grant.handshake_info, "hs");
            assert_eq!(*transport, "transport");
        }
        _ => panic!("the handshake message is not taken in"),
    }
    let granting = granting.advance(GrantingEvent::Described(Ok("early".to_string())));
    assert!(matches!(granting, Granting::TakingIn { .. }));
    let granting = granting.advance(GrantingEvent::TakenIn(Ok(did(1))));
    assert!(matches!(granting, Granting::Describing { kind: SdpType::Answer, .. }));
    let granting = granting.advance(GrantingEvent::Described(Ok("mine".to_string())));
    match &granting {
        Granting::Responding {
            response: Outgoing { to, message: Message::ConnectNodeResponse(way, msg) },
            ..
        } => {
            assert_eq!(*to, did(9));
            assert_eq!(way.to_path, [did(1)]);
            assert_eq!(msg.answer_id, did(2));
            assert_eq!(msg.handshake_info, "mine");
        }
        _ => panic!("no response is sent"),
    }
    let granting = granting.advance(GrantingEvent::Responded(Ok(())));
    assert!(matches!(
        granting,
        Granting::Connecting { transport: "transport", bounds: (20, 3), .. }
    ));
    match granting.advance(GrantingEvent::Connected(Ok(()))) {
        Granting::Finished(Ok((sender, transport))) => {
            assert_eq!(sender, did(1));
            assert_eq!(transport, "transport");
        }
        _ => panic!("the connection is not granted"),
    }
}

#[test]
fn first_failure_ends_the_granting() {
    let begun = || -> Granting<&str, u8> { Granting::begin(grant()) };
    let created = || begun().advance(GrantingEvent::TransportCreated(Ok("transport")));
    let taken_in = || created().advance(GrantingEvent::TakenIn(Ok(did(1))));
    let described = || taken_in().advance(GrantingEvent::Described(Ok("mine".to_string())));
    let responded = || described().advance(GrantingEvent::Responded(Ok(())));
    for failed in [
        begun().advance(GrantingEvent::TransportCreated(Err(7))),
        created().advance(GrantingEvent::TakenIn(Err(7))),
        taken_in().advance(GrantingEvent::Described(Err(7))),
        described().advance(GrantingEvent::Responded(Err(7))),
        responded().advance(GrantingEvent::Connected(Err(7))),
    ] {
        let failed = failed.advance(GrantingEvent::Connected(Ok(())));
        assert!(matches!(failed, Granting::Finished(Err(7))));
    }
}

#[test]
fn known_sender_is_told_so() {
    match node(2, 3).answer_connect_node(&request(2), did(9), report(&[1]), true) {
        ConnectAnswer::Reply(Outgoing { to, message: Message::AlreadyConnected(way, msg) }) => {
            assert_eq!(to, did(9));
            assert_eq!(way.to_path, [did(1)]);
            assert_eq!(msg.answer_id, did(2));
        }
        _ => panic!("the sender was not told"),
    }
}

#[test]
fn already_connected_travels_back() {
    let msg = AlreadyConnected { answer_id: did(3) };
    match MessageHandler::handle_already_connected(&report(&[1, 4]), &msg, false) {
        Ok(Some(Outgoing { to, message: Message::AlreadyConnected(way, sent) })) => {
            assert_eq!(to, did(4));
            assert_eq!(way.to_path, [did(1), did(4)]);
            assert_eq!(sent.answer_id, did(3));
        }
        _ => panic!("the word was not passed on"),
    }
    assert!(matches!(
        MessageHandler::handle_already_connected(&report(&[]), &msg, true),
        Ok(None)
    ));
    assert!(matches!(
        MessageHandler::handle_already_connected(&report(&[]), &msg, false),
        Err(HandlerError::NoTransportForAlreadyConnected)
    ));
}

#[test]
fn response_travels_back() {
    match MessageHandler::handle_connect_node_response(&report(&[1, 4]), &response(), false) {
        Ok(ResponseAction::Forward(Outgoing {
            to,
            message: Message::ConnectNodeResponse(way, sent),
        })) => {
            assert_eq!(to, did(4));
            assert_eq!(way.to_path, [did(1), did(4)]);
            assert_eq!(sent.answer_id, did(3));
            assert_eq!(sent.handshake_info, "hs");
        }
        _ => panic!("the response was not passed on"),
    }
    assert!(matches!(
        MessageHandler::handle_connect_node_response(&report(&[]), &response(), true),
        Ok(ResponseAction::Register)
    ));
    assert!(matches!(
        MessageHandler::handle_connect_node_response(&report(&[]), &response(), false),
        Err(HandlerError::NoTransportForConnectNodeResponse)
    ));
}

#[test]
fn proposal_is_answered_with_the_predecessor() {
    let sent = MessageHandler::handle_notify_predecessor(
        &relay(&[5, 6], &[7], RelayProtocol::SEND),
        did(8),
    );
    assert_eq!(sent.to, did(6));
    match sent.message {
        Message::NotifiedPredecessor(way, msg) => {
            assert_eq!(way.tx_id, "tx");
            assert_eq!(way.message_id, "mid");
            assert_eq!(way.to_path, path(&[5, 6]));
            assert_eq!(way.from_path, path(&[7]));
            assert_eq!(way.protocol, RelayProtocol::REPORT);
            assert_eq!(msg.predecessor, did(8));
        }
        _ => panic!("another message was sent"),
    }
}

#[test]
fn notified_predecessor_between_becomes_the_successor() {
    let mut handler = node(2, 20);
    handler.handle_notified_predecessor(
        &relay(&[1, 2], &[20], RelayProtocol::REPORT),
        &NotifiedPredecessor { predecessor: did(9) },
        true,
    );
    assert_eq!(handler.routing.id, did(2));
    assert_eq!(handler.routing.successor, did(9));
}

#[test]
fn notified_predecessor_elsewhere_changes_nothing() {
    let mut handler = node(2, 20);
    handler.handle_notified_predecessor(
        &relay(&[1, 2], &[20], RelayProtocol::REPORT),
        &NotifiedPredecessor { predecessor: did(2) },
        false,
    );
    assert_eq!(handler.routing.id, did(2));
    assert_eq!(handler.routing.successor, did(20));
}

#[test]
fn found_successor_is_reported() {
    let sent = node(2, 3).handle_find_successor(
        &relay(&[5, 6], &[7, 8], RelayProtocol::SEND),
        ChordAction::Node(did(9)),
    );
    assert_eq!(sent.to, did(6));
    match sent.message {
        Message::FoundSuccessor(way, msg) => {
            assert_eq!(way.to_path, path(&[7, 8]));
            assert_eq!(way.from_path, path(&[5, 6]));
            assert_eq!(way.protocol, RelayProtocol::REPORT);
            assert_eq!(msg.id, did(9));
        }
        _ => panic!("another message was sent"),
    }
}

#[test]
fn question_is_put_to_the_next_node() {
    let sent = node(2, 3).handle_find_successor(
        &relay(&[5], &[7], RelayProtocol::SEND),
        ChordAction::RemoteAction((did(4), RemoteAction::FindSuccessor(did(9)))),
    );
    assert_eq!(sent.to, did(4));
    match sent.message {
        Message::FindSuccessor(way, msg) => {
            assert_eq!(way.tx_id, "tx");
            assert_eq!(way.to_path, path(&[7, 2]));
            assert_eq!(way.from_path, path(&[5, 4]));
            assert_eq!(way.protocol, RelayProtocol::SEND);
            assert_eq!(msg.id, did(9));
            let answer = node(4, 5).handle_find_successor(&way, ChordAction::Node(did(6)));
            assert_eq!(answer.to, did(2));
        }
        _ => panic!("another message was sent"),
    }
}

#[test]
fn report_goes_back_node_by_node() {
    let msg = FoundSuccessor { id: did(9) };
    let mut way = relay(&[1, 2, 3], &[6, 7], RelayProtocol::REPORT);
    for n in [3, 2] {
        let mut handler = node(n, 50);
        let sent = handler.handle_found_successor(&way, &msg).unwrap();
        assert_eq!(handler.routing.successor, did(50));
        assert_eq!(sent.to, did(n - 1));
        way = match sent.message {
            Message::FoundSuccessor(next, passed) => {
                assert_eq!(passed.id, did(9));
                next
            }
            _ => panic!("another message was sent"),
        };
    }
    assert_eq!(way.to_path, path(&[1]));
    assert!(way.from_path.is_empty());
    let mut handler = node(1, 50);
    assert!(handler.handle_found_successor(&way, &msg).is_none());
    assert_eq!(handler.routing.successor, did(9));
}

#[test]
fn stabilize_proposes_the_node_itself() {
    let sent = node(2, 3).stabilize();
    assert_eq!(sent.to, did(2));
    let way = match sent.message {
        Message::NotifyPredecessor(way, msg) => {
            assert_eq!(msg.predecessor, did(2));
            way
        }
        _ => panic!("another message was sent"),
    };
    assert_eq!(way.tx_id, "");
    assert_eq!(way.message_id, "");
    assert_eq!(way.to_path, path(&[3]));
    assert_eq!(way.from_path, path(&[2]));
    assert_eq!(way.protocol, RelayProtocol::SEND);
    assert_eq!(MessageHandler::handle_notify_predecessor(&way, did(8)).to, did(3));
}

#[test]
fn fingers_are_mended() {
    let action = ChordAction::RemoteAction((did(4), RemoteAction::FindSuccessorForFix(did(5))));
    match MessageHandler::fix_fingers(action) {
        Ok(Some(Outgoing { to, message: Message::FindSuccessorForFix(way, msg) })) => {
            assert_eq!(to, did(4));
            assert_eq!(way.to_path, path(&[4]));
            assert_eq!(way.from_path, path(&[5]));
            assert_eq!(way.protocol, RelayProtocol::SEND);
            assert_eq!(msg.successor, did(5));
        }
        _ => panic!("no finger was mended"),
    }
    assert!(matches!(MessageHandler::fix_fingers(ChordAction::Nothing), Ok(None)));
    for action in [
        ChordAction::Node(did(4)),
        ChordAction::RemoteAction((did(4), RemoteAction::FindSuccessor(did(5)))),
    ] {
        assert!(matches!(
            MessageHandler::fix_fingers(action),
            Err(HandlerError::InvalidChordAction)
        ));
    }
}
