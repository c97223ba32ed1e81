use aleph_node::clique::authorization::{
    answer_sent, handle_authorization, AuthContinuationHandler, Authorization, Authorizator,
    AuthorizatorError, Continuation,
};
use aleph_node::clique::peer::{
    half_address_info, shorten, stream_address_info, ConnectionInfo, PeerAddressInfo, PeerId,
    Splitted,
};
use aleph_node::clique::protocol::{
    cardiac_arrest_secs, incoming, outgoing, receiving, sending, Connection, ConnectionEvent,
    FromNetwork, FromUser, Message, Phase, ProtocolError, ReceiveStep, SendStep,
};

type Data = Vec<i32>;

/// Sends data over a connection that runs, and gives what arrives.
fn transmit(data: Data) -> Data {
    let message = match sending(FromUser::Data(data)) {
        SendStep::Send(message) => message,
        other => panic!("unexpected step: {:?}", other),
    };
    match receiving(FromNetwork::Message(message)) {
        ReceiveStep::Deliver(data) => data,
        other => panic!("unexpected step: {:?}", other),
    }
}

fn running(connection: &Connection<u8>, peer: u8) -> bool {
    matches!(connection.phase, Phase::Running(p) if p == peer)
}

fn result(connection: Connection<u8>) -> Result<(), ProtocolError> {
    match connection.phase {
        Phase::Finished(result) => result,
        other => panic!("not over: {:?}", other),
    }
}

fn established_incoming() -> Connection<u8> {
    let connection = incoming()
        .handle(ConnectionEvent::HandReceived(2))
        .handle(ConnectionEvent::Authorized(true));
    assert!(matches!(connection.phase, Phase::Announcement(2)));
    connection.handle(ConnectionEvent::Announced)
}

fn established_outgoing() -> Connection<u8> {
    let connection = outgoing(1);
    assert!(matches!(connection.phase, Phase::ExtendHand(1)));
    let connection = connection.handle(ConnectionEvent::HandTaken);
    assert!(matches!(connection.phase, Phase::Announcement(1)));
    connection.handle(ConnectionEvent::Announced)
}

#[test]
fn send_data() {
    assert!(running(&established_incoming(), 2));
    assert!(running(&established_outgoing(), 1));
    assert_eq!(transmit(vec![4, 3, 43]), vec![4, 3, 43]);
    assert_eq!(transmit(vec![2, 1, 3, 7]), vec![2, 1, 3, 7]);
    assert_eq!(transmit(vec![5, 4, 44]), vec![5, 4, 44]);
    assert_eq!(transmit(vec![3, 2, 4, 8]), vec![3, 2, 4, 8]);
}

#[test]
fn closed_by_parent_service() {
    assert!(matches!(
        sending::<Data>(FromUser::Closed),
        SendStep::Finish
    ));
    let connection = established_incoming().handle(ConnectionEvent::Closed);
    result(connection).expect("closed manually, should finish with no error");
}

#[test]
fn parent_service_dead() {
    let connection = incoming()
        .handle(ConnectionEvent::HandReceived(2))
        .handle(ConnectionEvent::Authorized(true))
        .handle(ConnectionEvent::ParentGone);
    assert_eq!(result(connection), Err(ProtocolError::NoParentConnection));
}

#[test]
fn parent_user_dead() {
    assert_eq!(transmit(vec![2, 1, 3, 7]), vec![2, 1, 3, 7]);
    let connection = established_incoming().handle(ConnectionEvent::UserGone);
    assert_eq!(result(connection), Err(ProtocolError::NoUserConnection));
}

#[test]
fn sender_dead_before_handshake() {
    let connection = incoming().handle(ConnectionEvent::HandshakeFailed);
    assert_eq!(result(connection), Err(ProtocolError::HandshakeError));
}

#[test]
fn sender_dead_after_handshake() {
    let error = match receiving::<Data>(FromNetwork::Broken) {
        ReceiveStep::Fail(error) => error,
        other => panic!("unexpected step: {:?}", other),
    };
    let connection = established_incoming().handle(ConnectionEvent::ReceivingFailed(error));
    assert_eq!(result(connection), Err(ProtocolError::ReceiveError));
}

#[test]
fn receiver_dead_before_handshake() {
    let connection = outgoing(1).handle(ConnectionEvent::HandshakeFailed);
    assert_eq!(result(connection), Err(ProtocolError::HandshakeError));
}

#[test]
fn do_not_call_sender_and_receiver_until_authorized() {
    let connection = incoming().handle(ConnectionEvent::HandReceived(2));
    assert!(matches!(connection.phase, Phase::Authorization(2)));
    let connection = connection.handle(ConnectionEvent::Announced);
    assert!(!running(&connection, 2));
    let connection = connection.handle(ConnectionEvent::Authorized(false));
    assert!(result(connection).is_ok());
    let connection = incoming()
        .handle(ConnectionEvent::HandReceived(2))
        .handle(ConnectionEvent::AuthorizationFailed);
    assert_eq!(result(connection), Err(ProtocolError::NotAuthorized));
}

#[test]
fn hearts_beat_while_there_is_no_data() {
    assert!(matches!(
        sending::<Data>(FromUser::Timeout),
        SendStep::Send(Message::Heartbeat)
    ));
    assert!(matches!(
        receiving::<Data>(FromNetwork::Message(Message::Heartbeat)),
        ReceiveStep::Wait
    ));
    assert!(matches!(
        receiving::<Data>(FromNetwork::Timeout),
        ReceiveStep::Fail(ProtocolError::CardiacArrest)
    ));
    assert_eq!(cardiac_arrest_secs(), 20);
    let connection = established_outgoing().handle(ConnectionEvent::SendFailed);
    assert_eq!(result(connection), Err(ProtocolError::SendError));
}

/// One request from its start to its end: what both sides return.
fn authorize(
    handler: impl FnOnce(u8) -> bool,
) -> (
    Result<bool, AuthorizatorError>,
    Result<(), AuthorizatorError>,
) {
    let answer = handle_authorization(Some(7), handler);
    (
        Authorizator.is_authorized(true, answer.ok()),
        answer_sent(true),
    )
}

#[test]
fn authorization_sanity_check() {
    let (authorizator_result, request_handler_result) = authorize(|_| true);
    assert_eq!(
        authorizator_result.expect("Authorizator should return Ok."),
        true
    );
    assert_eq!(
        request_handler_result.expect("Request handler should return Ok."),
        ()
    );

    let (authorizator_result, request_handler_result) = authorize(|_| false);
    assert_eq!(
        authorizator_result.expect("Authorizator should return Ok."),
        false
    );
    assert_eq!(
        request_handler_result.expect("Request handler should return Ok."),
        ()
    );
}

#[test]
fn authorizator_returns_error_when_handler_is_dropped() {
    let result = Authorizator.is_authorized(false, None);
    assert_eq!(result, Err(AuthorizatorError::MissingService))
}

#[test]
fn authorizator_returns_error_when_handler_disappeared() {
    let result = Authorizator.is_authorized(true, None);
    assert_eq!(result, Err(AuthorizatorError::ServiceDisappeared))
}

#[test]
fn authorization_request_handler_returns_error_when_all_authorizators_are_missing() {
    let result = handle_authorization(None, |_: u8| true);
    assert_eq!(result, Err(AuthorizatorError::MissingService));
    assert_eq!(answer_sent(false), Err(AuthorizatorError::MissingService));
}

#[test]
fn continuations_are_given_the_key() {
    assert!(AuthContinuationHandler::new(7).cont(|key| key == 7));
    assert!(!AuthContinuationHandler::new(8).cont(|key| key == 7));
}

#[test]
fn continuations_send_their_answer() {
    let mut answers = vec![];
    let result = AuthContinuationHandler::new(7).handle_authorization(
        |key| key == 7,
        |answer| {
            answers.push(answer);
            true
        },
    );
    assert_eq!(result, Ok(()));
    assert_eq!(answers, vec![true]);
    let result = AuthContinuationHandler::new(8).handle_authorization(|key| key == 7, |_| false);
    assert_eq!(result, Err(()));
}

struct Id(&'static str);

impl PeerId for Id {
    fn to_text(&self) -> String {
        self.0.to_string()
    }
}

#[test]
fn ids_are_shortened_for_the_log() {
    assert_eq!(Id("123456789012").to_short_string(), "123456789012");
    assert_eq!(Id("1234567890123").to_short_string(), "1234…67890123");
    assert_eq!(shorten("abcdefghijklmnopqrstuvwxyz"), "abcd…stuvwxyz");
    // what is left out is counted in bytes
    assert_eq!(shorten("ąąąąąąąą"), "ąąąą…");
}

struct Half(&'static str);

impl ConnectionInfo for Half {
    fn peer_address_info(&self) -> PeerAddressInfo {
        self.0.to_string()
    }
}

#[test]
fn connections_are_known_by_their_sending_half() {
    let connection = Splitted(Half("receiver"), Half("sender"));
    assert_eq!(connection.peer_address_info(), "sender");
    let (sender, receiver) = connection.split();
    assert_eq!(sender.peer_address_info(), "sender");
    assert_eq!(receiver.peer_address_info(), "receiver");
}

#[test]
fn unknown_addresses_say_why() {
    let known: Result<String, String> = Ok("1.2.3.4:5".to_string());
    let unknown: Result<String, String> = Err("not connected".to_string());
    assert_eq!(stream_address_info(known.clone()), "1.2.3.4:5");
    assert_eq!(
        stream_address_info(unknown.clone()),
        "unknown address: not connected"
    );
    assert_eq!(half_address_info(known), "1.2.3.4:5");
    assert_eq!(half_address_info(unknown), "not connected");
}
