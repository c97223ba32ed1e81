use aleph_node::rpc::client::{
    extrinsic_error, on_extrinsic_msg_submit_only, on_extrinsic_msg_until_broadcast,
    on_extrinsic_msg_until_finalized, on_extrinsic_msg_until_in_block,
    on_extrinsic_msg_until_ready, on_get_request_msg, on_subscription_msg, parse_status, react, unquote,
    Goal, Handled, Listener, RpcClientError, Submission, UndecodableHash, UnsupportedXtStatus,
    WsRpcClient, XtStatus,
};
use aleph_node::rpc::config::{read_phrase, Config};

const FINALIZED: &str = r#"{"params":{"result":{"finalized":"0xabcd"}}}"#;
const IN_BLOCK: &str = r#"{"params":{"result":{"inBlock":"0xab"}}}"#;
const BROADCAST: &str = r#"{"params":{"result":{"broadcast":["a", "b"]}}}"#;
const READY: &str = r#"{"params":{"result":"ready"}}"#;
const FUTURE: &str = r#"{"params":{"result":"future"}}"#;
const ERROR: &str = r#"{"error":{"code":-32,"message":"bad","data":"proof"}}"#;

fn sent(handled: &Handled) -> Option<&str> {
    handled.sent.as_deref()
}

fn nothing(handled: Option<Handled>) {
    let handled = handled.expect("it can be understood");
    assert!(handled.sent.is_none());
    assert!(handled.error.is_none());
}

fn ends(handled: Option<Handled>, value: &str) {
    let handled = handled.expect("it can be understood");
    assert_eq!(sent(&handled), Some(value));
    assert!(handled.error.is_none());
}

fn fails(handled: Option<Handled>, text: &str) {
    let handled = handled.expect("it can be understood");
    assert_eq!(sent(&handled), Some(""));
    match handled.error {
        Some(RpcClientError::Extrinsic(error)) => assert_eq!(error, text),
        other => panic!("unexpected error: {:?}", other),
    }
}

fn is_not_json(handled: Option<Handled>) {
    let handled = handled.expect("it can be understood");
    assert_eq!(sent(&handled), Some(""));
    assert!(matches!(handled.error, Some(RpcClientError::Serde)));
}

fn status(msg: &str) -> (XtStatus, Option<String>) {
    parse_status(msg).expect("it can be understood").expect("no error")
}

#[test]
fn statuses_are_told_apart() {
    assert_eq!(
        status(FINALIZED),
        (XtStatus::Finalized, Some("\"0xabcd\"".to_string()))
    );
    assert_eq!(
        status(IN_BLOCK),
        (XtStatus::InBlock, Some("\"0xab\"".to_string()))
    );
    assert_eq!(
        status(BROADCAST),
        (XtStatus::Broadcast, Some("[\"a\",\"b\"]".to_string()))
    );
    assert_eq!(status(READY), (XtStatus::Ready, None));
    assert_eq!(status(FUTURE), (XtStatus::Future, None));
    assert_eq!(status(r#"{"params":{"result":"odd"}}"#), (XtStatus::Unknown, None));
    assert_eq!(status(r#"{"params":{"result":{}}}"#), (XtStatus::Unknown, None));
    assert_eq!(status(r#"{"params":{"result":7}}"#), (XtStatus::Unknown, None));
    assert_eq!(status("{}"), (XtStatus::Unknown, None));
    assert_eq!(status("[]"), (XtStatus::Unknown, None));
    // an error that is no object is none
    assert_eq!(status(r#"{"error":"x","params":{"result":"ready"}}"#), (XtStatus::Ready, None));
    // a member that is there counts, whatever it is
    assert_eq!(
        status(r#"{"params":{"result":{"inBlock":"0x1","finalized":null}}}"#),
        (XtStatus::Finalized, Some("null".to_string()))
    );
}

#[test]
fn waits_end_with_what_is_waited_for() {
    ends(on_extrinsic_msg_until_finalized(FINALIZED), "\"0xabcd\"");
    nothing(on_extrinsic_msg_until_finalized(IN_BLOCK));
    nothing(on_extrinsic_msg_until_finalized(BROADCAST));
    nothing(on_extrinsic_msg_until_finalized(READY));
    ends(on_extrinsic_msg_until_finalized(FUTURE), "");

    ends(on_extrinsic_msg_until_in_block(FINALIZED), "\"0xabcd\"");
    ends(on_extrinsic_msg_until_in_block(IN_BLOCK), "\"0xab\"");
    nothing(on_extrinsic_msg_until_in_block(BROADCAST));
    nothing(on_extrinsic_msg_until_in_block(READY));
    ends(on_extrinsic_msg_until_in_block(FUTURE), "");

    ends(on_extrinsic_msg_until_broadcast(FINALIZED), "\"0xabcd\"");
    nothing(on_extrinsic_msg_until_broadcast(IN_BLOCK));
    ends(on_extrinsic_msg_until_broadcast(BROADCAST), "");
    nothing(on_extrinsic_msg_until_broadcast(READY));
    ends(on_extrinsic_msg_until_broadcast(FUTURE), "");

    ends(on_extrinsic_msg_until_ready(FINALIZED), "\"0xabcd\"");
    nothing(on_extrinsic_msg_until_ready(IN_BLOCK));
    nothing(on_extrinsic_msg_until_ready(BROADCAST));
    ends(on_extrinsic_msg_until_ready(READY), "");
    ends(on_extrinsic_msg_until_ready(FUTURE), "");
}

#[test]
fn errors_end_every_wait() {
    let text = "extrinsic error code -32: bad: proof";
    fails(on_extrinsic_msg_until_finalized(ERROR), text);
    fails(on_extrinsic_msg_until_in_block(ERROR), text);
    fails(on_extrinsic_msg_until_broadcast(ERROR), text);
    fails(on_extrinsic_msg_until_ready(ERROR), text);
    fails(on_extrinsic_msg_submit_only(ERROR), text);
    fails(
        on_extrinsic_msg_until_ready(r#"{"error":{}}"#),
        "extrinsic error code -1: : ",
    );
    is_not_json(on_extrinsic_msg_until_finalized("no json"));
    is_not_json(on_extrinsic_msg_submit_only("{"));
}

#[test]
fn errors_that_cannot_be_read_are_not_understood() {
    assert!(on_extrinsic_msg_until_ready(r#"{"error":{"code":"x"}}"#).is_none());
    assert!(on_extrinsic_msg_until_ready(r#"{"error":{"message":1}}"#).is_none());
    assert!(on_extrinsic_msg_until_ready(r#"{"error":{"data":{}}}"#).is_none());
    assert!(on_extrinsic_msg_submit_only("{}").is_none());
    assert!(on_extrinsic_msg_submit_only(r#"{"result":7}"#).is_none());
}

#[test]
fn errors_are_put_into_words() {
    for (code, text) in [
        (0, "extrinsic error code 0: m: d"),
        (1010, "extrinsic error code 1010: m: d"),
        (i64::MAX, "extrinsic error code 9223372036854775807: m: d"),
        (i64::MIN, "extrinsic error code -9223372036854775808: m: d"),
    ] {
        match extrinsic_error(code, "m", "d") {
            RpcClientError::Extrinsic(error) => assert_eq!(error, text),
            other => panic!("unexpected error: {:?}", other),
        }
    }
}

#[test]
fn submissions_yield_their_result() {
    ends(on_extrinsic_msg_submit_only(r#"{"result":"0x12"}"#), "0x12");
}

#[test]
fn requests_yield_their_result_as_json() {
    let handled = on_get_request_msg(r#"{"result":{"b": 1, "a": [true, null]}}"#);
    assert_eq!(sent(&handled), Some(r#"{"a":[true,null],"b":1}"#));
    assert!(handled.error.is_none());
    let handled = on_get_request_msg("{}");
    assert_eq!(sent(&handled), Some("null"));
    let handled = on_get_request_msg("[");
    assert!(handled.sent.is_none());
    assert!(matches!(handled.error, Some(RpcClientError::Serde)));
}

fn subscribed(msg: &str) -> Option<String> {
    let handled = on_subscription_msg(msg);
    assert!(handled.error.is_none());
    handled.sent
}

#[test]
fn subscriptions_yield_changes_and_heads() {
    let change = r#"{"method":"state_storage","params":{"result":{"changes":[["0xk","0xv"]]}}}"#;
    assert_eq!(subscribed(change), Some("0xv".to_string()));
    let no_change = r#"{"method":"state_storage","params":{"result":{"changes":[["0xk",null]]}}}"#;
    assert_eq!(subscribed(no_change), None);
    assert_eq!(subscribed(r#"{"method":"state_storage"}"#), None);
    let head = r#"{"method":"chain_finalizedHead","params":{"result":{"number":"0x5"}}}"#;
    assert_eq!(subscribed(head), Some(r#"{"number":"0x5"}"#.to_string()));
    assert_eq!(
        subscribed(r#"{"method":"chain_finalizedHead"}"#),
        Some("null".to_string())
    );
    let answer = r#"{"id":"1","method":"chain_finalizedHead","params":{"result":1}}"#;
    assert_eq!(subscribed(answer), None);
    // an id that is no text is none
    let numbered = r#"{"id":1,"method":"chain_finalizedHead","params":{"result":1}}"#;
    assert_eq!(subscribed(numbered), Some("1".to_string()));
    assert_eq!(subscribed(r#"{"method":"other"}"#), None);
    assert_eq!(subscribed("{}"), None);
    let handled = on_subscription_msg("?");
    assert!(handled.sent.is_none());
    assert!(matches!(handled.error, Some(RpcClientError::Serde)));
}

#[test]
fn reactions_depend_on_the_goal() {
    let handled = react(Goal::InBlock, Ok((XtStatus::InBlock, Some("h".to_string()))));
    assert_eq!(sent(&handled), Some("h"));
    let handled = react(Goal::Broadcast, Ok((XtStatus::Broadcast, Some("p".to_string()))));
    assert_eq!(sent(&handled), Some(""));
    let handled = react(Goal::Ready, Ok((XtStatus::Unknown, None)));
    assert!(handled.sent.is_none());
}

#[test]
fn clients_listen_for_one_thing_at_a_time() {
    let mut client = WsRpcClient::new();
    nothing(client.on_message(READY));
    client.get();
    ends(client.on_message(r#"{"result":5}"#), "5");
    client.start_subscriber();
    nothing(client.on_message(READY));

    let submission = client
        .send_extrinsic("0x01".to_string(), XtStatus::Finalized)
        .expect("supported");
    assert_eq!(
        submission,
        Submission {
            extrinsic: "0x01".to_string(),
            watch: true,
            listener: Listener::Extrinsic(Goal::Finalized),
            yields_hash: true
        }
    );
    nothing(client.on_message(READY));
    ends(client.on_message(FINALIZED), "\"0xabcd\"");
    assert_eq!(
        client.finish_extrinsic(&submission, "\"0xabcd\""),
        Err(UndecodableHash)
    );
    nothing(client.on_message(FINALIZED));
    let submission = client
        .send_extrinsic("0x02".to_string(), XtStatus::Finalized)
        .expect("supported");
    let received = format!("\"0x{}\"", "0a".repeat(32));
    assert_eq!(
        client.finish_extrinsic(&submission, &received),
        Ok(Some([10; 32]))
    );
    nothing(client.on_message(FINALIZED));
}

#[test]
fn hashes_are_received_in_quotes() {
    assert_eq!(unquote("\"\"a\"b\""), "a\"b");
    assert_eq!(unquote("ab"), "ab");
    assert_eq!(unquote("\"\""), "");
    let mut client = WsRpcClient::new();
    let submission = client
        .send_extrinsic(String::new(), XtStatus::InBlock)
        .expect("supported");
    let bare = "Ff".repeat(32);
    assert_eq!(
        client.finish_extrinsic(&submission, &bare),
        Ok(Some([255; 32]))
    );
    let submission = client
        .send_extrinsic(String::new(), XtStatus::Ready)
        .expect("supported");
    assert_eq!(client.finish_extrinsic(&submission, &bare), Ok(None));
}

#[test]
fn submissions_depend_on_the_status() {
    let mut client = WsRpcClient::new();
    for (exit_on, watch, listener, yields_hash) in [
        (XtStatus::InBlock, true, Listener::Extrinsic(Goal::InBlock), true),
        (XtStatus::Broadcast, true, Listener::Extrinsic(Goal::Broadcast), false),
        (XtStatus::Ready, true, Listener::Extrinsic(Goal::Ready), false),
        (XtStatus::SubmitOnly, false, Listener::SubmitOnly, false),
    ] {
        let expected = Submission {
            extrinsic: "0xee".to_string(),
            watch,
            listener,
            yields_hash,
        };
        assert_eq!(client.send_extrinsic("0xee".to_string(), exit_on), Ok(expected));
    }
    for unsupported in [XtStatus::Future, XtStatus::Error, XtStatus::Unknown] {
        assert_eq!(
            client.send_extrinsic("0xee".to_string(), unsupported),
            Err(UnsupportedXtStatus(unsupported))
        );
        nothing(client.on_message(ERROR));
    }
}

#[test]
fn configurations_have_defaults() {
    let config = Config::default();
    assert_eq!(config.nodes, vec!["127.0.0.1:9945".to_string()]);
    assert_eq!(config.transactions, 10000);
    assert_eq!(config.throughput, 1000);
    assert_eq!(config.first_account_in_range, 0);
    assert_eq!(config.threads, 3);
    assert!(!config.skip_initialization);
    assert_eq!(
        read_phrase("path".to_string(), Some(" secret words \t\n\u{a0}".to_string())),
        " secret words"
    );
    assert_eq!(read_phrase("path".to_string(), Some(" \n".to_string())), "");
    assert_eq!(read_phrase("phrase ".to_string(), None), "phrase ");
}
