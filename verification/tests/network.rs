use aleph_node::network::address::PeerId;
use aleph_node::network::gossip::{
    EventOutcome, NetworkEvent, ProtocolNetwork, ProtocolNetworkError,
};
use aleph_node::network::split::{
    left_send, receiver_step, right_send, split, Received, ReceiverEvent, ReceiverStep,
    Recipient, Split,
};
use aleph_node::network::startup::{
    network, NetworkPart, RateLimitedStreamMuxer, RateLimiterConfig, StartOutcome, StartStep,
    SubstrateNetworkConfig,
};
use aleph_node::rate_limiter::hierarchical::HierarchicalTokenBucket;
use aleph_node::rate_limiter::limiter::RateLimiterFacade;
use aleph_node::rate_limiter::rate::NonZeroRatePerSecond;
use aleph_node::time::Instant;

fn peer(i: u8) -> PeerId {
    PeerId { bytes: vec![i, i] }
}

fn opened(i: u8) -> NetworkEvent {
    NetworkEvent::NotificationStreamOpened { peer: peer(i) }
}

fn closed(i: u8) -> NetworkEvent {
    NetworkEvent::NotificationStreamClosed { peer: peer(i) }
}

fn now(nanos: u128) -> Instant {
    Instant { nanos }
}

fn connected(peers: &[u8]) -> ProtocolNetwork {
    let mut network = ProtocolNetwork::new(now(0));
    for i in peers {
        assert!(matches!(
            network.handle_network_event(opened(*i)),
            EventOutcome::Ignore
        ));
    }
    network
}

#[test]
fn every_connected_peer_is_broadcast_to_once() {
    let mut network = connected(&[1, 2, 1, 3]);
    assert_eq!(network.broadcast(), vec![peer(1), peer(2), peer(3)]);
    network.handle_network_event(closed(2));
    network.handle_network_event(closed(7));
    assert_eq!(network.broadcast(), vec![peer(1), peer(3)]);
}

#[test]
fn events_are_handled() {
    let mut network = connected(&[]);
    assert!(matches!(
        network.handle_network_event(NetworkEvent::ValidateInboundSubstream { peer: peer(1) }),
        EventOutcome::Accept
    ));
    assert!(network.broadcast().is_empty());
    match network.on_event(Some(NetworkEvent::NotificationReceived {
        peer: peer(1),
        notification: vec![4, 5],
    })) {
        Ok(EventOutcome::Message { notification, peer }) => {
            assert_eq!(notification, vec![4, 5]);
            assert_eq!(peer, self::peer(1));
        }
        other => panic!("unexpected outcome: {:?}", other),
    }
    let ended = network.on_event(None);
    assert!(matches!(
        ended,
        Err(ProtocolNetworkError::NetworkStreamTerminated)
    ));
    assert_eq!(
        ProtocolNetworkError::NetworkStreamTerminated.text(),
        "Notifications event stream ended."
    );
}

#[test]
fn random_peers_are_taken_from_the_given_ones_first() {
    let network = connected(&[1, 2, 3]);
    for _ in 0..50 {
        assert_eq!(network.random_peer(&vec![peer(9), peer(2)]), Some(peer(2)));
        let any = network.random_peer(&vec![peer(9)]).expect("some are connected");
        assert!([peer(1), peer(2), peer(3)].contains(&any));
    }
    assert_eq!(connected(&[]).random_peer(&vec![peer(1)]), None);
    assert_eq!(network.candidates(&vec![peer(3), peer(9)]), vec![peer(3)]);
    assert_eq!(
        network.candidates(&vec![]),
        vec![peer(1), peer(2), peer(3)]
    );
}

#[test]
fn random_peers_are_not_always_the_same() {
    let network = connected(&[1, 2, 3, 4, 5, 6, 7, 8]);
    let first = network.random_peer(&vec![]);
    assert!((0..200).any(|_| network.random_peer(&vec![]) != first));
}

#[test]
fn reports_count_peers() {
    let mut network = connected(&[1, 2, 3]);
    assert_eq!(network.next_status_report(20, now(5)), now(20));
    assert_eq!(
        network.status_report("/auth/1", now(40)),
        "Network status report: /auth/1 connected peers - 3; "
    );
    assert_eq!(network.next_status_report(20, now(41)), now(60));
    assert_eq!(network.next_status_report(u128::MAX, now(41)), now(41));
}

#[test]
fn split_networks_get_their_own_data() {
    let mut channels = split::<u8, &str>();
    assert!(matches!(channels.next_left(), Received::Pending));
    assert!(channels.forward_or_wait(Some(Split::Left(1))));
    assert!(channels.forward_or_wait(Some(Split::Right("a"))));
    assert!(channels.forward_or_wait(Some(Split::Left(2))));
    assert!(matches!(channels.next_left(), Received::Data(1)));
    assert!(matches!(channels.next_right(), Received::Data("a")));
    assert!(matches!(channels.next_right(), Received::Pending));
    assert!(!channels.forward_or_wait(None));
    assert!(matches!(channels.next_right(), Received::Ended));
    assert!(matches!(channels.next_left(), Received::Data(2)));
    assert!(matches!(channels.next_left(), Received::Ended));
    assert!(channels.forward_or_wait(Some(Split::Right("late"))));
    assert!(matches!(channels.next_right(), Received::Ended));
}

#[test]
fn split_networks_send_over_their_parent() {
    let (data, recipient) = left_send::<u8, &str>(3, Recipient::Everyone);
    assert!(matches!(data, Split::Left(3)));
    assert_eq!(recipient, Recipient::Everyone);
    let (data, recipient) = right_send::<u8, &str>("x", Recipient::Node(4));
    assert!(matches!(data, Split::Right("x")));
    assert_eq!(recipient, Recipient::Node(4));
}

#[test]
fn receivers_wait_until_there_is_data_or_an_end() {
    assert!(matches!(
        receiver_step(ReceiverEvent::Translated(Some(1))),
        ReceiverStep::Return(Some(1))
    ));
    assert!(matches!(
        receiver_step(ReceiverEvent::<u8>::Forwarded { go_on: true }),
        ReceiverStep::Wait
    ));
    assert!(matches!(
        receiver_step(ReceiverEvent::<u8>::Forwarded { go_on: false }),
        ReceiverStep::Return(None)
    ));
}

#[test]
fn networks_start_part_by_part() {
    let config = SubstrateNetworkConfig::from(RateLimiterConfig {
        alephbft_bit_rate_per_connection: 64,
        substrate_bit_rate_per_connection: 128,
    });
    assert_eq!(config.substrate_bit_rate_per_connection, 128);
    let genesis_hash = [9; 32];
    let mut start = network::<&str>(config, genesis_hash);
    let base = NetworkPart::BaseProtocol { genesis_hash };
    assert_eq!(start.step(), StartStep::Start(base));
    start.on_outcome(StartOutcome::Started);
    let network_part = NetworkPart::BaseNetwork {
        rate_per_connection: 128,
    };
    assert_eq!(start.step(), StartStep::Start(network_part));
    start.on_outcome(StartOutcome::NetworkStarted {
        authentication: "/auth/1".to_string(),
        block_sync: "/sync/1".to_string(),
    });
    let service = NetworkPart::BaseProtocolService {
        genesis_hash,
        protocol_names: vec!["/auth/1".to_string(), "/sync/1".to_string()],
    };
    assert_eq!(start.step(), StartStep::Start(service));
    start.on_outcome(StartOutcome::Started);
    let handler = NetworkPart::TransactionHandler;
    assert_eq!(start.step(), StartStep::Start(handler));
    start.on_outcome(StartOutcome::Started);
    let rpc = NetworkPart::RpcService;
    assert_eq!(start.step(), StartStep::Start(rpc));
    start.on_outcome(StartOutcome::Started);
    assert_eq!(start.step(), StartStep::Complete);
    assert_eq!(start.result(), Ok(()));

    let mut start = network(config, genesis_hash);
    start.on_outcome(StartOutcome::Started);
    start.on_outcome(StartOutcome::Failed("no transport"));
    assert_eq!(start.step(), StartStep::Abort);
    assert_eq!(start.result(), Err("no transport"));
}

#[test]
fn streams_of_a_connection_share_its_limiter() {
    let rate = NonZeroRatePerSecond::try_from(10).expect("10 > 0 qed");
    let bucket = HierarchicalTokenBucket::new(rate, now(0));
    let muxer = RateLimitedStreamMuxer::new("muxer", RateLimiterFacade::RateLimiter(bucket));
    assert!(matches!(muxer.share(), RateLimiterFacade::RateLimiter(_)));
    assert_eq!(muxer.stream_muxer, "muxer");
    let blocked = RateLimitedStreamMuxer::new("muxer", RateLimiterFacade::NoTraffic);
    assert!(matches!(blocked.share(), RateLimiterFacade::NoTraffic));
}
