use aleph_node::crypto::{
    AuthorityId, AuthorityPen, AuthorityVerifier, NodeIndex, SessionId, Signature, SignatureSet,
};
use aleph_node::network::address::{get_common_peer_id, is_p2p, Multiaddr, PeerId};
use aleph_node::network::session::{AddressError, Handler, ValidatorHandler};

const NUM_NODES: usize = 7;

/// The keys of a committee: what each node signs with, and their public keys.
struct Keys {
    pens: Vec<AuthorityPen>,
}

impl Keys {
    fn new(generation: u8) -> Self {
        let pens = (0..NUM_NODES)
            .map(|i| AuthorityPen::new([generation * 16 + i as u8; 32]))
            .collect();
        Keys { pens }
    }

    fn authorities(&self) -> Vec<AuthorityId> {
        self.pens.iter().map(|pen| pen.authority_id()).collect()
    }

    fn pen(&self, i: usize) -> Option<(NodeIndex, AuthorityPen)> {
        Some((NodeIndex(i), self.pens[i]))
    }

    fn verify_with(&self) -> AuthorityVerifier {
        AuthorityVerifier::new(self.authorities())
    }
}

fn address(text: &str) -> Multiaddr {
    let peer_id = text.split("/p2p/").nth(1).map(|peer| PeerId {
        bytes: peer.as_bytes().to_vec(),
    });
    Multiaddr {
        bytes: text.as_bytes().to_vec(),
        peer_id,
    }
}

fn correct_addresses_0() -> Vec<Multiaddr> {
    vec![
        address("/dns4/example.com/tcp/30333/p2p/12D3KooWRkGLz4YbVmrsWK75VjFTs8NvaBu42xhAmQaP4KeJpw1L"),
        address("/dns4/peer.example.com/tcp/30333/p2p/12D3KooWRkGLz4YbVmrsWK75VjFTs8NvaBu42xhAmQaP4KeJpw1L"),
    ]
}

fn correct_addresses_1() -> Vec<Multiaddr> {
    vec![
        address("/dns4/other.example.com/tcp/30333/p2p/12D3KooWFVXnvJdPuGnGYMPn5qLQAQYwmRBgo6SmEQsKZSrDoo2k"),
        address("/dns4/peer.other.example.com/tcp/30333/p2p/12D3KooWFVXnvJdPuGnGYMPn5qLQAQYwmRBgo6SmEQsKZSrDoo2k"),
    ]
}

fn local_p2p_addresses() -> Vec<Multiaddr> {
    vec![address(
        "/ip4/127.0.0.1/tcp/30333/p2p/12D3KooWFVXnvJdPuGnGYMPn5qLQAQYwmRBgo6SmEQsKZSrDoo2k",
    )]
}

fn mixed_addresses() -> Vec<Multiaddr> {
    let mut addresses = correct_addresses_0();
    addresses.push(address("/ip4/example.com/udt/sctp/5678"));
    addresses.push(address("/ip4/81.6.39.166/udt/sctp/5678"));
    addresses
}

fn handler(keys: &Keys, i: usize, session: u32, addresses: Vec<Multiaddr>) -> Handler {
    Handler::new(keys.pen(i), keys.verify_with(), SessionId(session), addresses)
        .expect("the addresses are right")
}

fn nodes(range: std::ops::Range<usize>) -> Vec<NodeIndex> {
    range.map(NodeIndex).collect()
}

#[test]
fn creates_with_correct_data() {
    let keys = Keys::new(0);
    assert!(Handler::new(
        keys.pen(NUM_NODES - 1),
        keys.verify_with(),
        SessionId(43),
        correct_addresses_0()
    )
    .is_ok());
}

#[test]
fn creates_with_local_address() {
    let keys = Keys::new(0);
    assert!(Handler::new(
        keys.pen(NUM_NODES - 1),
        keys.verify_with(),
        SessionId(43),
        local_p2p_addresses()
    )
    .is_ok());
}

#[test]
fn creates_without_node_index_nor_authority_pen() {
    let keys = Keys::new(0);
    assert!(Handler::new(None, keys.verify_with(), SessionId(43), correct_addresses_0()).is_ok());
}

#[test]
fn fails_to_create_with_no_addresses() {
    let keys = Keys::new(0);
    assert!(matches!(
        Handler::new(
            keys.pen(NUM_NODES - 1),
            keys.verify_with(),
            SessionId(43),
            Vec::new()
        ),
        Err(AddressError::NoP2pAddresses)
    ));
}

#[test]
fn fails_to_create_with_non_unique_peer_id() {
    let keys = Keys::new(0);
    let addresses = correct_addresses_0()
        .into_iter()
        .chain(correct_addresses_1())
        .collect();
    assert!(matches!(
        Handler::new(
            keys.pen(NUM_NODES - 1),
            keys.verify_with(),
            SessionId(43),
            addresses
        ),
        Err(AddressError::MultiplePeerIds)
    ));
}

#[test]
fn misses_all_other_nodes_initially() {
    let keys = Keys::new(0);
    let handler0 = handler(&keys, NUM_NODES - 1, 43, correct_addresses_0());
    assert_eq!(handler0.missing_nodes(), nodes(0..NUM_NODES - 1));
    assert!(handler0.peer_id(&NodeIndex(1)).is_none());
}

#[test]
fn accepts_correct_authentication() {
    let keys = Keys::new(0);
    let mut handler0 = handler(&keys, 0, 43, correct_addresses_0());
    let handler1 = handler(&keys, 1, 43, correct_addresses_1());
    assert!(handler0.handle_authentication(handler1.authentication().unwrap()));
    assert_eq!(handler0.missing_nodes(), nodes(2..NUM_NODES));
    let peer_id1 = get_common_peer_id(&correct_addresses_1());
    assert_eq!(handler0.peer_id(&NodeIndex(1)), peer_id1);
    assert_eq!(handler0.node_id(&peer_id1.unwrap()), Some(NodeIndex(1)));
}

#[test]
fn nonvalidator_accepts_correct_authentication() {
    let keys = Keys::new(0);
    let mut handler0 =
        Handler::new(None, keys.verify_with(), SessionId(43), correct_addresses_0()).unwrap();
    let handler1 = handler(&keys, 1, 43, correct_addresses_1());
    assert!(handler0.authentication().is_none());
    assert!(handler0.handle_authentication(handler1.authentication().unwrap()));
    let mut expected_missing = nodes(0..NUM_NODES);
    expected_missing.remove(1);
    assert_eq!(handler0.missing_nodes(), expected_missing);
    let peer_id1 = get_common_peer_id(&correct_addresses_1());
    assert_eq!(handler0.peer_id(&NodeIndex(1)), peer_id1);
    assert_eq!(handler0.node_id(&peer_id1.unwrap()), Some(NodeIndex(1)));
}

#[test]
fn ignores_badly_signed_authentication() {
    let keys = Keys::new(0);
    let mut handler0 = handler(&keys, 0, 43, correct_addresses_0());
    let handler1 = handler(&keys, 1, 43, correct_addresses_1());
    let mut authentication = handler1.authentication().unwrap();
    authentication.1 = handler0.authentication().unwrap().1;
    assert!(!handler0.handle_authentication(authentication));
    assert_eq!(handler0.missing_nodes(), nodes(1..NUM_NODES));
}

#[test]
fn ignores_wrong_session_authentication() {
    let keys = Keys::new(0);
    let mut handler0 = handler(&keys, 0, 43, correct_addresses_0());
    let handler1 = handler(&keys, 1, 44, correct_addresses_1());
    assert!(!handler0.handle_authentication(handler1.authentication().unwrap()));
    assert_eq!(handler0.missing_nodes(), nodes(1..NUM_NODES));
}

#[test]
fn ignores_own_authentication() {
    let keys = Keys::new(0);
    let mut handler0 = handler(&keys, 0, 43, correct_addresses_0());
    let authentication = handler0.authentication().unwrap();
    assert!(!handler0.handle_authentication(authentication));
    assert_eq!(handler0.missing_nodes(), nodes(1..NUM_NODES));
}

#[test]
fn invalidates_obsolete_authentication() {
    let keys = Keys::new(0);
    let mut handler0 = handler(&keys, 0, 43, correct_addresses_0());
    let handler1 = handler(&keys, 1, 43, correct_addresses_1());
    assert!(handler0.handle_authentication(handler1.authentication().unwrap()));
    let new_keys = Keys::new(1);
    let connected = handler0
        .update(new_keys.pen(0), new_keys.verify_with(), correct_addresses_0())
        .unwrap();
    assert!(connected.is_empty());
    assert_eq!(handler0.missing_nodes(), nodes(1..NUM_NODES));
    assert!(handler0.peer_id(&NodeIndex(1)).is_none());
}

#[test]
fn uses_cached_authentication() {
    let keys = Keys::new(0);
    let mut handler0 = handler(&keys, 0, 43, correct_addresses_0());
    let mut handler1 = handler(&keys, 1, 43, correct_addresses_1());
    assert!(handler0.handle_authentication(handler1.authentication().unwrap()));
    let new_keys = Keys::new(1);
    assert!(handler1
        .update(new_keys.pen(1), new_keys.verify_with(), correct_addresses_1())
        .unwrap()
        .is_empty());
    assert!(!handler0.handle_authentication(handler1.authentication().unwrap()));
    let connected = handler0
        .update(new_keys.pen(0), new_keys.verify_with(), correct_addresses_0())
        .unwrap();
    assert_eq!(connected, correct_addresses_1());
    assert_eq!(handler0.missing_nodes(), nodes(2..NUM_NODES));
    assert_eq!(
        handler0.peer_id(&NodeIndex(1)),
        get_common_peer_id(&correct_addresses_1())
    );
}

#[test]
fn updates_with_the_same_keys_keep_authentications() {
    let keys = Keys::new(0);
    let mut handler0 = handler(&keys, 0, 43, mixed_addresses());
    let handler1 = handler(&keys, 1, 43, correct_addresses_1());
    assert!(handler0.handle_authentication(handler1.authentication().unwrap()));
    let connected = handler0
        .update(keys.pen(0), keys.verify_with(), correct_addresses_0())
        .unwrap();
    assert_eq!(connected, correct_addresses_1());
    assert_eq!(handler0.missing_nodes(), nodes(2..NUM_NODES));
}

#[test]
fn updates_with_wrong_addresses_fail() {
    let keys = Keys::new(0);
    let mut handler0 = handler(&keys, 0, 43, correct_addresses_0());
    let handler1 = handler(&keys, 1, 43, correct_addresses_1());
    assert!(handler0.handle_authentication(handler1.authentication().unwrap()));
    assert!(matches!(
        handler0.update(keys.pen(0), keys.verify_with(), Vec::new()),
        Err(AddressError::NoP2pAddresses)
    ));
    let peer_id1 = get_common_peer_id(&correct_addresses_1()).unwrap();
    assert_eq!(handler0.node_id(&peer_id1), Some(NodeIndex(1)));
}

#[test]
fn announcements_with_foreign_addresses_are_ignored() {
    let keys = Keys::new(0);
    let mut handler0 = handler(&keys, 0, 43, correct_addresses_1());
    // the announcement of a node with an address that names no peer has no common peer
    let handler1 = handler(&keys, 1, 43, mixed_addresses());
    assert!(!handler0.handle_authentication(handler1.authentication().unwrap()));
    assert!(get_common_peer_id(&mixed_addresses()).is_none());
    assert!(!is_p2p(&mixed_addresses()[2]));
}

#[test]
fn validators_handle_authentications() {
    let keys = Keys::new(0);
    let mut validator0 = ValidatorHandler::new(
        keys.pen(0).unwrap(),
        keys.verify_with(),
        SessionId(43),
        correct_addresses_0(),
    )
    .unwrap();
    let validator1 = ValidatorHandler::new(
        keys.pen(1).unwrap(),
        keys.verify_with(),
        SessionId(43),
        correct_addresses_1(),
    )
    .unwrap();
    assert!(validator0.handle_authentication(validator1.authentication()));
    assert!(validator0.handle_authentication(validator1.authentication()));
    assert_eq!(validator0.missing_nodes(), nodes(2..NUM_NODES));
    assert_eq!(
        validator0.peer_id(&NodeIndex(1)),
        get_common_peer_id(&correct_addresses_1())
    );
    let connected = validator0
        .update(
            keys.pen(0).unwrap(),
            keys.verify_with(),
            correct_addresses_0(),
        )
        .unwrap();
    assert_eq!(connected, correct_addresses_1());
    assert!(validator0
        .update(keys.pen(0).unwrap(), keys.verify_with(), Vec::new())
        .is_err());
    // nothing changed
    assert_eq!(validator0.missing_nodes(), nodes(2..NUM_NODES));
    let connected = validator0
        .update(
            keys.pen(0).unwrap(),
            keys.verify_with(),
            correct_addresses_0(),
        )
        .unwrap();
    assert_eq!(connected, correct_addresses_1());
}

#[test]
fn signatures_verify_under_the_key_that_made_them_only() {
    let keys = Keys::new(0);
    let verifier = keys.verify_with();
    let signature = keys.pens[2].sign(b"message");
    assert!(verifier.verify(b"message", &signature, NodeIndex(2)));
    assert!(!verifier.verify(b"message", &signature, NodeIndex(3)));
    assert!(!verifier.verify(b"massage", &signature, NodeIndex(2)));
    assert!(!verifier.verify(b"message", &signature, NodeIndex(NUM_NODES)));
    assert!(!verifier.verify(b"message", &Signature { bytes: [0; 64] }, NodeIndex(2)));
    assert_eq!(verifier.duplicate().node_count(), NUM_NODES);
}

fn signed_by(keys: &Keys, signers: &[usize], message: &[u8]) -> SignatureSet {
    let mut signatures: Vec<Option<Signature>> = vec![None; NUM_NODES];
    for i in signers {
        signatures[*i] = Some(keys.pens[*i].sign(message));
    }
    SignatureSet { signatures }
}

#[test]
fn more_than_two_thirds_make_a_multisignature_complete() {
    let keys = Keys::new(0);
    let verifier = keys.verify_with();
    assert_eq!(verifier.threshold(), 5);
    assert!(verifier.is_complete(b"block", &signed_by(&keys, &[0, 1, 2, 3, 4], b"block")));
    assert!(!verifier.is_complete(b"block", &signed_by(&keys, &[0, 1, 2, 3], b"block")));
    assert!(!verifier.is_complete(b"other", &signed_by(&keys, &[0, 1, 2, 3, 4], b"block")));
    let mut with_a_wrong_one = signed_by(&keys, &[0, 1, 2, 3, 4, 5], b"block");
    with_a_wrong_one.signatures[5] = Some(keys.pens[4].sign(b"block"));
    assert!(!verifier.is_complete(b"block", &with_a_wrong_one));
    let mut too_long = signed_by(&keys, &[0, 1, 2, 3, 4], b"block");
    too_long.signatures.push(Some(keys.pens[0].sign(b"block")));
    assert!(!verifier.is_complete(b"block", &too_long));
}

#[test]
fn announcements_are_encoded_field_by_field() {
    let data = aleph_node::network::session::AuthData {
        addresses: vec![Multiaddr {
            bytes: vec![1, 2],
            peer_id: None,
        }],
        node_id: NodeIndex(3),
        session_id: SessionId(43),
    };
    assert!(aleph_node::network::session::is_encodable(&data.addresses));
    assert_eq!(
        data.encode(),
        vec![4, 8, 1, 2, 3, 0, 0, 0, 0, 0, 0, 0, 43, 0, 0, 0]
    );
}
