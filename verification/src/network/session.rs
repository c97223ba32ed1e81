//! Authentications of the nodes of a session, and which peer each node is.

use std::collections::HashMap;

use vstd::prelude::*;

use crate::bytes::{byte_strings, copy_bytes};
use crate::crypto::{
    ed25519_public, ed25519_signature, ed25519_verifies, node_signed, AuthorityId, AuthorityPen,
    AuthorityVerifier, NodeIndex, SessionId, Signature,
};
use crate::network::address::{
    addresses_view, common_peer, copy_addresses, get_common_peer_id, is_p2p, AddressView,
    Multiaddr, PeerId,
};

verus! {

broadcast use vstd::std_specs::hash::group_hash_axioms;

/// What a node announces in a session: where it can be reached.
#[derive(Debug)]
pub struct AuthData {
    pub addresses: Vec<Multiaddr>,
    pub node_id: NodeIndex,
    pub session_id: SessionId,
}

/// An announcement with the signature of the node.
pub type Authentication = (AuthData, Signature);

/// What an authentication is.
#[verifier::ext_equal]
pub struct AuthView {
    pub addresses: Seq<AddressView>,
    pub node: usize,
    pub session: u32,
    pub signature: Seq<u8>,
}

/// What an authentication is.
pub open spec fn auth_view(authentication: Authentication) -> AuthView {
    AuthView {
        addresses: addresses_view(authentication.0.addresses@),
        node: authentication.0.node_id.0,
        session: authentication.0.session_id.0,
        signature: authentication.1.bytes@,
    }
}

/// What `parity_scale_codec::Encode::encode` makes of the binary forms of the
/// addresses, the index of the node and the number of the session, one after
/// the other.
pub uninterp spec fn scale_auth_data(addresses: Seq<Seq<u8>>, node: u64, session: u32) -> Seq<u8>;

/// The largest length that a list or a byte string can have in an encoding.
pub const MAX_ENCODED_LEN: usize = 4_294_967_295;

/// Calls `parity_scale_codec::Encode::encode` on the three values: the encoding
/// is a function of them. Nothing longer than [`MAX_ENCODED_LEN`] can be encoded.
#[verifier::external_body]
fn encode_auth_data(addresses: &Vec<Vec<u8>>, node: u64, session: u32) -> (bytes: Vec<u8>)
    requires
        addresses@.len() <= MAX_ENCODED_LEN,
        forall|i: int|
            0 <= i < addresses@.len() ==> (#[trigger] addresses@[i])@.len() <= MAX_ENCODED_LEN,
    ensures
        bytes@ == scale_auth_data(byte_strings(addresses@), node, session),
{
    parity_scale_codec::Encode::encode(&(addresses, node, session))
}

/// Whether the addresses can be encoded: neither the list nor any of them is too
/// long.
pub open spec fn encodable(addresses: Seq<AddressView>) -> bool {
    &&& addresses.len() <= MAX_ENCODED_LEN
    &&& forall|i: int|
        0 <= i < addresses.len() ==> (#[trigger] addresses[i]).bytes.len() <= MAX_ENCODED_LEN
}

/// Whether the addresses can be encoded.
pub fn is_encodable(addresses: &Vec<Multiaddr>) -> (can: bool)
    ensures
        can == encodable(addresses_view(addresses@)),
{
    let ghost views = addresses_view(addresses@);
    if addresses.len() > MAX_ENCODED_LEN {
        return false;
    }
    let mut i: usize = 0;
    while i < addresses.len()
        invariant
            i <= addresses@.len(),
            views == addresses_view(addresses@),
            forall|j: int| 0 <= j < i ==> (#[trigger] views[j]).bytes.len() <= MAX_ENCODED_LEN,
        decreases addresses@.len() - i,
    {
        proof {
            assert(views[i as int] == addresses@[i as int]@);
        }
        if addresses[i].bytes.len() > MAX_ENCODED_LEN {
            return false;
        }
        i = i + 1;
    }
    true
}

/// The bytes that a node signs in its announcement.
pub open spec fn signed_bytes(addresses: Seq<AddressView>, node: usize, session: u32) -> Seq<u8> {
    scale_auth_data(
        addresses.map_values(|address: AddressView| address.bytes),
        node as u64,
        session,
    )
}

impl AuthView {
    /// The bytes that the signature is for.
    pub open spec fn message(self) -> Seq<u8> {
        signed_bytes(self.addresses, self.node, self.session)
    }

    /// Whether the node that the authentication names signed it.
    pub open spec fn signed_by(self, authorities: Seq<AuthorityId>) -> bool {
        node_signed(authorities, self.message(), self.signature, self.node as nat)
    }
}

impl AuthData {
    /// The bytes that a node signs.
    pub fn encode(&self) -> (bytes: Vec<u8>)
        requires
            encodable(addresses_view(self.addresses@)),
        ensures
            bytes@ == signed_bytes(
                addresses_view(self.addresses@),
                self.node_id.0,
                self.session_id.0,
            ),
    {
        let mut addresses: Vec<Vec<u8>> = Vec::new();
        let mut i: usize = 0;
        while i < self.addresses.len()
            invariant
                i <= self.addresses@.len(),
                addresses@.len() == i,
                encodable(addresses_view(self.addresses@)),
                forall|j: int| 0 <= j < i ==> (#[trigger] addresses@[j])@ == self.addresses@[j].bytes@,
                forall|j: int| 0 <= j < i ==> (#[trigger] addresses@[j])@.len() <= MAX_ENCODED_LEN,
            decreases self.addresses@.len() - i,
        {
            proof {
                let views = addresses_view(self.addresses@);
                assert(views[i as int] == self.addresses@[i as int]@);
                assert(views[i as int].bytes.len() <= MAX_ENCODED_LEN);
            }
            addresses.push(copy_bytes(&self.addresses[i].bytes));
            i = i + 1;
        }
        proof {
            assert(byte_strings(addresses@) =~= addresses_view(self.addresses@).map_values(
                |address: AddressView| address.bytes,
            ));
        }
        encode_auth_data(&addresses, self.node_id.0 as u64, self.session_id.0)
    }
}

impl Clone for AuthData {
    fn clone(&self) -> (copy: Self)
        ensures
            addresses_view(copy.addresses@) == addresses_view(self.addresses@),
            copy.node_id == self.node_id,
            copy.session_id == self.session_id,
    {
        AuthData {
            addresses: copy_addresses(&self.addresses),
            node_id: self.node_id,
            session_id: self.session_id,
        }
    }
}

/// Copies an authentication.
pub fn copy_authentication(authentication: &Authentication) -> (copy: Authentication)
    ensures
        auth_view(copy) == auth_view(*authentication),
{
    (authentication.0.clone(), authentication.1)
}

/// Returned when a set of addresses is not usable for creating authentications.
/// Either because none of the addresses are externally reachable libp2p
/// addresses, or the addresses contain multiple libp2p peers, or they are too
/// long to be announced.
#[derive(Clone, Copy, Debug, PartialEq, Eq, Structural)]
pub enum AddressError {
    NoP2pAddresses,
    MultiplePeerIds,
    TooLong,
}

/// The addresses that name a peer.
pub open spec fn p2p_addresses(addresses: Seq<AddressView>) -> Seq<AddressView> {
    addresses.filter(|address: AddressView| address.peer is Some)
}

/// The peer that a node with these addresses is: the one that all its
/// peer-to-peer addresses name.
pub open spec fn own_peer(addresses: Seq<AddressView>) -> Result<Seq<u8>, AddressError> {
    if p2p_addresses(addresses).len() == 0 {
        Err(AddressError::NoP2pAddresses)
    } else {
        match common_peer(p2p_addresses(addresses)) {
            Some(peer) => Ok(peer),
            None => Err(AddressError::MultiplePeerIds),
        }
    }
}

fn retrieve_peer_id(addresses: &Vec<Multiaddr>) -> (peer: Result<PeerId, AddressError>)
    ensures
        match peer {
            Ok(peer) => own_peer(addresses_view(addresses@)) == Ok::<_, AddressError>(peer@),
            Err(error) => own_peer(addresses_view(addresses@)) == Err::<Seq<u8>, _>(error),
        },
{
    let ghost views = addresses_view(addresses@);
    let mut p2p: Vec<Multiaddr> = Vec::new();
    let mut i: usize = 0;
    proof {
        reveal(Seq::filter);
        assert(p2p_addresses(views.take(0)) =~= addresses_view(p2p@));
    }
    while i < addresses.len()
        invariant
            i <= addresses@.len(),
            views == addresses_view(addresses@),
            addresses_view(p2p@) == p2p_addresses(views.take(i as int)),
        decreases addresses@.len() - i,
    {
        proof {
            reveal(Seq::filter);
            let next = views.take(i + 1);
            assert(next.drop_last() =~= views.take(i as int));
            assert(next.last() == addresses@[i as int]@);
        }
        if is_p2p(&addresses[i]) {
            let ghost before = p2p@;
            p2p.push(addresses[i].clone());
            proof {
                assert(addresses_view(p2p@) =~= addresses_view(before).push(
                    addresses@[i as int]@,
                ));
            }
        }
        i = i + 1;
    }
    proof {
        assert(views.take(i as int) =~= views);
    }
    if p2p.len() == 0 {
        return Err(AddressError::NoP2pAddresses);
    }
    match get_common_peer_id(&p2p) {
        Some(peer_id) => Ok(peer_id),
        None => Err(AddressError::MultiplePeerIds),
    }
}

/// The authentication that a node with the seed makes of itself.
pub open spec fn self_authentication(
    addresses: Seq<AddressView>,
    node: usize,
    session: u32,
    seed: Seq<u8>,
) -> AuthView {
    AuthView {
        addresses,
        node,
        session,
        signature: ed25519_signature(seed, signed_bytes(addresses, node, session)),
    }
}

fn construct_authentication(
    node_id: NodeIndex,
    pen: &AuthorityPen,
    session_id: SessionId,
    addresses: Vec<Multiaddr>,
) -> (authentication: Authentication)
    requires
        encodable(addresses_view(addresses@)),
    ensures
        auth_view(authentication) == self_authentication(
            addresses_view(addresses@),
            node_id.0,
            session_id.0,
            pen.seed(),
        ),
        ed25519_verifies(
            auth_view(authentication).signature,
            auth_view(authentication).message(),
            ed25519_public(pen.seed()),
        ),
{
    let auth_data = AuthData { addresses, node_id, session_id };
    let bytes = auth_data.encode();
    let signature = pen.sign(bytes.as_slice());
    (auth_data, signature)
}

/// What is known of a peer: the authentication that counts, and one that was
/// not signed by a known key but may be once the keys change.
#[verifier::ext_equal]
pub struct EntryView {
    pub peer: Seq<u8>,
    pub current: AuthView,
    pub cached: Option<AuthView>,
}

/// Whether an entry for the peer is among the entries.
pub open spec fn has_entry(entries: Seq<EntryView>, peer: Seq<u8>) -> bool {
    exists|i: int| 0 <= i < entries.len() && (#[trigger] entries[i]).peer == peer
}

/// Where the entry for the peer is.
pub open spec fn entry_at(entries: Seq<EntryView>, peer: Seq<u8>) -> int {
    choose|i: int| 0 <= i < entries.len() && (#[trigger] entries[i]).peer == peer
}

/// The entries after an authentication for the peer was accepted.
pub open spec fn with_current(
    entries: Seq<EntryView>,
    peer: Seq<u8>,
    current: AuthView,
) -> Seq<EntryView> {
    let entry = EntryView { peer, current, cached: None };
    if has_entry(entries, peer) {
        entries.update(entry_at(entries, peer), entry)
    } else {
        entries.push(entry)
    }
}

/// The entries after an authentication for the peer was put by: only for a peer
/// that is known already.
pub open spec fn with_cached(
    entries: Seq<EntryView>,
    peer: Seq<u8>,
    cached: AuthView,
) -> Seq<EntryView> {
    if has_entry(entries, peer) {
        let i = entry_at(entries, peer);
        entries.update(i, EntryView { cached: Some(cached), ..entries[i] })
    } else {
        entries
    }
}

/// The authentication that counts for the peer, if there is one.
pub open spec fn current_of(entries: Seq<EntryView>, peer: Seq<u8>) -> Option<AuthView> {
    if has_entry(entries, peer) {
        Some(entries[entry_at(entries, peer)].current)
    } else {
        None
    }
}

/// Whether what a node announces of itself, if anything, carries its index and
/// the session.
pub open spec fn announces_itself(own: Option<(usize, AuthView)>, session: u32) -> bool {
    own matches Some((node, authentication)) ==> authentication.node == node
        && authentication.session == session
}

/// What the handler of a session is.
#[verifier::ext_equal]
pub struct SessionState {
    pub own_peer: Seq<u8>,
    pub session: u32,
    pub authorities: Seq<AuthorityId>,
    /// The index and the authentication of this node, if it is a validator.
    pub own: Option<(usize, AuthView)>,
    pub peers: Map<usize, Seq<u8>>,
    pub entries: Seq<EntryView>,
}

impl SessionState {
    /// Whether the authentication may count for the peer.
    pub open spec fn acceptable(self, authentication: AuthView, peer: Seq<u8>) -> bool {
        &&& authentication.session == self.session
        &&& common_peer(authentication.addresses) == Some(peer)
        &&& peer != self.own_peer
        &&& encodable(authentication.addresses)
        &&& authentication.signed_by(self.authorities)
    }

    /// The own authentication names the own index and the session; at most one
    /// entry for a peer, every entry rightly signed for the session,
    /// what was put by made for the session by the same peer, and a peer on
    /// record for every authenticated node, which is in the committee.
    pub open spec fn valid(self) -> bool {
        &&& announces_itself(self.own, self.session)
        &&& forall|i: int, j: int|
            0 <= i < j < self.entries.len() ==> (#[trigger] self.entries[i]).peer != (
            #[trigger] self.entries[j]).peer
        &&& forall|i: int|
            #![trigger self.entries[i]]
            0 <= i < self.entries.len() ==> self.acceptable(
                self.entries[i].current,
                self.entries[i].peer,
            ) && self.peers.contains_key(self.entries[i].current.node)
        &&& forall|i: int|
            #![trigger self.entries[i]]
            0 <= i < self.entries.len() ==> (self.entries[i].cached matches Some(cached)
                ==> cached.session == self.session && common_peer(cached.addresses) == Some(
                self.entries[i].peer,
            ) && encodable(cached.addresses))
        &&& forall|node: usize| #[trigger]
            self.peers.contains_key(node) ==> node < self.authorities.len()
    }

    /// Whether an authentication is accepted.
    pub open spec fn accepts(self, authentication: AuthView) -> bool {
        common_peer(authentication.addresses) matches Some(peer) && self.acceptable(
            authentication,
            peer,
        )
    }

    /// The state after an authentication was handled.
    pub open spec fn handled(self, authentication: AuthView) -> Self {
        match common_peer(authentication.addresses) {
            None => self,
            Some(peer) => if authentication.session != self.session || peer == self.own_peer
                || !encodable(authentication.addresses) {
                self
            } else if !authentication.signed_by(self.authorities) {
                SessionState {
                    entries: with_cached(self.entries, peer, authentication),
                    ..self
                }
            } else {
                SessionState {
                    peers: self.peers.insert(authentication.node, peer),
                    entries: with_current(self.entries, peer, authentication),
                    ..self
                }
            },
        }
    }

    /// The state after the authentications of the entries were handled anew, one
    /// entry after the other, the cached one of each after its current one.
    pub open spec fn rechecked(self, entries: Seq<EntryView>) -> Self
        decreases entries.len(),
    {
        if entries.len() == 0 {
            self
        } else {
            let before = self.rechecked(entries.drop_last()).handled(entries.last().current);
            match entries.last().cached {
                Some(cached) => before.handled(cached),
                None => before,
            }
        }
    }

    /// The state without any authentication, for new keys and addresses.
    pub open spec fn renewed(
        self,
        own_peer: Seq<u8>,
        authorities: Seq<AuthorityId>,
        own: Option<(usize, AuthView)>,
    ) -> Self {
        SessionState {
            own_peer,
            authorities,
            own,
            peers: Map::empty(),
            entries: Seq::empty(),
            ..self
        }
    }

    /// Whether the handler lacks an authentication of the node: one of the
    /// committee, other than itself, that no peer is on record for.
    pub open spec fn misses(self, node: usize) -> bool {
        &&& node < self.authorities.len()
        &&& !self.peers.contains_key(node)
        &&& self.own matches Some((own, _)) ==> own != node
    }
}

/// The addresses of all authenticated peers.
pub open spec fn all_addresses(entries: Seq<EntryView>) -> Seq<AddressView>
    decreases entries.len(),
{
    if entries.len() == 0 {
        Seq::empty()
    } else {
        all_addresses(entries.drop_last()) + entries.last().current.addresses
    }
}

struct Entry {
    peer_id: PeerId,
    current: Authentication,
    cached: Option<Authentication>,
}

impl Entry {
    spec fn spec_entry(self) -> EntryView {
        EntryView {
            peer: self.peer_id@,
            current: auth_view(self.current),
            cached: match self.cached {
                Some(cached) => Some(auth_view(cached)),
                None => None,
            },
        }
    }
}

spec fn entries_view(entries: Seq<Entry>) -> Seq<EntryView> {
    entries.map_values(|entry: Entry| entry.spec_entry())
}

/// A struct for handling authentications for a given session and maintaining
/// mappings between peers and node indices within that session.
pub struct Handler {
    peers_by_node: HashMap<usize, PeerId>,
    authentications: Vec<Entry>,
    own_peer_id: PeerId,
    authority_verifier: AuthorityVerifier,
    session_id: SessionId,
    own: Option<(NodeIndex, Authentication)>,
}

impl View for Handler {
    type V = SessionState;

    closed spec fn view(&self) -> SessionState {
        SessionState {
            own_peer: self.own_peer_id@,
            session: self.session_id.0,
            authorities: self.authority_verifier@,
            own: match self.own {
                Some((node, authentication)) => Some((node.0, auth_view(authentication))),
                None => None,
            },
            peers: self.peers_by_node@.map_values(|peer: PeerId| peer@),
            entries: entries_view(self.authentications@),
        }
    }
}

/// What a node with these keys and addresses announces of itself: nothing unless
/// it is a validator.
pub open spec fn self_announcement(
    index_and_pen: Option<(NodeIndex, AuthorityPen)>,
    session: u32,
    addresses: Seq<AddressView>,
) -> Option<(usize, AuthView)> {
    match index_and_pen {
        Some((node, pen)) => Some(
            (node.0, self_authentication(addresses, node.0, session, pen.seed())),
        ),
        None => None,
    }
}

/// Whether what a node announces of itself verifies under the key of its pen.
pub open spec fn self_announcement_verifies(
    index_and_pen: Option<(NodeIndex, AuthorityPen)>,
    own: Option<(usize, AuthView)>,
) -> bool {
    index_and_pen matches Some((_, pen)) ==> own matches Some((_, authentication))
        && ed25519_verifies(
        authentication.signature,
        authentication.message(),
        ed25519_public(pen.seed()),
    )
}

/// The peer that a node with these keys and addresses is. A validator has to be
/// able to announce its addresses.
pub open spec fn usable_peer(
    index_and_pen: Option<(NodeIndex, AuthorityPen)>,
    addresses: Seq<AddressView>,
) -> Result<Seq<u8>, AddressError> {
    match own_peer(addresses) {
        Err(error) => Err(error),
        Ok(peer) => if index_and_pen is Some && !encodable(addresses) {
            Err(AddressError::TooLong)
        } else {
            Ok(peer)
        },
    }
}

fn retrieve_usable_peer_id(
    index_and_pen: &Option<(NodeIndex, AuthorityPen)>,
    addresses: &Vec<Multiaddr>,
) -> (peer: Result<PeerId, AddressError>)
    ensures
        match peer {
            Ok(peer) => usable_peer(*index_and_pen, addresses_view(addresses@)) == Ok::<
                _,
                AddressError,
            >(peer@),
            Err(error) => usable_peer(*index_and_pen, addresses_view(addresses@)) == Err::<
                Seq<u8>,
                _,
            >(error),
        },
{
    match retrieve_peer_id(addresses) {
        Err(error) => Err(error),
        Ok(peer) => if index_and_pen.is_some() && !is_encodable(addresses) {
            Err(AddressError::TooLong)
        } else {
            Ok(peer)
        },
    }
}

fn announce(
    index_and_pen: Option<(NodeIndex, AuthorityPen)>,
    session_id: SessionId,
    addresses: Vec<Multiaddr>,
) -> (own: Option<(NodeIndex, Authentication)>)
    requires
        index_and_pen is Some ==> encodable(addresses_view(addresses@)),
    ensures
        match own {
            Some((node, authentication)) => Some((node.0, auth_view(authentication))),
            None => None,
        } == self_announcement(index_and_pen, session_id.0, addresses_view(addresses@)),
        self_announcement_verifies(
            index_and_pen,
            self_announcement(index_and_pen, session_id.0, addresses_view(addresses@)),
        ),
{
    match index_and_pen {
        Some((node_id, pen)) => Some(
            (node_id, construct_authentication(node_id, &pen, session_id, addresses)),
        ),
        None => None,
    }
}

impl Handler {
    /// A handler for the session, of a validator where an index and a pen are
    /// given. Returns an error if the set of addresses contains no libp2p
    /// addresses, or contains at least two such addresses with differing peers, or
    /// is too long for a validator to announce it.
    pub fn new(
        authority_index_and_pen: Option<(NodeIndex, AuthorityPen)>,
        authority_verifier: AuthorityVerifier,
        session_id: SessionId,
        addresses: Vec<Multiaddr>,
    ) -> (handler: Result<Self, AddressError>)
        ensures
            match usable_peer(authority_index_and_pen, addresses_view(addresses@)) {
                Ok(peer) => handler matches Ok(handler) && handler@ == (SessionState {
                    own_peer: peer,
                    session: session_id.0,
                    authorities: authority_verifier@,
                    own: self_announcement(
                        authority_index_and_pen,
                        session_id.0,
                        addresses_view(addresses@),
                    ),
                    peers: Map::empty(),
                    entries: Seq::empty(),
                }) && handler@.valid() && self_announcement_verifies(
                    authority_index_and_pen,
                    handler@.own,
                ),
                Err(error) => handler == Err::<Self, _>(error),
            },
    {
        let own_peer_id = match retrieve_usable_peer_id(&authority_index_and_pen, &addresses) {
            Ok(peer_id) => peer_id,
            Err(error) => {
                return Err(error);
            },
        };
        let own = announce(authority_index_and_pen, session_id, addresses);
        let handler = Handler {
            peers_by_node: HashMap::new(),
            authentications: Vec::new(),
            own_peer_id,
            authority_verifier,
            session_id,
            own,
        };
        proof {
            assert(handler@.peers =~= Map::empty());
            assert(handler@.entries =~= Seq::empty());
        }
        Ok(handler)
    }

    /// How many nodes the committee has.
    pub fn node_count(&self) -> (count: usize)
        ensures
            count == self@.authorities.len(),
    {
        self.authority_verifier.node_count()
    }

    /// Returns the indices of the nodes for which the handler has no
    /// authentication, in ascending order.
    pub fn missing_nodes(&self) -> (missing: Vec<NodeIndex>)
        ensures
            forall|i: int, j: int|
                0 <= i < j < missing@.len() ==> (#[trigger] missing@[i]).0 < (#[trigger] missing@[j]).0,
            forall|i: int| 0 <= i < missing@.len() ==> self@.misses((#[trigger] missing@[i]).0),
            forall|node: usize|
                #[trigger] self@.misses(node) ==> missing@.contains(NodeIndex(node)),
    {
        let mut missing: Vec<NodeIndex> = Vec::new();
        let count: usize = self.node_count();
        let mut node: usize = 0;
        while node < count
            invariant
                node <= count,
                count == self@.authorities.len(),
                forall|i: int, j: int|
                    0 <= i < j < missing@.len() ==> (#[trigger] missing@[i]).0 < (
                    #[trigger] missing@[j]).0,
                forall|i: int|
                    0 <= i < missing@.len() ==> self@.misses((#[trigger] missing@[i]).0)
                        && missing@[i].0 < node,
                forall|other: usize|
                    other < node && #[trigger] self@.misses(other) ==> missing@.contains(
                        NodeIndex(other),
                    ),
            decreases count - node,
        {
            let is_own: bool = match &self.own {
                Some((own, _)) => own.0 == node,
                None => false,
            };
            let ghost before = missing@;
            if !is_own && !self.peers_by_node.contains_key(&node) {
                missing.push(NodeIndex(node));
                proof {
                    assert(missing@.last() == NodeIndex(node));
                    assert forall|other: usize|
                        other < node + 1 && #[trigger] self@.misses(other) implies missing@.contains(
                        NodeIndex(other),
                    ) by {
                        if other < node {
                            let i = choose|i: int|
                                0 <= i < before.len() && before[i] == NodeIndex(other);
                            assert(missing@[i] == NodeIndex(other));
                        } else {
                            assert(missing@[missing@.len() - 1] == NodeIndex(other));
                        }
                    }
                }
            }
            node = node + 1;
        }
        missing
    }

    /// Returns the peer of the node with the given index, if known.
    pub fn peer_id(&self, node_id: &NodeIndex) -> (peer: Option<PeerId>)
        ensures
            peer is Some <==> self@.peers.contains_key(node_id.0),
            peer matches Some(p) ==> p@ == self@.peers[node_id.0],
    {
        match self.peers_by_node.get(&node_id.0) {
            Some(peer) => Some(peer.clone()),
            None => None,
        }
    }

    fn find(&self, peer_id: &PeerId) -> (index: Option<usize>)
        requires
            self@.valid(),
        ensures
            index is Some <==> has_entry(self@.entries, peer_id@),
            index matches Some(i) ==> i < self.authentications@.len() && i == entry_at(
                self@.entries,
                peer_id@,
            ) && self@.entries[i as int].peer == peer_id@,
    {
        let mut i: usize = 0;
        while i < self.authentications.len()
            invariant
                i <= self.authentications@.len(),
                self@.valid(),
                forall|j: int| 0 <= j < i ==> (#[trigger] self@.entries[j]).peer != peer_id@,
            decreases self.authentications@.len() - i,
        {
            proof {
                assert(self@.entries[i as int] == self.authentications@[i as int].spec_entry());
            }
            if self.authentications[i].peer_id.same(peer_id) {
                proof {
                    let at = entry_at(self@.entries, peer_id@);
                    assert(self@.entries[at].peer == peer_id@);
                    if at < i {
                    } else if i < at {
                        assert(self@.entries[i as int].peer != self@.entries[at].peer);
                    }
                }
                return Some(i);
            }
            i = i + 1;
        }
        None
    }

    /// Returns the index of the node with the given peer, if known.
    pub fn node_id(&self, peer_id: &PeerId) -> (node: Option<NodeIndex>)
        requires
            self@.valid(),
        ensures
            node == match current_of(self@.entries, peer_id@) {
                Some(authentication) => Some(NodeIndex(authentication.node)),
                None => None,
            },
    {
        match self.find(peer_id) {
            Some(i) => {
                proof {
                    assert(self@.entries[i as int] == self.authentications@[i as int].spec_entry());
                }
                Some(self.authentications[i].current.0.node_id)
            },
            None => None,
        }
    }

    /// Returns the authentication of this node for the session, if it is a
    /// validator.
    pub fn authentication(&self) -> (authentication: Option<Authentication>)
        ensures
            authentication is Some <==> self@.own is Some,
            authentication matches Some(a) ==> auth_view(a) == (self@.own->0).1,
    {
        match &self.own {
            Some((_, authentication)) => Some(copy_authentication(authentication)),
            None => None,
        }
    }

    /// Verifies the authentication, uses it to update mappings, and returns
    /// whether we should remain connected to the multiaddresses.
    pub fn handle_authentication(&mut self, authentication: Authentication) -> (accepted: bool)
        requires
            old(self)@.valid(),
        ensures
            final(self)@ == old(self)@.handled(auth_view(authentication)),
            accepted == old(self)@.accepts(auth_view(authentication)),
            final(self)@.valid(),
    {
        proof {
            lemma_handling_keeps_validity(self@, auth_view(authentication));
        }
        if authentication.0.session_id.0 != self.session_id.0 {
            return false;
        }
        // The authentication is completely useless if it doesn't have a
        // consistent peer.
        let peer_id = match get_common_peer_id(&authentication.0.addresses) {
            Some(peer_id) => peer_id,
            None => {
                return false;
            },
        };
        if peer_id.same(&self.own_peer_id) {
            return false;
        }
        // What cannot be encoded cannot have been signed.
        if !is_encodable(&authentication.0.addresses) {
            return false;
        }
        let bytes = authentication.0.encode();
        let node: usize = authentication.0.node_id.0;
        let ghost before = self.authentications@;
        let found = self.find(&peer_id);
        if !self.authority_verifier.verify(
            bytes.as_slice(),
            &authentication.1,
            authentication.0.node_id,
        ) {
            // This might be an authentication for a key that has been changed, but
            // we are not yet aware of the change.
            match found {
                Some(i) => {
                    let ghost stored = before[i as int];
                    self.authentications[i].cached = Some(authentication);
                    proof {
                        assert(self@.entries =~= with_cached(
                            entries_view(before),
                            peer_id@,
                            auth_view(authentication),
                        ));
                    }
                },
                None => {},
            }
            return false;
        }
        let ghost peers_before = self.peers_by_node@;
        let ghost peer = peer_id@;
        self.peers_by_node.insert(node, peer_id.clone());
        let entry = Entry { peer_id, current: authentication, cached: None };
        match found {
            Some(i) => {
                self.authentications[i] = entry;
            },
            None => {
                self.authentications.push(entry);
            },
        }
        proof {
            assert(self@.entries =~= with_current(
                entries_view(before),
                peer,
                auth_view(authentication),
            ));
            assert(self@.peers =~= old(self)@.peers.insert(node, peer));
        }
        true
    }

    /// Updates the handler with the given keychain and set of own addresses.
    /// Returns an error, and changes nothing, if the set of addresses is not
    /// valid.
    /// All authentications will be rechecked, invalid ones purged and cached ones
    /// that turn out to now be valid canonalized.
    /// Own authentication will be regenerated.
    /// If successful returns the addresses that we should be connected to.
    pub fn update(
        &mut self,
        authority_index_and_pen: Option<(NodeIndex, AuthorityPen)>,
        authority_verifier: AuthorityVerifier,
        addresses: Vec<Multiaddr>,
    ) -> (result: Result<Vec<Multiaddr>, AddressError>)
        requires
            old(self)@.valid(),
        ensures
            final(self)@.valid(),
            match usable_peer(authority_index_and_pen, addresses_view(addresses@)) {
                Ok(peer) => {
                    &&& final(self)@ == old(self)@.renewed(
                        peer,
                        authority_verifier@,
                        self_announcement(
                            authority_index_and_pen,
                            old(self)@.session,
                            addresses_view(addresses@),
                        ),
                    ).rechecked(old(self)@.entries)
                    &&& result matches Ok(connected) && addresses_view(connected@)
                        == all_addresses(final(self)@.entries)
                    &&& self_announcement_verifies(authority_index_and_pen, final(self)@.own)
                },
                Err(error) => {
                    &&& *final(self) == *old(self)
                    &&& result == Err::<Vec<Multiaddr>, _>(error)
                },
            },
    {
        let own_peer_id = match retrieve_usable_peer_id(&authority_index_and_pen, &addresses) {
            Ok(peer_id) => peer_id,
            Err(error) => {
                return Err(error);
            },
        };
        let mut entries: Vec<Entry> = Vec::new();
        core::mem::swap(&mut entries, &mut self.authentications);
        self.own = announce(authority_index_and_pen, self.session_id, addresses);
        self.own_peer_id = own_peer_id;
        self.authority_verifier = authority_verifier;
        self.peers_by_node = HashMap::new();
        let ghost views = entries_view(entries@);
        let ghost renewed = self@;
        proof {
            assert(renewed.peers =~= Map::empty());
            assert(renewed.entries =~= Seq::empty());
        }
        let mut i: usize = 0;
        while i < entries.len()
            invariant
                i <= entries@.len(),
                views == entries_view(entries@),
                self@ == renewed.rechecked(views.take(i as int)),
                self@.own == renewed.own,
                self@.valid(),
            decreases entries@.len() - i,
        {
            proof {
                assert(views.take(i + 1).drop_last() =~= views.take(i as int));
                assert(views.take(i + 1).last() == entries@[i as int].spec_entry());
            }
            let _ = self.handle_authentication(copy_authentication(&entries[i].current));
            match &entries[i].cached {
                Some(cached) => {
                    let _ = self.handle_authentication(copy_authentication(cached));
                },
                None => {},
            }
            i = i + 1;
        }
        proof {
            assert(views.take(i as int) =~= views);
        }
        Ok(self.connected_addresses())
    }

    fn connected_addresses(&self) -> (addresses: Vec<Multiaddr>)
        ensures
            addresses_view(addresses@) == all_addresses(self@.entries),
    {
        let mut addresses: Vec<Multiaddr> = Vec::new();
        let mut i: usize = 0;
        proof {
            assert(addresses_view(addresses@) =~= Seq::empty());
        }
        while i < self.authentications.len()
            invariant
                i <= self.authentications@.len(),
                addresses_view(addresses@) == all_addresses(self@.entries.take(i as int)),
            decreases self.authentications@.len() - i,
        {
            let mut more = copy_addresses(&self.authentications[i].current.0.addresses);
            proof {
                let next = self@.entries.take(i + 1);
                assert(next.drop_last() =~= self@.entries.take(i as int));
                assert(next.last() == self.authentications@[i as int].spec_entry());
                assert(addresses_view(addresses@ + more@) =~= addresses_view(addresses@)
                    + addresses_view(more@));
            }
            addresses.append(&mut more);
            i = i + 1;
        }
        proof {
            assert(self@.entries.take(i as int) =~= self@.entries);
        }
        addresses
    }
}

proof fn lemma_handling_keeps_validity(state: SessionState, authentication: AuthView)
    requires
        state.valid(),
    ensures
        state.handled(authentication).valid(),
{
    let after = state.handled(authentication);
    if let Some(peer) = common_peer(authentication.addresses) {
        let at = entry_at(state.entries, peer);
        if has_entry(state.entries, peer) {
            assert(0 <= at < state.entries.len() && state.entries[at].peer == peer);
        }
        assert forall|i: int, j: int| 0 <= i < j < after.entries.len() implies (
        #[trigger] after.entries[i]).peer != (#[trigger] after.entries[j]).peer by {
            if j < state.entries.len() {
                assert(state.entries[i].peer != state.entries[j].peer);
            } else {
                assert(state.entries[i].peer != peer);
            }
        }
    }
}

/// The handler of a node that is a validator in the session.
pub struct ValidatorHandler {
    handler: Handler,
}

impl View for ValidatorHandler {
    type V = SessionState;

    closed spec fn view(&self) -> SessionState {
        self.handler@
    }
}

impl ValidatorHandler {
    /// Returns an error if the set of addresses contains no external libp2p
    /// addresses, or contains at least two such addresses with differing peers, or
    /// is too long to be announced.
    pub fn new(
        authority_index_and_pen: (NodeIndex, AuthorityPen),
        authority_verifier: AuthorityVerifier,
        session_id: SessionId,
        addresses: Vec<Multiaddr>,
    ) -> (handler: Result<Self, AddressError>)
        ensures
            match usable_peer(Some(authority_index_and_pen), addresses_view(addresses@)) {
                Ok(peer) => handler matches Ok(handler) && handler@ == (SessionState {
                    own_peer: peer,
                    session: session_id.0,
                    authorities: authority_verifier@,
                    own: self_announcement(
                        Some(authority_index_and_pen),
                        session_id.0,
                        addresses_view(addresses@),
                    ),
                    peers: Map::empty(),
                    entries: Seq::empty(),
                }) && handler@.valid() && self_announcement_verifies(
                    Some(authority_index_and_pen),
                    handler@.own,
                ),
                Err(error) => handler == Err::<Self, _>(error),
            },
    {
        match Handler::new(
            Some(authority_index_and_pen),
            authority_verifier,
            session_id,
            addresses,
        ) {
            Ok(handler) => Ok(ValidatorHandler { handler }),
            Err(error) => Err(error),
        }
    }

    /// Returns the authentication for the node and session this handler is
    /// responsible for.
    pub fn authentication(&self) -> (authentication: Authentication)
        requires
            self@.own is Some,
        ensures
            auth_view(authentication) == (self@.own->0).1,
    {
        self.handler.authentication().unwrap()
    }

    /// Verifies the authentication, uses it to update mappings, and returns
    /// whether we should remain connected to the multiaddresses.
    pub fn handle_authentication(&mut self, authentication: Authentication) -> (accepted: bool)
        requires
            old(self)@.valid(),
        ensures
            final(self)@ == old(self)@.handled(auth_view(authentication)),
            accepted == old(self)@.accepts(auth_view(authentication)),
            final(self)@.valid(),
    {
        self.handler.handle_authentication(authentication)
    }

    /// Updates the handler as [`Handler::update`] does.
    pub fn update(
        &mut self,
        authority_index_and_pen: (NodeIndex, AuthorityPen),
        authority_verifier: AuthorityVerifier,
        addresses: Vec<Multiaddr>,
    ) -> (result: Result<Vec<Multiaddr>, AddressError>)
        requires
            old(self)@.valid(),
        ensures
            final(self)@.valid(),
            match usable_peer(Some(authority_index_and_pen), addresses_view(addresses@)) {
                Ok(peer) => {
                    &&& final(self)@ == old(self)@.renewed(
                        peer,
                        authority_verifier@,
                        self_announcement(
                            Some(authority_index_and_pen),
                            old(self)@.session,
                            addresses_view(addresses@),
                        ),
                    ).rechecked(old(self)@.entries)
                    &&& result matches Ok(connected) && addresses_view(connected@)
                        == all_addresses(final(self)@.entries)
                    &&& self_announcement_verifies(
                        Some(authority_index_and_pen),
                        final(self)@.own,
                    )
                },
                Err(error) => {
                    &&& *final(self) == *old(self)
                    &&& result == Err::<Vec<Multiaddr>, _>(error)
                },
            },
    {
        self.handler.update(Some(authority_index_and_pen), authority_verifier, addresses)
    }

    /// Returns the indices of the nodes for which the handler has no
    /// authentication, in ascending order and without its own.
    pub fn missing_nodes(&self) -> (missing: Vec<NodeIndex>)
        ensures
            forall|i: int, j: int|
                0 <= i < j < missing@.len() ==> (#[trigger] missing@[i]).0 < (#[trigger] missing@[j]).0,
            forall|i: int| 0 <= i < missing@.len() ==> self@.misses((#[trigger] missing@[i]).0),
            forall|node: usize|
                #[trigger] self@.misses(node) ==> missing@.contains(NodeIndex(node)),
    {
        self.handler.missing_nodes()
    }

    /// Returns the peer of the node with the given index, if known.
    pub fn peer_id(&self, node_id: &NodeIndex) -> (peer: Option<PeerId>)
        ensures
            peer is Some <==> self@.peers.contains_key(node_id.0),
            peer matches Some(p) ==> p@ == self@.peers[node_id.0],
    {
        self.handler.peer_id(node_id)
    }
}

/// An accepted authentication is on record: the node is known by its peer and
/// the peer by its node, and the node is no longer missing.
pub proof fn accepted_authentications_are_on_record(state: SessionState, authentication: AuthView)
    requires
        state.valid(),
        state.accepts(authentication),
    ensures
        ({
            let after = state.handled(authentication);
            let peer = common_peer(authentication.addresses)->0;
            &&& after.peers.contains_key(authentication.node)
            &&& after.peers[authentication.node] == peer
            &&& current_of(after.entries, peer) == Some(authentication)
            &&& !after.misses(authentication.node)
        }),
{
    let after = state.handled(authentication);
    let peer = common_peer(authentication.addresses)->0;
    lemma_handling_keeps_validity(state, authentication);
    let put = if has_entry(state.entries, peer) {
        entry_at(state.entries, peer)
    } else {
        state.entries.len() as int
    };
    assert(after.entries[put].peer == peer);
    let at = entry_at(after.entries, peer);
    assert(after.entries[at].peer == peer);
    assert(at == put) by {
        if at < put {
            assert(after.entries[at].peer != after.entries[put].peer);
        } else if put < at {
            assert(after.entries[put].peer != after.entries[at].peer);
        }
    }
}

/// An authentication that is not accepted authenticates nobody: which peer each
/// node is, and which authentications count, stays as it was.
pub proof fn rejected_authentications_authenticate_nobody(
    state: SessionState,
    authentication: AuthView,
)
    requires
        state.valid(),
        !state.accepts(authentication),
    ensures
        ({
            let after = state.handled(authentication);
            &&& after.peers == state.peers
            &&& after.entries.len() == state.entries.len()
            &&& forall|i: int|
                #![trigger after.entries[i]]
                0 <= i < state.entries.len() ==> after.entries[i].peer == state.entries[i].peer
                    && after.entries[i].current == state.entries[i].current
        }),
{
    if let Some(peer) = common_peer(authentication.addresses) {
        if has_entry(state.entries, peer) {
            let at = entry_at(state.entries, peer);
            assert(0 <= at < state.entries.len() && state.entries[at].peer == peer);
        }
    }
}

/// Handling an accepted authentication a second time changes nothing.
pub proof fn handling_is_idempotent(state: SessionState, authentication: AuthView)
    requires
        state.valid(),
        state.accepts(authentication),
    ensures
        state.handled(authentication).handled(authentication) == state.handled(authentication),
{
    accepted_authentications_are_on_record(state, authentication);
    let after = state.handled(authentication);
    let peer = common_peer(authentication.addresses)->0;
    let at = entry_at(after.entries, peer);
    assert(0 <= at < after.entries.len() && after.entries[at].peer == peer);
    lemma_accepted_entry_has_no_cache(state, authentication);
    assert(after.handled(authentication).entries =~= after.entries);
    assert(after.handled(authentication).peers =~= after.peers);
}

proof fn lemma_accepted_entry_has_no_cache(state: SessionState, authentication: AuthView)
    requires
        state.valid(),
        state.accepts(authentication),
    ensures
        ({
            let after = state.handled(authentication);
            let peer = common_peer(authentication.addresses)->0;
            after.entries[entry_at(after.entries, peer)] == (EntryView {
                peer,
                current: authentication,
                cached: None,
            })
        }),
{
    let after = state.handled(authentication);
    let peer = common_peer(authentication.addresses)->0;
    lemma_handling_keeps_validity(state, authentication);
    let put = if has_entry(state.entries, peer) {
        entry_at(state.entries, peer)
    } else {
        state.entries.len() as int
    };
    assert(after.entries[put].peer == peer);
    let at = entry_at(after.entries, peer);
    assert(after.entries[at].peer == peer);
    if at < put {
        assert(after.entries[at].peer != after.entries[put].peer);
    } else if put < at {
        assert(after.entries[put].peer != after.entries[at].peer);
    }
}

/// What a validator announces of itself, which verifies under its own key, is
/// accepted by the handler of any other node of the session that knows its key,
/// provided that all its addresses name the one peer that it is.
pub proof fn announcements_are_accepted(
    state: SessionState,
    node: NodeIndex,
    pen: AuthorityPen,
    addresses: Seq<AddressView>,
)
    requires
        self_announcement_verifies(
            Some((node, pen)),
            self_announcement(Some((node, pen)), state.session, addresses),
        ),
        node.0 < state.authorities.len(),
        state.authorities[node.0 as int].bytes@ == ed25519_public(pen.seed()),
        common_peer(addresses) is Some,
        common_peer(addresses) != Some(state.own_peer),
        encodable(addresses),
    ensures
        state.accepts(self_authentication(addresses, node.0, state.session, pen.seed())),
{
}

/// A handler never accepts what names its own peer, nor what was made for
/// another session.
pub proof fn own_and_foreign_authentications_are_ignored(
    state: SessionState,
    authentication: AuthView,
)
    requires
        common_peer(authentication.addresses) == Some(state.own_peer) || authentication.session
            != state.session,
    ensures
        !state.accepts(authentication),
        state.handled(authentication) == state,
{
}

/// After an update every authentication that still counts is signed under the
/// new keys, for the same session.
pub proof fn updates_purge_obsolete_authentications(
    state: SessionState,
    own_peer: Seq<u8>,
    authorities: Seq<AuthorityId>,
    own: Option<(usize, AuthView)>,
)
    requires
        state.valid(),
        announces_itself(own, state.session),
    ensures
        ({
            let after = state.renewed(own_peer, authorities, own).rechecked(state.entries);
            &&& after.valid()
            &&& after.session == state.session
            &&& after.authorities == authorities
            &&& forall|i: int|
                #![trigger after.entries[i]]
                0 <= i < after.entries.len() ==> after.entries[i].current.signed_by(authorities)
                    && after.entries[i].peer != own_peer
        }),
{
    lemma_rechecking(state.renewed(own_peer, authorities, own), state.entries);
}

/// What counts for the peer of an entry once its authentications are handled
/// anew: the cached one where that is acceptable, else the one that counted,
/// where that still is.
pub open spec fn survivor(state: SessionState, entry: EntryView) -> Option<AuthView> {
    match entry.cached {
        Some(cached) if state.acceptable(cached, entry.peer) => Some(cached),
        _ => if state.acceptable(entry.current, entry.peer) {
            Some(entry.current)
        } else {
            None
        },
    }
}

/// An update decides for each peer by itself: a cached authentication that is
/// valid under the new keys counts from then on, otherwise the one that counted
/// before does as long as it is valid, otherwise the peer is forgotten. No peer
/// comes in that was not known.
pub proof fn updates_recheck_every_authentication(
    state: SessionState,
    own_peer: Seq<u8>,
    authorities: Seq<AuthorityId>,
    own: Option<(usize, AuthView)>,
)
    requires
        state.valid(),
        announces_itself(own, state.session),
    ensures
        ({
            let renewed = state.renewed(own_peer, authorities, own);
            let after = renewed.rechecked(state.entries);
            &&& forall|i: int|
                #![trigger state.entries[i]]
                0 <= i < state.entries.len() ==> current_of(after.entries, state.entries[i].peer)
                    == survivor(renewed, state.entries[i])
            &&& forall|peer: Seq<u8>|
                !has_entry(state.entries, peer) ==> (#[trigger] current_of(after.entries, peer))
                    is None
        }),
{
    assert(state.entries =~= state.entries.take(state.entries.len() as int));
    lemma_rechecking_decides(state, state.renewed(own_peer, authorities, own), state.entries);
}

proof fn lemma_rechecking_decides(
    state: SessionState,
    renewed: SessionState,
    entries: Seq<EntryView>,
)
    requires
        state.valid(),
        renewed.session == state.session,
        renewed.entries.len() == 0,
        renewed.valid(),
        entries.len() <= state.entries.len(),
        entries == state.entries.take(entries.len() as int),
    ensures
        ({
            let after = renewed.rechecked(entries);
            &&& forall|i: int|
                #![trigger entries[i]]
                0 <= i < entries.len() ==> current_of(after.entries, entries[i].peer) == survivor(
                    renewed,
                    entries[i],
                )
            &&& forall|peer: Seq<u8>|
                !has_entry(entries, peer) ==> (#[trigger] current_of(after.entries, peer)) is None
        }),
    decreases entries.len(),
{
    if entries.len() > 0 {
        let rest = entries.drop_last();
        let last = entries.last();
        assert(rest =~= state.entries.take(rest.len() as int));
        assert(last == state.entries[entries.len() - 1]);
        lemma_rechecking_decides(state, renewed, rest);
        lemma_rechecking(renewed, rest);
        let mid = renewed.rechecked(rest);
        let then_current = mid.handled(last.current);
        lemma_handling_keeps_validity(mid, last.current);
        let after = renewed.rechecked(entries);
        assert(!has_entry(rest, last.peer)) by {
            if has_entry(rest, last.peer) {
                let i = entry_at(rest, last.peer);
                assert(rest[i].peer == last.peer);
                assert(state.entries[i] == rest[i]);
                assert(state.entries[i].peer != state.entries[entries.len() - 1].peer);
            }
        }
        assert(current_of(mid.entries, last.peer) is None);
        lemma_handling_decides(mid, last.current, last.peer);
        if let Some(cached) = last.cached {
            lemma_handling_decides(then_current, cached, last.peer);
        }
        assert(current_of(after.entries, last.peer) == survivor(renewed, last));
        assert forall|peer: Seq<u8>| peer != last.peer implies #[trigger] current_of(
            after.entries,
            peer,
        ) == current_of(mid.entries, peer) by {
            lemma_handling_decides(mid, last.current, last.peer);
            assert(current_of(then_current.entries, peer) == current_of(mid.entries, peer));
        }
        assert forall|i: int|
            #![trigger entries[i]]
            0 <= i < entries.len() implies current_of(after.entries, entries[i].peer) == survivor(
            renewed,
            entries[i],
        ) by {
            if i < rest.len() {
                assert(rest[i] == entries[i]);
                assert(state.entries[i] == entries[i]);
                assert(state.entries[i].peer != state.entries[entries.len() - 1].peer);
            }
        }
        assert forall|peer: Seq<u8>| !has_entry(entries, peer) implies (#[trigger] current_of(
            after.entries,
            peer,
        )) is None by {
            assert(entries[entries.len() - 1].peer != peer);
            if has_entry(rest, peer) {
                let i = entry_at(rest, peer);
                assert(rest[i].peer == peer);
                assert(entries[i].peer == peer);
            }
        }
    }
}

/// Handling an authentication made for the session by a foreign peer decides
/// what counts for that peer, and nothing else.
proof fn lemma_handling_decides(state: SessionState, authentication: AuthView, peer: Seq<u8>)
    requires
        state.valid(),
        authentication.session == state.session,
        common_peer(authentication.addresses) == Some(peer),
        encodable(authentication.addresses),
    ensures
        ({
            let after = state.handled(authentication);
            &&& current_of(after.entries, peer) == if state.acceptable(authentication, peer) {
                Some(authentication)
            } else {
                current_of(state.entries, peer)
            }
            &&& forall|other: Seq<u8>|
                other != peer ==> #[trigger] current_of(after.entries, other) == current_of(
                    state.entries,
                    other,
                )
        }),
{
    let after = state.handled(authentication);
    lemma_handling_keeps_validity(state, authentication);
    if state.acceptable(authentication, peer) {
        accepted_authentications_are_on_record(state, authentication);
    } else {
        rejected_authentications_authenticate_nobody(state, authentication);
        lemma_same_current(state, after, peer);
    }
    assert forall|other: Seq<u8>| other != peer implies #[trigger] current_of(
        after.entries,
        other,
    ) == current_of(state.entries, other) by {
        if has_entry(state.entries, peer) {
            let at = entry_at(state.entries, peer);
            assert(0 <= at < state.entries.len() && state.entries[at].peer == peer);
        }
        lemma_same_current(state, after, other);
    }
}

proof fn lemma_same_current(before: SessionState, after: SessionState, peer: Seq<u8>)
    requires
        before.valid(),
        after.valid(),
        before.entries.len() <= after.entries.len() <= before.entries.len() + 1,
        forall|i: int|
            #![trigger after.entries[i]]
            0 <= i < after.entries.len() && after.entries[i].peer == peer ==> i
                < before.entries.len(),
        forall|i: int|
            #![trigger before.entries[i]]
            #![trigger after.entries[i]]
            0 <= i < before.entries.len() ==> after.entries[i].peer == before.entries[i].peer,
        forall|i: int|
            #![trigger before.entries[i]]
            #![trigger after.entries[i]]
            0 <= i < before.entries.len() && before.entries[i].peer == peer
                ==> after.entries[i].current == before.entries[i].current,
    ensures
        current_of(after.entries, peer) == current_of(before.entries, peer),
{
    if has_entry(before.entries, peer) {
        let i = entry_at(before.entries, peer);
        assert(before.entries[i].peer == peer);
        assert(after.entries[i].peer == peer);
        let j = entry_at(after.entries, peer);
        assert(after.entries[j].peer == peer);
        if i < j {
            assert(after.entries[i].peer != after.entries[j].peer);
        } else if j < i {
            assert(after.entries[j].peer != after.entries[i].peer);
        }
    } else if has_entry(after.entries, peer) {
        let j = entry_at(after.entries, peer);
        assert(after.entries[j].peer == peer);
        assert(before.entries[j].peer == peer);
    }
}

proof fn lemma_rechecking(state: SessionState, entries: Seq<EntryView>)
    requires
        state.valid(),
    ensures
        ({
            let after = state.rechecked(entries);
            &&& after.valid()
            &&& after.session == state.session
            &&& after.authorities == state.authorities
            &&& after.own_peer == state.own_peer
            &&& after.own == state.own
        }),
    decreases entries.len(),
{
    if entries.len() > 0 {
        lemma_rechecking(state, entries.drop_last());
        let mid = state.rechecked(entries.drop_last());
        lemma_handling_keeps_validity(mid, entries.last().current);
        if let Some(cached) = entries.last().cached {
            lemma_handling_keeps_validity(mid.handled(entries.last().current), cached);
        }
    }
}

/// Handling an authentication concerns the node that it names and the peer that
/// its addresses name, and nothing else: the recorded peer of every other node and
/// what is known of every other peer stay as they were, as does all that the
/// handler is made of. What is known of a further peer comes in only by an
/// authentication of that peer that is accepted.
pub proof fn handling_concerns_one_node_and_one_peer(state: SessionState, authentication: AuthView)
    requires
        state.valid(),
    ensures
        ({
            let after = state.handled(authentication);
            &&& after.own_peer == state.own_peer
            &&& after.session == state.session
            &&& after.authorities == state.authorities
            &&& after.own == state.own
            &&& forall|node: usize|
                node != authentication.node ==> (#[trigger] after.peers.contains_key(node)
                    <==> state.peers.contains_key(node))
            &&& forall|node: usize|
                node != authentication.node && state.peers.contains_key(node)
                    ==> #[trigger] after.peers[node] == state.peers[node]
            &&& forall|i: int|
                #![trigger after.entries[i]]
                #![trigger state.entries[i]]
                0 <= i < state.entries.len() && Some(state.entries[i].peer) != common_peer(
                    authentication.addresses,
                ) ==> after.entries[i] == state.entries[i]
            &&& state.entries.len() <= after.entries.len() <= state.entries.len() + 1
            &&& after.entries.len() > state.entries.len() ==> {
                &&& state.accepts(authentication)
                &&& Some(after.entries.last().peer) == common_peer(authentication.addresses)
                &&& after.entries.last().current == authentication
                &&& after.entries.last().cached is None
            }
        }),
{
    if let Some(peer) = common_peer(authentication.addresses) {
        if has_entry(state.entries, peer) {
            let at = entry_at(state.entries, peer);
            assert(0 <= at < state.entries.len() && state.entries[at].peer == peer);
        }
    }
}

/// An authentication is accepted exactly where it is made for the session, all its
/// addresses name one peer, which is not the own one, and the node that it names
/// is of the committee and signed these addresses, its index and the session with
/// its key.
pub proof fn authentications_are_accepted_for_what_they_hold(
    state: SessionState,
    authentication: AuthView,
    peer: Seq<u8>,
)
    requires
        authentication.addresses.len() > 0,
        forall|i: int|
            0 <= i < authentication.addresses.len() ==> (#[trigger] authentication.addresses[i]).peer
                == Some(peer),
    ensures
        state.accepts(authentication) <==> {
            &&& authentication.session == state.session
            &&& peer != state.own_peer
            &&& encodable(authentication.addresses)
            &&& authentication.node < state.authorities.len()
            &&& ed25519_verifies(
                authentication.signature,
                scale_auth_data(
                    authentication.addresses.map_values(|address: AddressView| address.bytes),
                    authentication.node as u64,
                    authentication.session,
                ),
                state.authorities[authentication.node as int].bytes@,
            )
        },
        common_peer(authentication.addresses) == Some(peer),
        forall|other: Seq<u8>| #[trigger]
            state.acceptable(authentication, other) <==> state.accepts(authentication) && other
                == peer,
{
    crate::network::address::the_common_peer_is_named_by_all(authentication.addresses, peer);
}

/// An authentication without addresses, or with one that names no peer or another
/// than the first does, is useless: it is not accepted and changes nothing.
pub proof fn authentications_without_a_common_peer_are_ignored(
    state: SessionState,
    authentication: AuthView,
    i: int,
)
    requires
        authentication.addresses.len() == 0 || (0 <= i < authentication.addresses.len() && (
        authentication.addresses[i].peer is None || authentication.addresses[i].peer
            != authentication.addresses[0].peer)),
    ensures
        !state.accepts(authentication),
        state.handled(authentication) == state,
{
    if authentication.addresses.len() > 0 && common_peer(authentication.addresses) is Some {
        assert(authentication.addresses[i].peer == authentication.addresses[0].peer);
    }
}

/// An authentication that no key of the committee signed is put by for a peer that
/// is known, beside what counts for it, and forgotten for one that is not.
pub proof fn unsigned_authentications_are_put_by(
    state: SessionState,
    authentication: AuthView,
    peer: Seq<u8>,
)
    requires
        state.valid(),
        authentication.session == state.session,
        common_peer(authentication.addresses) == Some(peer),
        peer != state.own_peer,
        encodable(authentication.addresses),
        authentication.node < state.authorities.len() ==> !ed25519_verifies(
            authentication.signature,
            authentication.message(),
            state.authorities[authentication.node as int].bytes@,
        ),
    ensures
        ({
            let after = state.handled(authentication);
            &&& after.peers == state.peers
            &&& after.entries.len() == state.entries.len()
            &&& forall|i: int|
                #![trigger after.entries[i]]
                #![trigger state.entries[i]]
                0 <= i < state.entries.len() && state.entries[i].peer == peer ==> after.entries[i]
                    == (EntryView { cached: Some(authentication), ..state.entries[i] })
            &&& (forall|i: int| 0 <= i < state.entries.len() ==> (#[trigger] state.entries[i]).peer
                != peer) ==> after == state
        }),
{
    if has_entry(state.entries, peer) {
        let at = entry_at(state.entries, peer);
        assert(0 <= at < state.entries.len() && state.entries[at].peer == peer);
        assert forall|i: int|
            #![trigger state.entries[i]]
            0 <= i < state.entries.len() && state.entries[i].peer == peer implies i == at by {
            if i < at {
                assert(state.entries[i].peer != state.entries[at].peer);
            } else if at < i {
                assert(state.entries[at].peer != state.entries[i].peer);
            }
        }
    }
}

/// What counts for a peer is what its entry says, and nothing does without one.
pub proof fn entries_tell_what_counts(state: SessionState, i: int, unknown: Seq<u8>)
    requires
        state.valid(),
        0 <= i < state.entries.len(),
        forall|j: int| 0 <= j < state.entries.len() ==> (#[trigger] state.entries[j]).peer != unknown,
    ensures
        current_of(state.entries, state.entries[i].peer) == Some(state.entries[i].current),
        current_of(state.entries, unknown) is None,
{
    let peer = state.entries[i].peer;
    assert(has_entry(state.entries, peer));
    let at = entry_at(state.entries, peer);
    assert(0 <= at < state.entries.len() && state.entries[at].peer == peer);
    if i < at {
        assert(state.entries[i].peer != state.entries[at].peer);
    } else if at < i {
        assert(state.entries[at].peer != state.entries[i].peer);
    }
    if has_entry(state.entries, unknown) {
        let j = entry_at(state.entries, unknown);
        assert(0 <= j < state.entries.len() && state.entries[j].peer == unknown);
    }
}

/// Every node of the committee is missing, except the node itself and those that a
/// peer is on record for; nobody else is.
pub proof fn missing_nodes_have_no_peer(state: SessionState, node: usize)
    ensures
        node >= state.authorities.len() ==> !state.misses(node),
        state.peers.contains_key(node) ==> !state.misses(node),
        (state.own matches Some(own) && own.0 == node) ==> !state.misses(node),
        node < state.authorities.len() && !state.peers.contains_key(node) && (state.own matches
            Some(own) ==> own.0 != node) ==> state.misses(node),
{
}

/// A set of addresses is usable as long as at least one names a peer and none
/// names another: that is then the peer that the node is. A validator must also
/// be able to announce them.
pub proof fn usable_addresses_name_one_peer(
    index_and_pen: Option<(NodeIndex, AuthorityPen)>,
    addresses: Seq<AddressView>,
    named: int,
    other: int,
)
    requires
        0 <= named < addresses.len(),
        0 <= other < addresses.len(),
        addresses[named].peer is Some,
    ensures
        own_peer(addresses) is Ok ==> own_peer(addresses) == Ok::<_, AddressError>(
            addresses[named].peer->0,
        ),
        (forall|i: int|
            0 <= i < addresses.len() && (#[trigger] addresses[i]).peer is Some
                ==> addresses[i].peer == addresses[named].peer) ==> own_peer(addresses) == Ok::<
            _,
            AddressError,
        >(addresses[named].peer->0),
        addresses[other].peer is Some && addresses[other].peer != addresses[named].peer ==> own_peer(
            addresses,
        ) == Err::<Seq<u8>, _>(AddressError::MultiplePeerIds),
        own_peer(addresses) matches Err(error) ==> usable_peer(index_and_pen, addresses) == Err::<
            Seq<u8>,
            _,
        >(error),
        own_peer(addresses) is Ok && index_and_pen is Some && !encodable(addresses) ==> usable_peer(
            index_and_pen,
            addresses,
        ) == Err::<Seq<u8>, _>(AddressError::TooLong),
        own_peer(addresses) is Ok && (index_and_pen is None || encodable(addresses)) ==> usable_peer(
            index_and_pen,
            addresses,
        ) == own_peer(addresses),
{
    let p2p = p2p_addresses(addresses);
    let names_peer = |address: AddressView| address.peer is Some;
    addresses.lemma_filter_contains(names_peer, named);
    let at = choose|k: int| 0 <= k < p2p.len() && p2p[k] == addresses[named];
    assert(0 <= at < p2p.len() && p2p[at] == addresses[named]);
    if addresses[other].peer is Some {
        addresses.lemma_filter_contains(names_peer, other);
        let k = choose|k: int| 0 <= k < p2p.len() && p2p[k] == addresses[other];
        assert(0 <= k < p2p.len() && p2p[k] == addresses[other]);
    }
    if forall|i: int|
        0 <= i < addresses.len() && (#[trigger] addresses[i]).peer is Some ==> addresses[i].peer
            == addresses[named].peer {
        assert forall|k: int| 0 <= k < p2p.len() implies (#[trigger] p2p[k]).peer
            == addresses[named].peer by {
            addresses.lemma_filter_pred(names_peer, k);
            assert(p2p.contains(p2p[k]));
            addresses.lemma_filter_contains_rev(names_peer, p2p[k]);
            let i = choose|i: int| 0 <= i < addresses.len() && addresses[i] == p2p[k];
            assert(addresses[i].peer is Some);
        }
        crate::network::address::the_common_peer_is_named_by_all(p2p, addresses[named].peer->0);
    }
}

/// Addresses of which none names a peer are not usable.
pub proof fn addresses_without_peers_are_not_usable(addresses: Seq<AddressView>)
    requires
        forall|i: int| 0 <= i < addresses.len() ==> (#[trigger] addresses[i]).peer is None,
    ensures
        own_peer(addresses) == Err::<Seq<u8>, _>(AddressError::NoP2pAddresses),
{
    let p2p = p2p_addresses(addresses);
    let names_peer = |address: AddressView| address.peer is Some;
    if p2p.len() > 0 {
        addresses.lemma_filter_pred(names_peer, 0);
        assert(p2p.contains(p2p[0]));
        addresses.lemma_filter_contains_rev(names_peer, p2p[0]);
        let i = choose|i: int| 0 <= i < addresses.len() && addresses[i] == p2p[0];
        assert(addresses[i].peer is None);
    }
}

/// What a validator announces of itself holds its own index, the session and
/// exactly its addresses, under a signature of all three; other nodes announce
/// nothing.
pub proof fn announcements_hold_what_is_announced(
    node: NodeIndex,
    pen: AuthorityPen,
    session: u32,
    addresses: Seq<AddressView>,
)
    ensures
        self_announcement(None, session, addresses) is None,
        self_announcement(Some((node, pen)), session, addresses) matches Some((index, own)) && {
            &&& index == node.0
            &&& own.node == node.0
            &&& own.session == session
            &&& own.addresses == addresses
            &&& own.signature == ed25519_signature(
                pen.seed(),
                scale_auth_data(
                    addresses.map_values(|address: AddressView| address.bytes),
                    node.0 as u64,
                    session,
                ),
            )
        },
{
}

/// The addresses to be connected to are those of the authentications that count,
/// all of them and no others.
pub proof fn all_addresses_come_from_entries(entries: Seq<EntryView>, address: AddressView)
    ensures
        all_addresses(entries).contains(address) <==> exists|i: int|
            0 <= i < entries.len() && (#[trigger] entries[i]).current.addresses.contains(address),
    decreases entries.len(),
{
    if entries.len() > 0 {
        let rest = entries.drop_last();
        let last = entries.last().current.addresses;
        all_addresses_come_from_entries(rest, address);
        let all = all_addresses(entries);
        let before = all_addresses(rest);
        if all.contains(address) {
            let k = choose|k: int| 0 <= k < all.len() && all[k] == address;
            if k < before.len() {
                assert(before[k] == address);
                assert(before.contains(address));
                let i = choose|i: int|
                    0 <= i < rest.len() && (#[trigger] rest[i]).current.addresses.contains(address);
                assert(entries[i].current.addresses.contains(address));
            } else {
                assert(last[k - before.len()] == address);
                assert(last.contains(address));
                assert(entries[entries.len() - 1].current.addresses.contains(address));
            }
        }
        if exists|i: int|
            0 <= i < entries.len() && (#[trigger] entries[i]).current.addresses.contains(address) {
            let i = choose|i: int|
                0 <= i < entries.len() && (#[trigger] entries[i]).current.addresses.contains(
                    address,
                );
            if i < rest.len() {
                assert(rest[i].current.addresses.contains(address));
                let k = choose|k: int| 0 <= k < before.len() && before[k] == address;
                assert(all[k] == address);
            } else {
                let k = choose|k: int| 0 <= k < last.len() && last[k] == address;
                assert(all[before.len() + k] == address);
            }
        }
    }
}

/// Whether what an entry holds, as it counts or put by, is acceptable and names
/// the node.
pub open spec fn vouches_for(state: SessionState, entry: EntryView, node: usize) -> bool {
    ||| state.acceptable(entry.current, entry.peer) && entry.current.node == node
    ||| entry.cached matches Some(cached) && state.acceptable(cached, entry.peer) && cached.node
        == node
}

/// The last of the entries that vouches for the node.
spec fn is_last_voucher(
    state: SessionState,
    entries: Seq<EntryView>,
    node: usize,
    i: int,
) -> bool {
    &&& 0 <= i < entries.len()
    &&& vouches_for(state, entries[i], node)
    &&& forall|j: int| i < j < entries.len() ==> !vouches_for(state, #[trigger] entries[j], node)
}

/// What an update makes of an entry: nothing where nothing in it is acceptable.
spec fn kept_entry(state: SessionState, entry: EntryView) -> Option<EntryView> {
    match entry.cached {
        Some(cached) if state.acceptable(cached, entry.peer) => Some(
            EntryView { current: cached, cached: None, ..entry },
        ),
        _ => if state.acceptable(entry.current, entry.peer) {
            Some(entry)
        } else {
            None
        },
    }
}

proof fn lemma_rechecking_keeps(
    state: SessionState,
    renewed: SessionState,
    entries: Seq<EntryView>,
)
    requires
        state.valid(),
        renewed.session == state.session,
        renewed.entries.len() == 0,
        renewed.peers == Map::<usize, Seq<u8>>::empty(),
        renewed.valid(),
        entries.len() <= state.entries.len(),
        entries == state.entries.take(entries.len() as int),
    ensures
        ({
            let after = renewed.rechecked(entries);
            &&& forall|i: int|
                #![trigger entries[i]]
                0 <= i < entries.len() ==> (kept_entry(renewed, entries[i]) matches Some(entry)
                    ==> after.entries.contains(entry))
            &&& forall|k: int|
                #![trigger after.entries[k]]
                0 <= k < after.entries.len() ==> exists|i: int|
                    0 <= i < entries.len() && kept_entry(renewed, #[trigger] entries[i]) == Some(
                        after.entries[k],
                    )
            &&& forall|node: usize| #[trigger]
                after.peers.contains_key(node) ==> exists|i: int|
                    #[trigger] is_last_voucher(renewed, entries, node, i) && after.peers[node]
                        == entries[i].peer
            &&& forall|node: usize, i: int| #[trigger]
                is_last_voucher(renewed, entries, node, i) ==> after.peers.contains_key(node)
        }),
    decreases entries.len(),
{
    if entries.len() > 0 {
        let rest = entries.drop_last();
        let last = entries.last();
        let n = entries.len() - 1;
        assert(rest =~= state.entries.take(rest.len() as int));
        assert(last == state.entries[n]);
        assert(entries[n] == last);
        lemma_rechecking_keeps(state, renewed, rest);
        lemma_rechecking(renewed, rest);
        let mid = renewed.rechecked(rest);
        let then = mid.handled(last.current);
        let after = renewed.rechecked(entries);
        lemma_handling_keeps_validity(mid, last.current);
        handling_concerns_one_node_and_one_peer(mid, last.current);
        if let Some(cached) = last.cached {
            lemma_handling_keeps_validity(then, cached);
            handling_concerns_one_node_and_one_peer(then, cached);
        }
        assert forall|k: int| 0 <= k < mid.entries.len() implies (#[trigger] mid.entries[k]).peer
            != last.peer by {
            let i = choose|i: int|
                0 <= i < rest.len() && kept_entry(renewed, #[trigger] rest[i]) == Some(
                    mid.entries[k],
                );
            assert(state.entries[i] == rest[i]);
            assert(state.entries[i].peer != state.entries[n].peer);
        }
        assert forall|k: int| 0 <= k < mid.entries.len() implies (#[trigger] mid.entries[k])
            == after.entries[k] && k < after.entries.len() by {
            assert(then.entries[k] == mid.entries[k]);
        }
        assert(!has_entry(mid.entries, last.peer));
        let count = mid.entries.len() as int;
        let current_ok = renewed.acceptable(last.current, last.peer);
        assert(current_ok == mid.acceptable(last.current, last.peer));
        if current_ok {
            assert(then.entries == mid.entries.push(
                EntryView { peer: last.peer, current: last.current, cached: None },
            ));
            assert(then.entries[count].peer == last.peer);
            assert(has_entry(then.entries, last.peer));
            let at = entry_at(then.entries, last.peer);
            assert(0 <= at < then.entries.len() && then.entries[at].peer == last.peer);
            assert(at == count);
        } else {
            assert(then == mid);
        }
        if let Some(cached) = last.cached {
            assert(then.acceptable(cached, last.peer) == renewed.acceptable(cached, last.peer));
        }
        match kept_entry(renewed, last) {
            Some(entry) => {
                assert(after.entries.len() == count + 1);
                assert(after.entries[count] == entry);
                assert(after.entries.contains(entry));
            },
            None => {
                assert(after.entries.len() == count);
            },
        }
        assert forall|i: int| #![trigger entries[i]] 0 <= i < entries.len() implies (kept_entry(
            renewed,
            entries[i],
        ) matches Some(entry) ==> after.entries.contains(entry)) by {
            if i < n {
                assert(rest[i] == entries[i]);
                if let Some(entry) = kept_entry(renewed, entries[i]) {
                    let k = choose|k: int| 0 <= k < mid.entries.len() && mid.entries[k] == entry;
                    assert(after.entries[k] == entry);
                }
            }
        }
        assert forall|k: int|
            #![trigger after.entries[k]]
            0 <= k < after.entries.len() implies exists|i: int|
            0 <= i < entries.len() && kept_entry(renewed, #[trigger] entries[i]) == Some(
                after.entries[k],
            ) by {
            if k < count {
                assert(mid.entries[k] == after.entries[k]);
                let i = choose|i: int|
                    0 <= i < rest.len() && kept_entry(renewed, #[trigger] rest[i]) == Some(
                        mid.entries[k],
                    );
                assert(kept_entry(renewed, entries[i]) == Some(after.entries[k]));
            } else {
                assert(kept_entry(renewed, entries[n]) == Some(after.entries[k]));
            }
        }
        assert forall|node: usize|
            after.peers.contains_key(node) <==> mid.peers.contains_key(node) || vouches_for(
                renewed,
                last,
                node,
            ) by {}
        assert forall|node: usize| vouches_for(renewed, last, node) implies after.peers[node]
            == last.peer by {}
        assert forall|node: usize|
            !vouches_for(renewed, last, node) && mid.peers.contains_key(
                node,
            ) implies after.peers[node] == mid.peers[node] by {}
        assert forall|node: usize| #[trigger] after.peers.contains_key(node) implies exists|i: int|
            #[trigger] is_last_voucher(renewed, entries, node, i) && after.peers[node]
                == entries[i].peer by {
            if vouches_for(renewed, last, node) {
                assert(is_last_voucher(renewed, entries, node, n));
            } else {
                let i = choose|i: int| #[trigger]
                    is_last_voucher(renewed, rest, node, i) && mid.peers[node] == rest[i].peer;
                assert(rest[i] == entries[i]);
                assert forall|j: int| i < j < entries.len() implies !vouches_for(
                    renewed,
                    #[trigger] entries[j],
                    node,
                ) by {
                    if j < n {
                        assert(rest[j] == entries[j]);
                    }
                }
                assert(is_last_voucher(renewed, entries, node, i));
            }
        }
        assert forall|node: usize, i: int| #[trigger]
            is_last_voucher(renewed, entries, node, i) implies after.peers.contains_key(node) by {
            if i < n {
                assert(rest[i] == entries[i]);
                assert forall|j: int| i < j < rest.len() implies !vouches_for(
                    renewed,
                    #[trigger] rest[j],
                    node,
                ) by {
                    assert(rest[j] == entries[j]);
                }
                assert(is_last_voucher(renewed, rest, node, i));
            }
        }
    }
}

/// An update decides entry by entry: one whose put-by authentication is acceptable
/// under the new keys is left with that one alone, one whose counting
/// authentication still is acceptable is kept as it is, any other is dropped, and
/// none is added.
pub proof fn updates_keep_promote_or_drop_entries(
    state: SessionState,
    own_peer: Seq<u8>,
    authorities: Seq<AuthorityId>,
    own: Option<(usize, AuthView)>,
    i: int,
    k: int,
)
    requires
        state.valid(),
        announces_itself(own, state.session),
        0 <= i < state.entries.len(),
    ensures
        ({
            let renewed = state.renewed(own_peer, authorities, own);
            let after = renewed.rechecked(state.entries);
            let entry = state.entries[i];
            let current_ok = renewed.acceptable(entry.current, entry.peer);
            let cached_ok = entry.cached is Some && renewed.acceptable(
                entry.cached->0,
                entry.peer,
            );
            &&& after.own_peer == own_peer
            &&& after.authorities == authorities
            &&& after.own == own
            &&& after.session == state.session
            &&& cached_ok ==> after.entries.contains(
                EntryView { peer: entry.peer, current: entry.cached->0, cached: None },
            )
            &&& !cached_ok && current_ok ==> after.entries.contains(entry)
            &&& 0 <= k < after.entries.len() && after.entries[k].peer == entry.peer ==> cached_ok
                || current_ok
            &&& 0 <= k < after.entries.len() ==> exists|j: int|
                0 <= j < state.entries.len() && (#[trigger] state.entries[j]).peer
                    == after.entries[k].peer
        }),
{
    let renewed = state.renewed(own_peer, authorities, own);
    let after = renewed.rechecked(state.entries);
    assert(state.entries =~= state.entries.take(state.entries.len() as int));
    lemma_rechecking(renewed, state.entries);
    lemma_rechecking_keeps(state, renewed, state.entries);
    let entry = state.entries[i];
    if let Some(cached) = entry.cached {
        if renewed.acceptable(cached, entry.peer) {
            assert(EntryView { current: cached, cached: None, ..entry } == EntryView {
                peer: entry.peer,
                current: cached,
                cached: None,
            });
        }
    }
    if 0 <= k < after.entries.len() {
        let j = choose|j: int|
            0 <= j < state.entries.len() && kept_entry(renewed, #[trigger] state.entries[j])
                == Some(after.entries[k]);
        assert(state.entries[j].peer == after.entries[k].peer);
        if after.entries[k].peer == entry.peer {
            if i < j {
                assert(state.entries[i].peer != state.entries[j].peer);
            } else if j < i {
                assert(state.entries[j].peer != state.entries[i].peer);
            }
        }
    }
}

/// After an update a peer is on record for a node exactly where some entry vouches
/// for the node under the new keys, and it is the peer of the last one that does.
pub proof fn updates_record_whom_entries_vouch_for(
    state: SessionState,
    own_peer: Seq<u8>,
    authorities: Seq<AuthorityId>,
    own: Option<(usize, AuthView)>,
    i: int,
    node: usize,
)
    requires
        state.valid(),
        announces_itself(own, state.session),
        0 <= i < state.entries.len(),
    ensures
        ({
            let renewed = state.renewed(own_peer, authorities, own);
            let after = renewed.rechecked(state.entries);
            &&& vouches_for(renewed, state.entries[i], node) && (forall|j: int|
                i < j < state.entries.len() ==> !vouches_for(
                    renewed,
                    #[trigger] state.entries[j],
                    node,
                )) ==> after.peers.contains_key(node) && after.peers[node] == state.entries[i].peer
            &&& (forall|j: int|
                0 <= j < state.entries.len() ==> !vouches_for(
                    renewed,
                    #[trigger] state.entries[j],
                    node,
                )) ==> !after.peers.contains_key(node)
        }),
{
    let renewed = state.renewed(own_peer, authorities, own);
    let after = renewed.rechecked(state.entries);
    assert(state.entries =~= state.entries.take(state.entries.len() as int));
    lemma_rechecking_keeps(state, renewed, state.entries);
    if vouches_for(renewed, state.entries[i], node) && (forall|j: int|
        i < j < state.entries.len() ==> !vouches_for(renewed, #[trigger] state.entries[j], node)) {
        assert(is_last_voucher(renewed, state.entries, node, i));
    }
    if after.peers.contains_key(node) {
        let last = choose|j: int| #[trigger]
            is_last_voucher(renewed, state.entries, node, j) && after.peers[node]
                == state.entries[j].peer;
        assert(vouches_for(renewed, state.entries[last], node));
        if last < i {
            assert(!vouches_for(renewed, state.entries[i], node));
        }
    }
}

/// What an authentication is, is all that it holds, and what is signed of it is the
/// encoding of its addresses, its node and its session.
pub proof fn authentications_are_all_that_they_hold(authentication: Authentication)
    ensures
        auth_view(authentication).addresses == addresses_view(authentication.0.addresses@),
        auth_view(authentication).node == authentication.0.node_id.0,
        auth_view(authentication).session == authentication.0.session_id.0,
        auth_view(authentication).signature == authentication.1.bytes@,
        auth_view(authentication).message() == scale_auth_data(
            addresses_view(authentication.0.addresses@).map_values(
                |address: AddressView| address.bytes,
            ),
            authentication.0.node_id.0 as u64,
            authentication.0.session_id.0,
        ),
{
}

/// Addresses can be announced exactly where neither their number nor the length of
/// any of them exceeds what an encoding can hold.
pub proof fn long_addresses_cannot_be_announced(addresses: Seq<AddressView>)
    ensures
        encodable(addresses) <==> addresses.len() <= u32::MAX && forall|i: int|
            0 <= i < addresses.len() ==> (#[trigger] addresses[i]).bytes.len() <= u32::MAX,
{
}

/// Once an authentication is accepted it is all that is known of its peer: it is
/// what counts, and nothing is put by any more. One that could not have been
/// encoded changes nothing.
pub proof fn accepted_authentications_replace_what_was_known(
    state: SessionState,
    authentication: AuthView,
    i: int,
)
    requires
        state.valid(),
    ensures
        ({
            let after = state.handled(authentication);
            &&& state.accepts(authentication) && 0 <= i < after.entries.len() && Some(
                after.entries[i].peer,
            ) == common_peer(authentication.addresses) ==> after.entries[i].current
                == authentication && after.entries[i].cached is None
            &&& state.accepts(authentication) ==> exists|j: int|
                0 <= j < after.entries.len() && Some((#[trigger] after.entries[j]).peer)
                    == common_peer(authentication.addresses)
            &&& !encodable(authentication.addresses) ==> after == state
        }),
{
    if state.accepts(authentication) {
        let after = state.handled(authentication);
        let peer = common_peer(authentication.addresses)->0;
        lemma_handling_keeps_validity(state, authentication);
        lemma_accepted_entry_has_no_cache(state, authentication);
        let put = if has_entry(state.entries, peer) {
            entry_at(state.entries, peer)
        } else {
            state.entries.len() as int
        };
        assert(0 <= put < after.entries.len() && after.entries[put].peer == peer);
        let at = entry_at(after.entries, peer);
        assert(0 <= at < after.entries.len() && after.entries[at].peer == peer);
        if 0 <= i < after.entries.len() && after.entries[i].peer == peer {
            if i < at {
                assert(after.entries[i].peer != after.entries[at].peer);
            } else if at < i {
                assert(after.entries[at].peer != after.entries[i].peer);
            }
        }
    }
}

} // verus!
