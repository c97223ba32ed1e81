//! Network addresses and the peers that they lead to.

use vstd::prelude::*;

use crate::bytes::{copy_bytes, same_bytes};

verus! {

/// The identity of a peer in the network.
#[derive(Debug, PartialEq, Eq)]
pub struct PeerId {
    pub bytes: Vec<u8>,
}

impl View for PeerId {
    type V = Seq<u8>;

    open spec fn view(&self) -> Seq<u8> {
        self.bytes@
    }
}

impl PeerId {
    /// Whether the two are the same peer.
    pub fn same(&self, other: &PeerId) -> (same: bool)
        ensures
            same == (self@ == other@),
    {
        same_bytes(&self.bytes, &other.bytes)
    }
}

impl Clone for PeerId {
    fn clone(&self) -> (copy: Self)
        ensures
            copy@ == self@,
    {
        PeerId { bytes: copy_bytes(&self.bytes) }
    }
}

/// An address: its binary form, and the peer that it names if it is an address
/// in the peer-to-peer network.
#[derive(Debug, PartialEq, Eq)]
pub struct Multiaddr {
    pub bytes: Vec<u8>,
    pub peer_id: Option<PeerId>,
}

/// What an address is.
#[verifier::ext_equal]
pub struct AddressView {
    pub bytes: Seq<u8>,
    pub peer: Option<Seq<u8>>,
}

impl View for Multiaddr {
    type V = AddressView;

    open spec fn view(&self) -> AddressView {
        AddressView {
            bytes: self.bytes@,
            peer: match self.peer_id {
                Some(peer_id) => Some(peer_id@),
                None => None,
            },
        }
    }
}

impl Clone for Multiaddr {
    fn clone(&self) -> (copy: Self)
        ensures
            copy@ == self@,
    {
        Multiaddr {
            bytes: copy_bytes(&self.bytes),
            peer_id: match &self.peer_id {
                Some(peer_id) => Some(peer_id.clone()),
                None => None,
            },
        }
    }
}

/// What a list of addresses is.
pub open spec fn addresses_view(addresses: Seq<Multiaddr>) -> Seq<AddressView> {
    addresses.map_values(|address: Multiaddr| address@)
}

/// Copies a list of addresses.
pub fn copy_addresses(addresses: &Vec<Multiaddr>) -> (copy: Vec<Multiaddr>)
    ensures
        addresses_view(copy@) == addresses_view(addresses@),
{
    let mut copy: Vec<Multiaddr> = Vec::new();
    let mut i: usize = 0;
    while i < addresses.len()
        invariant
            i <= addresses@.len(),
            copy@.len() == i,
            forall|j: int| 0 <= j < i ==> (#[trigger] copy@[j])@ == addresses@[j]@,
        decreases addresses@.len() - i,
    {
        copy.push(addresses[i].clone());
        i = i + 1;
    }
    proof {
        assert(addresses_view(copy@) =~= addresses_view(addresses@));
    }
    copy
}

/// Whether the address names a peer.
pub fn is_p2p(address: &Multiaddr) -> (p2p: bool)
    ensures
        p2p == (address@.peer is Some),
{
    address.peer_id.is_some()
}

/// The peer that all the addresses name, if there is one: present in every
/// address, and the same in all.
pub open spec fn common_peer(addresses: Seq<AddressView>) -> Option<Seq<u8>> {
    if addresses.len() > 0 && addresses[0].peer is Some && forall|i: int|
        0 <= i < addresses.len() ==> (#[trigger] addresses[i]).peer == addresses[0].peer {
        addresses[0].peer
    } else {
        None
    }
}

/// Returns the peer that all the addresses name, if there is one.
pub fn get_common_peer_id(addresses: &Vec<Multiaddr>) -> (peer: Option<PeerId>)
    ensures
        peer is Some <==> common_peer(addresses_view(addresses@)) is Some,
        peer matches Some(p) ==> common_peer(addresses_view(addresses@)) == Some(p@),
{
    let ghost views = addresses_view(addresses@);
    if addresses.len() == 0 {
        return None;
    }
    proof {
        assert(views[0] == addresses@[0]@);
    }
    match &addresses[0].peer_id {
        None => None,
        Some(first) => {
            let mut i: usize = 0;
            while i < addresses.len()
                invariant
                    i <= addresses@.len(),
                    views == addresses_view(addresses@),
                    views.len() == addresses@.len(),
                    addresses@.len() > 0,
                    views[0].peer == Some(first@),
                    forall|j: int| 0 <= j < i ==> (#[trigger] views[j]).peer == views[0].peer,
                decreases addresses@.len() - i,
            {
                proof {
                    assert(views[i as int] == addresses@[i as int]@);
                }
                match &addresses[i].peer_id {
                    None => {
                        return None;
                    },
                    Some(peer) => {
                        if !peer.same(first) {
                            return None;
                        }
                    },
                }
                i = i + 1;
            }
            Some(first.clone())
        },
    }
}

/// There is a common peer exactly where there are addresses and all of them name
/// it.
pub proof fn the_common_peer_is_named_by_all(addresses: Seq<AddressView>, peer: Seq<u8>)
    ensures
        common_peer(addresses) == Some(peer) <==> addresses.len() > 0 && forall|i: int|
            0 <= i < addresses.len() ==> (#[trigger] addresses[i]).peer == Some(peer),
{
    if common_peer(addresses) == Some(peer) {
        assert forall|i: int| 0 <= i < addresses.len() implies (#[trigger] addresses[i]).peer
            == Some(peer) by {}
    } else if addresses.len() > 0 && forall|i: int|
        0 <= i < addresses.len() ==> (#[trigger] addresses[i]).peer == Some(peer) {
        assert(addresses[0].peer == Some(peer));
    }
}

/// What a peer and an address are, is all that they hold; a list of addresses is
/// the list of what each of them is.
pub proof fn addresses_are_all_that_they_hold(
    peer: PeerId,
    address: Multiaddr,
    addresses: Seq<Multiaddr>,
    i: int,
)
    ensures
        peer@ == peer.bytes@,
        address@.bytes == address.bytes@,
        address@.peer is Some <==> address.peer_id is Some,
        address.peer_id matches Some(named) ==> address@.peer == Some(named.bytes@),
        addresses_view(addresses).len() == addresses.len(),
        0 <= i < addresses.len() ==> addresses_view(addresses)[i] == addresses[i]@,
{
}

} // verus!
