//! Keys and signatures of the authorities of a session.

use vstd::prelude::*;

verus! {

/// The position of a node in the committee of a session.
#[derive(Clone, Copy, Debug, PartialEq, Eq, PartialOrd, Ord, Hash, Structural)]
pub struct NodeIndex(pub usize);

/// The number of a session.
#[derive(Clone, Copy, Debug, PartialEq, Eq, PartialOrd, Ord, Hash, Structural)]
pub struct SessionId(pub u32);

/// The public key of an authority.
#[derive(Clone, Copy, Debug, PartialEq, Eq)]
pub struct AuthorityId {
    pub bytes: [u8; 32],
}

/// A signature of an authority.
#[derive(Clone, Copy, Debug, PartialEq, Eq)]
pub struct Signature {
    pub bytes: [u8; 64],
}

/// What `sp_core::ed25519::Pair` gives as the public key of a seed.
pub uninterp spec fn ed25519_public(seed: Seq<u8>) -> Seq<u8>;

/// What `sp_core::ed25519::Pair` gives as the signature of a message under the
/// key of a seed.
pub uninterp spec fn ed25519_signature(seed: Seq<u8>, message: Seq<u8>) -> Seq<u8>;

/// What `sp_core::ed25519::Pair::verify` says of a signature, a message and a
/// public key.
pub uninterp spec fn ed25519_verifies(
    signature: Seq<u8>,
    message: Seq<u8>,
    public: Seq<u8>,
) -> bool;

/// Calls `sp_core::ed25519::Pair::from_seed` and `public`: the public key is a
/// function of the seed.
#[verifier::external_body]
fn public_of_seed(seed: &[u8; 32]) -> (public: [u8; 32])
    ensures
        public@ == ed25519_public(seed@),
{
    let pair = <sp_core::ed25519::Pair as sp_core::Pair>::from_seed(seed);
    sp_core::Pair::public(&pair).0
}

/// Calls `sp_core::ed25519::Pair::from_seed` and `sign`: Ed25519 signatures are
/// a function of the seed and the message, and such a signature verifies under
/// the public key of the seed.
#[verifier::external_body]
fn sign_with_seed(seed: &[u8; 32], message: &[u8]) -> (signature: [u8; 64])
    ensures
        signature@ == ed25519_signature(seed@, message@),
        ed25519_verifies(signature@, message@, ed25519_public(seed@)),
{
    let pair = <sp_core::ed25519::Pair as sp_core::Pair>::from_seed(seed);
    sp_core::Pair::sign(&pair, message).0
}

/// Calls `sp_core::ed25519::Pair::verify`: whether a signature is good is a
/// function of the signature, the message and the public key.
#[verifier::external_body]
fn verify_ed25519(signature: &[u8; 64], message: &[u8], public: &[u8; 32]) -> (good: bool)
    ensures
        good == ed25519_verifies(signature@, message@, public@),
{
    let signature = sp_core::ed25519::Signature::from_raw(*signature);
    let public = sp_core::ed25519::Public::from_raw(*public);
    <sp_core::ed25519::Pair as sp_core::Pair>::verify(&signature, message, &public)
}

impl AuthorityId {
    /// Whether the signature of the message is this authority's.
    pub open spec fn signed(self, message: Seq<u8>, signature: Seq<u8>) -> bool {
        ed25519_verifies(signature, message, self.bytes@)
    }

    /// Whether the signature of the message is this authority's.
    pub fn verify(&self, message: &[u8], signature: &Signature) -> (good: bool)
        ensures
            good == self.signed(message@, signature.bytes@),
    {
        verify_ed25519(&signature.bytes, message, &self.bytes)
    }
}

/// What an authority signs with.
#[derive(Clone, Copy)]
pub struct AuthorityPen {
    seed: [u8; 32],
}

impl AuthorityPen {
    /// The seed of the key.
    pub closed spec fn seed(self) -> Seq<u8> {
        self.seed@
    }

    /// The pen of the key with the seed.
    pub fn new(seed: [u8; 32]) -> (pen: Self)
        ensures
            pen.seed() == seed@,
    {
        AuthorityPen { seed }
    }

    /// The authority whose pen this is.
    pub fn authority_id(&self) -> (id: AuthorityId)
        ensures
            id.bytes@ == ed25519_public(self.seed()),
    {
        AuthorityId { bytes: public_of_seed(&self.seed) }
    }

    /// Signs a message.
    pub fn sign(&self, message: &[u8]) -> (signature: Signature)
        ensures
            signature.bytes@ == ed25519_signature(self.seed(), message@),
            ed25519_verifies(signature.bytes@, message@, ed25519_public(self.seed())),
    {
        Signature { bytes: sign_with_seed(&self.seed, message) }
    }
}

/// How many of `nodes` nodes are required for secure consensus: more than two
/// thirds.
pub open spec fn consensus_threshold(nodes: nat) -> nat {
    (2 * nodes / 3 + 1) as nat
}

/// How many nodes a set holds a signature of.
pub open spec fn signature_count(set: Seq<Option<Signature>>) -> nat
    decreases set.len(),
{
    if set.len() == 0 {
        0
    } else {
        signature_count(set.drop_last()) + if set.last() is Some {
            1nat
        } else {
            0nat
        }
    }
}

/// A set of signatures of a subset of the nodes: each node's at its position.
#[derive(Clone, Debug)]
pub struct SignatureSet {
    pub signatures: Vec<Option<Signature>>,
}

/// Verifies the signatures of the authorities of a session.
#[derive(Debug)]
pub struct AuthorityVerifier {
    authorities: Vec<AuthorityId>,
}

impl View for AuthorityVerifier {
    type V = Seq<AuthorityId>;

    closed spec fn view(&self) -> Seq<AuthorityId> {
        self.authorities@
    }
}

/// Whether node `index` of the authorities signed the message so. No node
/// outside of the committee did.
pub open spec fn node_signed(
    authorities: Seq<AuthorityId>,
    message: Seq<u8>,
    signature: Seq<u8>,
    index: nat,
) -> bool {
    index < authorities.len() && authorities[index as int].signed(message, signature)
}

/// Whether the set holds enough signatures of the message, and no wrong one.
pub open spec fn complete(
    authorities: Seq<AuthorityId>,
    message: Seq<u8>,
    set: Seq<Option<Signature>>,
) -> bool {
    &&& signature_count(set) >= consensus_threshold(authorities.len())
    &&& forall|i: int|
        0 <= i < set.len() && (#[trigger] set[i]) is Some ==> node_signed(
            authorities,
            message,
            set[i]->0.bytes@,
            i as nat,
        )
}

impl AuthorityVerifier {
    /// A verifier for the authorities, in the order of their positions.
    pub fn new(authorities: Vec<AuthorityId>) -> (verifier: Self)
        ensures
            verifier@ == authorities@,
    {
        AuthorityVerifier { authorities }
    }

    /// A copy of this verifier.
    pub fn duplicate(&self) -> (verifier: Self)
        ensures
            verifier@ == self@,
    {
        let authorities = self.authorities.clone();
        proof {
            assert(authorities@ =~= self.authorities@);
        }
        AuthorityVerifier { authorities }
    }

    /// How many authorities there are.
    pub fn node_count(&self) -> (count: usize)
        ensures
            count == self@.len(),
    {
        self.authorities.len()
    }

    /// Whether the node with the index signed the message so.
    pub fn verify(&self, message: &[u8], signature: &Signature, index: NodeIndex) -> (good: bool)
        ensures
            good == node_signed(self@, message@, signature.bytes@, index.0 as nat),
    {
        if index.0 < self.authorities.len() {
            self.authorities[index.0].verify(message, signature)
        } else {
            false
        }
    }

    /// How many nodes are required for secure consensus.
    pub fn threshold(&self) -> (threshold: usize)
        ensures
            threshold == consensus_threshold(self@.len()),
    {
        let nodes: usize = self.authorities.len();
        let rounded: usize = if nodes % 3 == 0 {
            0
        } else {
            1
        };
        nodes - nodes / 3 - rounded + 1
    }

    /// Whether enough nodes signed the message, and all signatures are good.
    pub fn is_complete(&self, message: &[u8], set: &SignatureSet) -> (complete: bool)
        ensures
            complete == crate::crypto::complete(self@, message@, set.signatures@),
    {
        let mut count: usize = 0;
        let mut good: bool = true;
        let mut i: usize = 0;
        while i < set.signatures.len()
            invariant
                i <= set.signatures@.len(),
                count <= i,
                count == signature_count(set.signatures@.take(i as int)),
                good == (forall|j: int|
                    0 <= j < i && (#[trigger] set.signatures@[j]) is Some ==> node_signed(
                        self@,
                        message@,
                        set.signatures@[j]->0.bytes@,
                        j as nat,
                    )),
            decreases set.signatures@.len() - i,
        {
            proof {
                let next = set.signatures@.take(i + 1);
                assert(next.drop_last() =~= set.signatures@.take(i as int));
                assert(next.last() == set.signatures@[i as int]);
            }
            match &set.signatures[i] {
                Some(signature) => {
                    count = count + 1;
                    if !self.verify(message, signature, NodeIndex(i)) {
                        good = false;
                    }
                },
                None => {},
            }
            i = i + 1;
        }
        proof {
            assert(set.signatures@.take(i as int) =~= set.signatures@);
        }
        good && count >= self.threshold()
    }
}

/// How many nodes both sets hold a signature of.
pub open spec fn common_signers(a: Seq<Option<Signature>>, b: Seq<Option<Signature>>, nodes: nat) -> nat
    decreases nodes,
{
    if nodes == 0 {
        0
    } else {
        let i = nodes - 1;
        common_signers(a, b, i as nat) + if i < a.len() && i < b.len() && a[i] is Some && b[i]
            is Some {
            1nat
        } else {
            0nat
        }
    }
}

spec fn signers_below(set: Seq<Option<Signature>>, nodes: nat) -> nat
    decreases nodes,
{
    if nodes == 0 {
        0
    } else {
        let i = nodes - 1;
        signers_below(set, i as nat) + if i < set.len() && set[i] is Some {
            1nat
        } else {
            0nat
        }
    }
}

proof fn lemma_count_is_signers_below(set: Seq<Option<Signature>>, nodes: nat)
    requires
        forall|i: int| nodes <= i < set.len() ==> (#[trigger] set[i]) is None,
    ensures
        signature_count(set) == signers_below(set, nodes),
    decreases set.len() + nodes,
{
    if nodes > set.len() {
        lemma_count_is_signers_below(set, (nodes - 1) as nat);
    } else if set.len() > nodes {
        let rest = set.drop_last();
        assert forall|i: int| nodes <= i < rest.len() implies (#[trigger] rest[i]) is None by {
            assert(rest[i] == set[i]);
        }
        lemma_count_is_signers_below(rest, nodes);
        lemma_signers_below_prefix(set, rest, nodes);
        assert(set.last() == set[set.len() - 1]);
    } else if nodes > 0 {
        let rest = set.drop_last();
        lemma_count_is_signers_below(rest, (nodes - 1) as nat);
        lemma_signers_below_prefix(set, rest, (nodes - 1) as nat);
    }
}

proof fn lemma_signers_below_prefix(
    set: Seq<Option<Signature>>,
    rest: Seq<Option<Signature>>,
    nodes: nat,
)
    requires
        nodes <= rest.len() < set.len(),
        rest == set.drop_last(),
    ensures
        signers_below(set, nodes) == signers_below(rest, nodes),
    decreases nodes,
{
    if nodes > 0 {
        lemma_signers_below_prefix(set, rest, (nodes - 1) as nat);
    }
}

proof fn lemma_overlap(a: Seq<Option<Signature>>, b: Seq<Option<Signature>>, nodes: nat)
    ensures
        signers_below(a, nodes) + signers_below(b, nodes) <= nodes + common_signers(a, b, nodes),
    decreases nodes,
{
    if nodes > 0 {
        lemma_overlap(a, b, (nodes - 1) as nat);
    }
}

/// Any two complete signature sets of one committee, whatever the messages, have
/// more than a third of the committee in common.
pub proof fn complete_sets_overlap(
    authorities: Seq<AuthorityId>,
    message_a: Seq<u8>,
    a: Seq<Option<Signature>>,
    message_b: Seq<u8>,
    b: Seq<Option<Signature>>,
)
    requires
        complete(authorities, message_a, a),
        complete(authorities, message_b, b),
    ensures
        3 * common_signers(a, b, authorities.len()) > authorities.len(),
{
    let n = authorities.len();
    lemma_count_is_signers_below(a, n);
    lemma_count_is_signers_below(b, n);
    lemma_overlap(a, b, n);
}

/// The threshold is the least number of nodes that is more than two thirds of
/// them.
pub proof fn the_threshold_is_just_above_two_thirds(nodes: nat)
    ensures
        3 * consensus_threshold(nodes) > 2 * nodes,
        3 * (consensus_threshold(nodes) - 1) <= 2 * nodes,
{
}

proof fn lemma_count_after_update(
    set: Seq<Option<Signature>>,
    position: int,
    signature: Option<Signature>,
)
    requires
        0 <= position < set.len(),
    ensures
        signature_count(set.update(position, signature)) == signature_count(set) + (if signature
            is Some {
            1int
        } else {
            0int
        }) - (if set[position] is Some {
            1int
        } else {
            0int
        }),
    decreases set.len(),
{
    let updated = set.update(position, signature);
    if position == set.len() - 1 {
        assert(updated.drop_last() =~= set.drop_last());
    } else {
        lemma_count_after_update(set.drop_last(), position, signature);
        assert(updated.drop_last() =~= set.drop_last().update(position, signature));
        assert(updated.last() == set.last());
    }
}

/// Signatures are counted one by one: a set without any counts none, and each
/// position that is filled or emptied makes a difference of one.
pub proof fn signatures_are_counted_one_by_one(
    set: Seq<Option<Signature>>,
    position: int,
    signature: Signature,
)
    requires
        0 <= position < set.len(),
        set[position] is None,
    ensures
        signature_count(set.update(position, Some(signature))) == signature_count(set) + 1,
        signature_count(Seq::<Option<Signature>>::empty()) == 0,
        signature_count(set.push(Some(signature))) == signature_count(set) + 1,
        signature_count(set.push(None)) == signature_count(set),
{
    lemma_count_after_update(set, position, Some(signature));
    assert(set.push(Some(signature)).drop_last() =~= set);
    assert(set.push(None).drop_last() =~= set);
}

/// A set of signatures is complete only with the good signatures of more than two
/// thirds of the committee: every signature in it is one of the authority at its
/// position, over the message.
pub proof fn complete_sets_hold_good_signatures(
    authorities: Seq<AuthorityId>,
    message: Seq<u8>,
    set: Seq<Option<Signature>>,
    position: int,
)
    requires
        complete(authorities, message, set),
        0 <= position < set.len(),
    ensures
        3 * signature_count(set) > 2 * authorities.len(),
        set[position] matches Some(signature) ==> position < authorities.len() && ed25519_verifies(
            signature.bytes@,
            message,
            authorities[position].bytes@,
        ),
{
}

/// Good signatures of more than two thirds of the committee make a set complete,
/// whoever else did not sign.
pub proof fn enough_good_signatures_are_complete(
    authorities: Seq<AuthorityId>,
    message: Seq<u8>,
    set: Seq<Option<Signature>>,
)
    requires
        3 * signature_count(set) > 2 * authorities.len(),
        forall|i: int|
            0 <= i < set.len() && (#[trigger] set[i]) is Some ==> i < authorities.len()
                && ed25519_verifies(set[i]->0.bytes@, message, authorities[i].bytes@),
    ensures
        complete(authorities, message, set),
{
    assert forall|i: int| 0 <= i < set.len() && (#[trigger] set[i]) is Some implies node_signed(
        authorities,
        message,
        set[i]->0.bytes@,
        i as nat,
    ) by {
        assert(ed25519_verifies(set[i]->0.bytes@, message, authorities[i].bytes@));
    }
}

/// A node signed a message exactly where it is in the committee and the signature
/// verifies under the key at its position.
pub proof fn only_the_committee_signs(
    authorities: Seq<AuthorityId>,
    message: Seq<u8>,
    signature: Seq<u8>,
    index: nat,
)
    ensures
        index >= authorities.len() ==> !node_signed(authorities, message, signature, index),
        index < authorities.len() ==> (node_signed(authorities, message, signature, index)
            <==> ed25519_verifies(signature, message, authorities[index as int].bytes@)),
{
}

} // verus!
