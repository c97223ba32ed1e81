//! Key pairs from their seeds, and the accounts that they stand for.

use vstd::prelude::*;
use vstd::utf8::encode_utf8;

use crate::client::transaction::AccountId;

verus! {

/// The public key of the pair that `sp_core::sr25519::Pair::from_string` makes of
/// a text; nothing where it makes none.
pub uninterp spec fn sr25519_from_text(text: Seq<char>) -> Option<Seq<u8>>;

/// The public key of the pair that `sp_core::ed25519::Pair::from_string` makes of
/// a text; nothing where it makes none.
pub uninterp spec fn ed25519_from_text(text: Seq<char>) -> Option<Seq<u8>>;

/// How many bytes a text that a key pair is made of may have at most.
pub const MAX_SEED_BYTES: usize = 4_294_967_295;

/// Whether a text is short enough for a key pair to be made of it.
pub open spec fn short_enough(text: Seq<char>) -> bool {
    encode_utf8(text).len() <= MAX_SEED_BYTES
}

fn is_short_enough(text: &str) -> (short: bool)
    ensures
        short == short_enough(text@),
{
    text.as_bytes().len() <= MAX_SEED_BYTES
}

/// A public key as it is in a result.
pub open spec fn key_bytes(key: Option<[u8; 32]>) -> Option<Seq<u8>> {
    match key {
        Some(key) => Some(key@),
        None => None,
    }
}

/// Calls `sp_core::sr25519::Pair::from_string` without a password, and `public`
/// on what comes of it: whether a pair does, and with which public key, is a
/// function of the text. A part of the text of more than [`MAX_SEED_BYTES`] bytes
/// could not be encoded.
#[verifier::external_body]
fn sr25519_public_of_text(text: &str) -> (public: Option<[u8; 32]>)
    requires
        short_enough(text@),
    ensures
        key_bytes(public) == sr25519_from_text(text@),
{
    let pair = <sp_core::sr25519::Pair as sp_core::Pair>::from_string(text, None);
    pair.ok().map(|pair| sp_core::Pair::public(&pair).0)
}

/// Calls `sp_core::ed25519::Pair::from_string` without a password, and `public`
/// on what comes of it: whether a pair does, and with which public key, is a
/// function of the text. A part of the text of more than [`MAX_SEED_BYTES`] bytes
/// could not be encoded.
#[verifier::external_body]
fn ed25519_public_of_text(text: &str) -> (public: Option<[u8; 32]>)
    requires
        short_enough(text@),
    ensures
        key_bytes(public) == ed25519_from_text(text@),
{
    let pair = <sp_core::ed25519::Pair as sp_core::Pair>::from_string(text, None);
    pair.ok().map(|pair| sp_core::Pair::public(&pair).0)
}

/// The bare key pair of an account: the text that it is made of, and its public
/// key.
pub struct RawKeyPair {
    pub seed: String,
    pub public: [u8; 32],
}

/// The key pair of an account that signs transactions.
pub struct KeyPair {
    pub signer: RawKeyPair,
}

/// The key pair of an authority: the text that it is made of, and its public key.
pub struct AlephKeyPair {
    pub seed: String,
    pub public: [u8; 32],
}

/// The key pair of an account from its seed; `None` where the seed makes none
/// or is too long.
pub fn keypair_from_string(seed: &str) -> (pair: Option<KeyPair>)
    ensures
        pair is Some <==> short_enough(seed@) && sr25519_from_text(seed@) is Some,
        pair matches Some(pair) ==> pair.signer.seed@ == seed@ && sr25519_from_text(seed@) == Some(
            pair.signer.public@,
        ),
{
    match raw_keypair_from_string(seed) {
        Some(signer) => Some(KeyPair { signer }),
        None => None,
    }
}

/// The bare key pair of an account from its seed; `None` where the seed makes
/// none or is too long.
pub fn raw_keypair_from_string(seed: &str) -> (pair: Option<RawKeyPair>)
    ensures
        pair is Some <==> short_enough(seed@) && sr25519_from_text(seed@) is Some,
        pair matches Some(pair) ==> pair.seed@ == seed@ && sr25519_from_text(seed@) == Some(
            pair.public@,
        ),
{
    if !is_short_enough(seed) {
        return None;
    }
    match sr25519_public_of_text(seed) {
        Some(public) => Some(RawKeyPair { seed: seed.to_owned(), public }),
        None => None,
    }
}

/// The key pair of an authority from its seed; `None` where the seed makes none
/// or is too long.
pub fn aleph_keypair_from_string(seed: &str) -> (pair: Option<AlephKeyPair>)
    ensures
        pair is Some <==> short_enough(seed@) && ed25519_from_text(seed@) is Some,
        pair matches Some(pair) ==> pair.seed@ == seed@ && ed25519_from_text(seed@) == Some(
            pair.public@,
        ),
{
    if !is_short_enough(seed) {
        return None;
    }
    match ed25519_public_of_text(seed) {
        Some(public) => Some(AlephKeyPair { seed: seed.to_owned(), public }),
        None => None,
    }
}

/// Something with a public key.
pub trait HasPublicKey {
    /// The public key.
    spec fn key(&self) -> Seq<u8>;

    /// The public key.
    fn public(&self) -> (public: [u8; 32])
        ensures
            public@ == self.key(),
    ;
}

impl HasPublicKey for RawKeyPair {
    open spec fn key(&self) -> Seq<u8> {
        self.public@
    }

    fn public(&self) -> (public: [u8; 32]) {
        self.public
    }
}

impl HasPublicKey for AlephKeyPair {
    open spec fn key(&self) -> Seq<u8> {
        self.public@
    }

    fn public(&self) -> (public: [u8; 32]) {
        self.public
    }
}

/// The account that a key pair stands for: its public key.
pub fn account_from_keypair<P: HasPublicKey>(keypair: &P) -> (account: AccountId)
    ensures
        account.bytes@ == keypair.key(),
{
    AccountId { bytes: keypair.public() }
}

/// The key of a pair is its public key, a key in a result is that key, and a seed
/// is short enough exactly where it has no more bytes than an encoding can hold.
pub proof fn keys_are_public_keys(
    raw: RawKeyPair,
    aleph: AlephKeyPair,
    key: [u8; 32],
    text: Seq<char>,
)
    ensures
        raw.key() == raw.public@,
        aleph.key() == aleph.public@,
        key_bytes(Some(key)) == Some(key@),
        key_bytes(None) is None,
        short_enough(text) <==> encode_utf8(text).len() <= u32::MAX,
{
}

} // verus!
