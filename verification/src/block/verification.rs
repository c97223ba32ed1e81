//! Verifying the justifications and the headers of blocks.

use vstd::prelude::*;

use crate::bytes::{copy_bytes, same_32_bytes, same_bytes};
use crate::crypto::{complete, AuthorityId, AuthorityVerifier, Signature, SignatureSet};


verus! {

/// The header of a block.
#[derive(Debug)]
pub struct Header {
    pub parent_hash: [u8; 32],
    pub number: u32,
    pub state_root: [u8; 32],
    pub extrinsics_root: [u8; 32],
    /// The digest, as it is encoded.
    pub digest: Vec<u8>,
}

/// What a header is.
#[verifier::ext_equal]
pub struct HeaderView {
    pub parent_hash: Seq<u8>,
    pub number: u32,
    pub state_root: Seq<u8>,
    pub extrinsics_root: Seq<u8>,
    pub digest: Seq<u8>,
}

impl View for Header {
    type V = HeaderView;

    open spec fn view(&self) -> HeaderView {
        HeaderView {
            parent_hash: self.parent_hash@,
            number: self.number,
            state_root: self.state_root@,
            extrinsics_root: self.extrinsics_root@,
            digest: self.digest@,
        }
    }
}

/// What `parity_scale_codec::Encode::encode` makes of the hash of the parent, the
/// number in compact form, the root of the state and the root of the extrinsics,
/// one after the other.
pub uninterp spec fn scale_header_fields(
    parent_hash: Seq<u8>,
    number: u32,
    state_root: Seq<u8>,
    extrinsics_root: Seq<u8>,
) -> Seq<u8>;

/// What `sp_core::Blake2Hasher` gives as the hash of a byte string.
pub uninterp spec fn blake2_256(bytes: Seq<u8>) -> Seq<u8>;

/// Calls `parity_scale_codec::Encode::encode` on the four values: the encoding is
/// a function of them.
#[verifier::external_body]
fn encode_header_fields(
    parent_hash: &[u8; 32],
    number: u32,
    state_root: &[u8; 32],
    extrinsics_root: &[u8; 32],
) -> (bytes: Vec<u8>)
    ensures
        bytes@ == scale_header_fields(parent_hash@, number, state_root@, extrinsics_root@),
{
    let number = parity_scale_codec::Compact(number);
    parity_scale_codec::Encode::encode(&(parent_hash, number, state_root, extrinsics_root))
}

/// Calls `sp_core::Blake2Hasher::hash`: the hash is a function of the bytes.
#[verifier::external_body]
fn hash_bytes(bytes: &Vec<u8>) -> (hash: [u8; 32])
    ensures
        hash@ == blake2_256(bytes@),
{
    <sp_core::Blake2Hasher as sp_core::Hasher>::hash(bytes.as_slice()).0
}

impl HeaderView {
    /// How a header is encoded.
    pub open spec fn encoded(self) -> Seq<u8> {
        scale_header_fields(
            self.parent_hash,
            self.number,
            self.state_root,
            self.extrinsics_root,
        ) + self.digest
    }

    /// The hash of a header, which is that of its block.
    pub open spec fn hash(self) -> Seq<u8> {
        blake2_256(self.encoded())
    }
}

impl Header {
    /// How the header is encoded.
    pub fn encode(&self) -> (bytes: Vec<u8>)
        ensures
            bytes@ == self@.encoded(),
    {
        let mut bytes = encode_header_fields(
            &self.parent_hash,
            self.number,
            &self.state_root,
            &self.extrinsics_root,
        );
        let mut digest = copy_bytes(&self.digest);
        bytes.append(&mut digest);
        bytes
    }

    /// The hash of the header, which is that of its block.
    pub fn hash(&self) -> (hash: [u8; 32])
        ensures
            hash@ == self@.hash(),
    {
        hash_bytes(&self.encode())
    }

    /// Whether the two headers are the same.
    pub fn same(&self, other: &Header) -> (same: bool)
        ensures
            same == (self@ == other@),
    {
        let same: bool = same_32_bytes(&self.parent_hash, &other.parent_hash) && self.number
            == other.number && same_32_bytes(&self.state_root, &other.state_root)
            && same_32_bytes(&self.extrinsics_root, &other.extrinsics_root) && same_bytes(
            &self.digest,
            &other.digest,
        );
        proof {
            if same {
                assert(self@ =~= other@);
            }
        }
        same
    }
}

impl Clone for Header {
    fn clone(&self) -> (copy: Self)
        ensures
            copy@ == self@,
    {
        Header {
            parent_hash: self.parent_hash,
            number: self.number,
            state_root: self.state_root,
            extrinsics_root: self.extrinsics_root,
            digest: copy_bytes(&self.digest),
        }
    }
}

/// What the authorities of a session are: those that sign together, and one that
/// may sign alone in an emergency.
#[derive(Debug)]
pub struct SessionAuthorityData {
    pub authorities: Vec<AuthorityId>,
    pub emergency_finalizer: Option<AuthorityId>,
}

/// A proof that a block is final.
#[derive(Clone, Debug)]
pub enum AlephJustification {
    CommitteeMultisignature(SignatureSet),
    EmergencySignature(Signature),
}

/// Ways in which a justification can be wrong.
#[derive(Clone, Copy, Debug, PartialEq, Eq, Structural)]
pub enum SessionVerificationError {
    BadMultisignature,
    BadEmergencySignature,
    NoEmergencySigner,
}

impl SessionVerificationError {
    /// What is wrong, in words.
    pub fn text(&self) -> (text: &'static str)
        ensures
            text@ == match *self {
                SessionVerificationError::BadMultisignature => "bad multisignature"@,
                SessionVerificationError::BadEmergencySignature => "bad emergency signature"@,
                SessionVerificationError::NoEmergencySigner => "no emergency signer defined"@,
            },
    {
        match self {
            SessionVerificationError::BadMultisignature => "bad multisignature",
            SessionVerificationError::BadEmergencySignature => "bad emergency signature",
            SessionVerificationError::NoEmergencySigner => "no emergency signer defined",
        }
    }
}

/// A justification verifier within a single session.
#[derive(Debug)]
pub struct SessionVerifier {
    authority_verifier: AuthorityVerifier,
    emergency_signer: Option<AuthorityId>,
}

/// Whether the authorities justified the bytes, and if not why.
pub open spec fn justified(
    authorities: Seq<AuthorityId>,
    emergency_signer: Option<AuthorityId>,
    justification: AlephJustification,
    bytes: Seq<u8>,
) -> Result<(), SessionVerificationError> {
    match justification {
        AlephJustification::CommitteeMultisignature(set) => {
            if complete(authorities, bytes, set.signatures@) {
                Ok(())
            } else {
                Err(SessionVerificationError::BadMultisignature)
            }
        },
        AlephJustification::EmergencySignature(signature) => match emergency_signer {
            None => Err(SessionVerificationError::NoEmergencySigner),
            Some(signer) => if signer.signed(bytes, signature.bytes@) {
                Ok(())
            } else {
                Err(SessionVerificationError::BadEmergencySignature)
            },
        },
    }
}

impl SessionVerifier {
    /// The authorities that sign together.
    pub closed spec fn authorities(self) -> Seq<AuthorityId> {
        self.authority_verifier@
    }

    /// The authority that may sign alone.
    pub closed spec fn emergency_signer(self) -> Option<AuthorityId> {
        self.emergency_signer
    }

    /// A verifier for the authorities of a session.
    pub fn new(authority_data: SessionAuthorityData) -> (verifier: Self)
        ensures
            verifier.authorities() == authority_data.authorities@,
            verifier.emergency_signer() == authority_data.emergency_finalizer,
    {
        SessionVerifier {
            authority_verifier: AuthorityVerifier::new(authority_data.authorities),
            emergency_signer: authority_data.emergency_finalizer,
        }
    }

    /// Verifies the correctness of a justification for supplied bytes.
    pub fn verify_bytes(&self, justification: &AlephJustification, bytes: &[u8]) -> (result: Result<
        (),
        SessionVerificationError,
    >)
        ensures
            result == justified(
                self.authorities(),
                self.emergency_signer(),
                *justification,
                bytes@,
            ),
    {
        match justification {
            AlephJustification::CommitteeMultisignature(multisignature) => {
                if self.authority_verifier.is_complete(bytes, multisignature) {
                    Ok(())
                } else {
                    Err(SessionVerificationError::BadMultisignature)
                }
            },
            AlephJustification::EmergencySignature(signature) => match &self.emergency_signer {
                None => Err(SessionVerificationError::NoEmergencySigner),
                Some(signer) => if signer.verify(bytes, signature) {
                    Ok(())
                } else {
                    Err(SessionVerificationError::BadEmergencySignature)
                },
            },
        }
    }
}

/// Ways in which the justification of a block can be wrong.
#[derive(Clone, Copy, Debug, PartialEq, Eq, Structural)]
pub enum JustificationVerificationError {
    SessionVerification(SessionVerificationError),
    MissingAuthorityData,
    IncorrectGenesis,
}

impl From<SessionVerificationError> for JustificationVerificationError {
    fn from(value: SessionVerificationError) -> (error: Self) {
        JustificationVerificationError::SessionVerification(value)
    }
}

impl vstd::std_specs::convert::FromSpecImpl<SessionVerificationError> for JustificationVerificationError {
    open spec fn obeys_from_spec() -> bool {
        true
    }

    open spec fn from_spec(value: SessionVerificationError) -> Self {
        JustificationVerificationError::SessionVerification(value)
    }
}

impl JustificationVerificationError {
    /// What is wrong, in words.
    pub fn text(&self) -> (text: &'static str)
        ensures
            text@ == match *self {
                JustificationVerificationError::SessionVerification(error) => match error {
                    SessionVerificationError::BadMultisignature => "bad multisignature"@,
                    SessionVerificationError::BadEmergencySignature => "bad emergency signature"@,
                    SessionVerificationError::NoEmergencySigner => "no emergency signer defined"@,
                },
                JustificationVerificationError::MissingAuthorityData => "missing authority data"@,
                JustificationVerificationError::IncorrectGenesis => "incorrect genesis header"@,
            },
    {
        match self {
            JustificationVerificationError::SessionVerification(error) => error.text(),
            JustificationVerificationError::MissingAuthorityData => "missing authority data",
            JustificationVerificationError::IncorrectGenesis => "incorrect genesis header",
        }
    }
}

/// What a justification rests on.
#[derive(Clone, Debug)]
pub enum InnerJustification {
    /// The block is the genesis block.
    Genesis,
    /// The authorities justified it.
    AlephJustification(AlephJustification),
}

/// The justification of a block.
#[derive(Clone, Debug)]
pub struct Justification {
    pub header: Header,
    pub inner_justification: InnerJustification,
}

/// A header that was verified, with a proof of an equivocation if it came with
/// one.
#[derive(Debug)]
pub struct VerifiedHeader<P> {
    pub header: Header,
    pub maybe_equivocation_proof: Option<P>,
}

/// Ways in which a header can be wrong.
#[derive(Clone, Copy, Debug, PartialEq, Eq, Structural)]
pub enum HeaderVerificationError {
    IncorrectGenesis,
    MissingAuthorityData,
    IncorrectSeal,
    IncorrectAuthority,
}

/// An author of blocks.
#[derive(Clone, Copy, Debug, PartialEq, Eq)]
pub struct AuraId {
    pub bytes: [u8; 32],
}

/// The slot that a point in time lies in.
pub fn slot_from_timestamp(timestamp_millis: u64, slot_duration_millis: u64) -> (slot: u64)
    requires
        slot_duration_millis > 0,
    ensures
        slot == timestamp_millis / slot_duration_millis,
{
    timestamp_millis / slot_duration_millis
}

/// The author that a slot belongs to: the authorities take turns.
pub open spec fn author_of_slot(slot: u64, authorities: Seq<AuraId>) -> Option<AuraId> {
    if authorities.len() == 0 {
        None
    } else {
        Some(authorities[slot as int % authorities.len() as int])
    }
}

/// The author that a slot belongs to, if there is any.
pub fn slot_author(slot: u64, authorities: &Vec<AuraId>) -> (author: Option<AuraId>)
    ensures
        author == author_of_slot(slot, authorities@),
{
    if authorities.len() == 0 {
        return None;
    }
    let index: u64 = slot % (authorities.len() as u64);
    Some(authorities[index as usize])
}

/// What a header calls for at first.
#[derive(Debug)]
pub enum HeaderStart {
    /// It is the genesis header that is known.
    Genesis(Header),
    /// It claims to be the genesis header, and is not.
    Rejected(HeaderVerificationError),
    /// The authorities at the parent of the block have to be looked up.
    LookUpAuthorities(Header),
}

/// A header whose slot and seal have to be checked.
#[derive(Debug)]
pub struct SealCheck {
    pub header: Header,
    pub authorities: Vec<AuraId>,
}

/// A header without its seal, whose author has to be checked for equivocation.
#[derive(Debug)]
pub struct EquivocationCheck {
    pub header: Header,
    pub slot: u64,
    pub expected_author: AuraId,
}

/// Verifies justifications and headers, given what the chain knows.
#[derive(Debug)]
pub struct Verifier {
    genesis_header: Header,
}

impl View for Verifier {
    type V = HeaderView;

    closed spec fn view(&self) -> HeaderView {
        self.genesis_header@
    }
}

/// Whether a block is justified, and if not why. The authorities are those of
/// the block, if they are known.
pub open spec fn justification_verdict(
    genesis: HeaderView,
    justification: Justification,
    authority_data: Option<SessionAuthorityData>,
) -> Result<(), JustificationVerificationError> {
    match justification.inner_justification {
        InnerJustification::Genesis => if justification.header@ == genesis {
            Ok(())
        } else {
            Err(JustificationVerificationError::IncorrectGenesis)
        },
        InnerJustification::AlephJustification(inner) => match authority_data {
            None => Err(JustificationVerificationError::MissingAuthorityData),
            Some(data) => match justified(
                data.authorities@,
                data.emergency_finalizer,
                inner,
                justification.header@.hash(),
            ) {
                Ok(_) => Ok(()),
                Err(error) => Err(JustificationVerificationError::SessionVerification(error)),
            },
        },
    }
}

/// What comes of a header, given what is answered on the way: the authorities at
/// its parent, the header without its seal and its slot, and a proof of an
/// equivocation.
pub open spec fn header_verdict<P>(
    genesis: HeaderView,
    header: HeaderView,
    authorities: Option<Seq<AuraId>>,
    seal: Option<(HeaderView, u64)>,
    equivocation: Option<P>,
) -> Result<(HeaderView, Option<P>), HeaderVerificationError> {
    if header.number == 0 {
        if header == genesis {
            Ok((header, None))
        } else {
            Err(HeaderVerificationError::IncorrectGenesis)
        }
    } else {
        match authorities {
            None => Err(HeaderVerificationError::MissingAuthorityData),
            Some(authorities) => match seal {
                None => Err(HeaderVerificationError::IncorrectSeal),
                Some((unsealed, slot)) => if author_of_slot(slot, authorities) is None {
                    Err(HeaderVerificationError::IncorrectAuthority)
                } else {
                    Ok((unsealed, equivocation))
                },
            },
        }
    }
}

/// What the result of a verification is.
pub open spec fn verified_view<P>(
    result: Result<VerifiedHeader<P>, HeaderVerificationError>,
) -> Result<(HeaderView, Option<P>), HeaderVerificationError> {
    match result {
        Ok(verified) => Ok((verified.header@, verified.maybe_equivocation_proof)),
        Err(error) => Err(error),
    }
}

impl Verifier {
    /// A verifier that knows the genesis header.
    pub fn new(genesis_header: Header) -> (verifier: Self)
        ensures
            verifier@ == genesis_header@,
    {
        Verifier { genesis_header }
    }

    /// The hash of the block whose authorities have to be looked up in order to
    /// verify a justification, if they have to.
    pub fn authority_query(&self, justification: &Justification) -> (hash: Option<[u8; 32]>)
        ensures
            match justification.inner_justification {
                InnerJustification::Genesis => hash is None,
                InnerJustification::AlephJustification(_) => hash matches Some(hash) && hash@
                    == justification.header@.hash(),
            },
    {
        match &justification.inner_justification {
            InnerJustification::Genesis => None,
            InnerJustification::AlephJustification(_) => Some(justification.header.hash()),
        }
    }

    /// Verifies a justification, with the authorities of its block if they are
    /// known.
    pub fn verify_justification(
        &self,
        justification: Justification,
        authority_data: Option<SessionAuthorityData>,
    ) -> (result: Result<Justification, JustificationVerificationError>)
        ensures
            match justification_verdict(self@, justification, authority_data) {
                Ok(_) => result == Ok::<_, JustificationVerificationError>(justification),
                Err(error) => result == Err::<Justification, _>(error),
            },
    {
        let verdict: Result<(), JustificationVerificationError> =
            match &justification.inner_justification {
            InnerJustification::Genesis => {
                if justification.header.same(&self.genesis_header) {
                    Ok(())
                } else {
                    Err(JustificationVerificationError::IncorrectGenesis)
                }
            },
            InnerJustification::AlephJustification(aleph_justification) => match authority_data {
                None => Err(JustificationVerificationError::MissingAuthorityData),
                Some(data) => {
                    let verifier = SessionVerifier::new(data);
                    let hash = justification.header.hash();
                    match verifier.verify_bytes(aleph_justification, hash.as_slice()) {
                        Ok(_) => Ok(()),
                        Err(error) => Err(JustificationVerificationError::from(error)),
                    }
                },
            },
        };
        match verdict {
            Ok(_) => Ok(justification),
            Err(error) => Err(error),
        }
    }

    /// Begins to verify a header. The genesis header is compared directly to the
    /// one that is known.
    pub fn start_header(&self, header: Header) -> (start: HeaderStart)
        ensures
            if header.number != 0 {
                start == HeaderStart::LookUpAuthorities(header)
            } else if header@ == self@ {
                start == HeaderStart::Genesis(header)
            } else {
                start == HeaderStart::Rejected(HeaderVerificationError::IncorrectGenesis)
            },
    {
        if header.number == 0 {
            if header.same(&self.genesis_header) {
                HeaderStart::Genesis(header)
            } else {
                HeaderStart::Rejected(HeaderVerificationError::IncorrectGenesis)
            }
        } else {
            HeaderStart::LookUpAuthorities(header)
        }
    }

    /// Goes on with the authorities at the parent of the block, if they are known.
    pub fn with_authorities(&self, header: Header, authorities: Option<Vec<AuraId>>) -> (check:
        Result<SealCheck, HeaderVerificationError>)
        ensures
            match authorities {
                None => check == Err::<SealCheck, _>(HeaderVerificationError::MissingAuthorityData),
                Some(authorities) => check == Ok::<_, HeaderVerificationError>(
                    SealCheck { header, authorities },
                ),
            },
    {
        match authorities {
            None => Err(HeaderVerificationError::MissingAuthorityData),
            Some(authorities) => Ok(SealCheck { header, authorities }),
        }
    }

    /// Goes on with the header without its seal and its slot, if slot and seal are
    /// right.
    pub fn with_seal(&self, check: SealCheck, unsealed: Option<(Header, u64)>) -> (next: Result<
        EquivocationCheck,
        HeaderVerificationError,
    >)
        ensures
            match unsealed {
                None => next == Err::<EquivocationCheck, _>(
                    HeaderVerificationError::IncorrectSeal,
                ),
                Some((header, slot)) => match author_of_slot(slot, check.authorities@) {
                    None => next == Err::<EquivocationCheck, _>(
                        HeaderVerificationError::IncorrectAuthority,
                    ),
                    Some(expected_author) => next == Ok::<_, HeaderVerificationError>(
                        EquivocationCheck { header, slot, expected_author },
                    ),
                },
            },
    {
        match unsealed {
            None => Err(HeaderVerificationError::IncorrectSeal),
            Some((header, slot)) => match slot_author(slot, &check.authorities) {
                None => Err(HeaderVerificationError::IncorrectAuthority),
                Some(expected_author) => Ok(EquivocationCheck { header, slot, expected_author }),
            },
        }
    }

    /// Ends with what the check for equivocation came to. That the check failed
    /// counts as no proof.
    pub fn check_equivocation<P, E>(&self, check: EquivocationCheck, found: Result<
        Option<P>,
        E,
    >) -> (verified: VerifiedHeader<P>)
        ensures
            verified.header == check.header,
            verified.maybe_equivocation_proof == match found {
                Ok(proof) => proof,
                Err(_) => None,
            },
    {
        let maybe_equivocation_proof = match found {
            Ok(proof) => proof,
            Err(_) => None,
        };
        VerifiedHeader { header: check.header, maybe_equivocation_proof }
    }

    /// Verifies a header, given everything that can be answered on the way.
    pub fn verify_header<P, E>(
        &self,
        header: Header,
        authorities: Option<Vec<AuraId>>,
        unsealed: Option<(Header, u64)>,
        equivocation: Result<Option<P>, E>,
    ) -> (result: Result<VerifiedHeader<P>, HeaderVerificationError>)
        ensures
            verified_view(result) == header_verdict(
                self@,
                header@,
                match authorities {
                    Some(authorities) => Some(authorities@),
                    None => None,
                },
                match unsealed {
                    Some((unsealed, slot)) => Some((unsealed@, slot)),
                    None => None,
                },
                match equivocation {
                    Ok(proof) => proof,
                    Err(_) => None,
                },
            ),
    {
        match self.start_header(header) {
            HeaderStart::Genesis(header) => Ok(
                VerifiedHeader { header, maybe_equivocation_proof: None },
            ),
            HeaderStart::Rejected(error) => Err(error),
            HeaderStart::LookUpAuthorities(header) => {
                match self.with_authorities(header, authorities) {
                    Err(error) => Err(error),
                    Ok(check) => match self.with_seal(check, unsealed) {
                        Err(error) => Err(error),
                        Ok(check) => Ok(self.check_equivocation(check, equivocation)),
                    },
                }
            },
        }
    }

    /// Whether the block is one's own: a verifier knows of none.
    pub fn own_block(&self, _header: &Header) -> (own: bool)
        ensures
            !own,
    {
        false
    }
}

/// One of two.
#[derive(Debug)]
pub enum Either<A, B> {
    Left(A),
    Right(B),
}

/// A proof that an author made two blocks for one slot.
pub trait EquivocationProof {
    /// Whether the author is this node.
    fn are_we_equivocating(&self) -> (by_us: bool);
}

impl<A: EquivocationProof, B: EquivocationProof> EquivocationProof for Either<A, B> {
    /// Whether the author is this node, as the proof at hand says.
    fn are_we_equivocating(&self) -> (by_us: bool)
        ensures
            match self {
                Either::Left(left) => call_ensures(A::are_we_equivocating, (left,), by_us),
                Either::Right(right) => call_ensures(B::are_we_equivocating, (right,), by_us),
            },
    {
        match self {
            Either::Left(left) => left.are_we_equivocating(),
            Either::Right(right) => right.are_we_equivocating(),
        }
    }
}

/// Two at once.
#[derive(Debug)]
pub struct Pair<A, B>(pub A, pub B);

/// Verifies a justification with two verifiers: what the first accepts counts,
/// else what the second does. The second is asked only where the first rejects.
pub fn verify_justification_with_either<A, B, F: FnOnce() -> Result<Justification, B>>(
    left: Result<Justification, A>,
    right: F,
) -> (result: Result<Justification, Pair<A, B>>)
    requires
        left is Err ==> call_requires(right, ()),
    ensures
        match left {
            Ok(justification) => result == Ok::<_, Pair<A, B>>(justification),
            Err(left_error) => exists|answer: Result<Justification, B>|
                #![trigger call_ensures(right, (), answer)]
                call_ensures(right, (), answer) && result == match answer {
                    Ok(justification) => Ok(justification),
                    Err(right_error) => Err(Pair(left_error, right_error)),
                },
        },
{
    match left {
        Ok(justification) => Ok(justification),
        Err(left_error) => match right() {
            Ok(justification) => Ok(justification),
            Err(right_error) => Err(Pair(left_error, right_error)),
        },
    }
}

/// Verifies a header with two verifiers: what the first accepts counts, else
/// what the second does, and a proof says whose it is. The second is asked only
/// where the first rejects.
pub fn verify_header_with_either<
    PA,
    PB,
    A,
    B,
    F: FnOnce() -> Result<VerifiedHeader<PB>, B>,
>(left: Result<VerifiedHeader<PA>, A>, right: F) -> (result: Result<
    VerifiedHeader<Either<PA, PB>>,
    Pair<A, B>,
>)
    requires
        left is Err ==> call_requires(right, ()),
    ensures
        match left {
            Ok(verified) => result matches Ok(accepted) && {
                &&& accepted.header == verified.header
                &&& accepted.maybe_equivocation_proof == match verified.maybe_equivocation_proof {
                    Some(proof) => Some(Either::<PA, PB>::Left(proof)),
                    None => None,
                }
            },
            Err(left_error) => exists|answer: Result<VerifiedHeader<PB>, B>|
                #![trigger call_ensures(right, (), answer)]
                call_ensures(right, (), answer) && match answer {
                    Ok(verified) => result matches Ok(accepted) && {
                        &&& accepted.header == verified.header
                        &&& accepted.maybe_equivocation_proof
                            == match verified.maybe_equivocation_proof {
                            Some(proof) => Some(Either::<PA, PB>::Right(proof)),
                            None => None,
                        }
                    },
                    Err(right_error) => result == Err::<VerifiedHeader<Either<PA, PB>>, _>(
                        Pair(left_error, right_error),
                    ),
                },
        },
{
    match left {
        Ok(verified) => {
            let maybe_equivocation_proof = match verified.maybe_equivocation_proof {
                Some(proof) => Some(Either::Left(proof)),
                None => None,
            };
            Ok(VerifiedHeader { header: verified.header, maybe_equivocation_proof })
        },
        Err(left_error) => match right() {
            Ok(verified) => {
                let maybe_equivocation_proof = match verified.maybe_equivocation_proof {
                    Some(proof) => Some(Either::Right(proof)),
                    None => None,
                };
                Ok(VerifiedHeader { header: verified.header, maybe_equivocation_proof })
            },
            Err(right_error) => Err(Pair(left_error, right_error)),
        },
    }
}

/// Whether a block is one's own for either of two verifiers.
pub fn own_block_of_either(left: bool, right: bool) -> (own: bool)
    ensures
        own == (left || right),
{
    left || right
}

/// Two blocks that one committee justified by multisignatures have more than a
/// third of the committee in common among their signers.
pub proof fn justified_blocks_share_signers(
    genesis: HeaderView,
    a: Justification,
    b: Justification,
    authority_data: SessionAuthorityData,
)
    requires
        justification_verdict(genesis, a, Some(authority_data)) is Ok,
        justification_verdict(genesis, b, Some(authority_data)) is Ok,
        a.inner_justification matches InnerJustification::AlephJustification(inner)
            && inner is CommitteeMultisignature,
        b.inner_justification matches InnerJustification::AlephJustification(inner)
            && inner is CommitteeMultisignature,
    ensures
        ({
            let set_a =
                a.inner_justification->AlephJustification_0->CommitteeMultisignature_0.signatures@;
            let set_b =
                b.inner_justification->AlephJustification_0->CommitteeMultisignature_0.signatures@;
            3 * crate::crypto::common_signers(set_a, set_b, authority_data.authorities@.len())
                > authority_data.authorities@.len()
        }),
{
    let set_a = a.inner_justification->AlephJustification_0->CommitteeMultisignature_0.signatures@;
    let set_b = b.inner_justification->AlephJustification_0->CommitteeMultisignature_0.signatures@;
    crate::crypto::complete_sets_overlap(
        authority_data.authorities@,
        a.header@.hash(),
        set_a,
        b.header@.hash(),
        set_b,
    );
}

/// The authorities of a session take turns: each slot has the author that the
/// slot as many slots later has.
pub proof fn authors_take_turns(slot: u64, authorities: Seq<AuraId>)
    requires
        slot + authorities.len() <= u64::MAX,
    ensures
        author_of_slot((slot + authorities.len()) as u64, authorities) == author_of_slot(
            slot,
            authorities,
        ),
{
    if authorities.len() > 0 {
        vstd::arithmetic::div_mod::lemma_mod_add_multiples_vanish(
            slot as int,
            authorities.len() as int,
        );
        assert((slot + authorities.len()) as int % authorities.len() as int == slot as int
            % authorities.len() as int);
    }
}

/// The authorities take turns from the first one on: as long as none had two
/// turns, the author of a slot is the authority at that position, and in every
/// later round the same ones come in the same order. Without authorities no slot
/// has an author.
pub proof fn authors_take_turns_in_order(round: nat, position: nat, authorities: Seq<AuraId>)
    requires
        position < authorities.len(),
        round * authorities.len() + position <= u64::MAX,
    ensures
        position <= u64::MAX ==> author_of_slot(position as u64, authorities) == Some(
            authorities[position as int],
        ),
        author_of_slot((round * authorities.len() + position) as u64, authorities) == Some(
            authorities[position as int],
        ),
        author_of_slot(position as u64, Seq::empty()) is None,
{
    let n = authorities.len() as int;
    let slot = round * n + position;
    vstd::arithmetic::div_mod::lemma_fundamental_div_mod_converse(
        slot,
        n,
        round as int,
        position as int,
    );
    vstd::arithmetic::div_mod::lemma_small_mod(position, n as nat);
    assert(0 <= round * n) by (nonlinear_arith)
        requires
            n >= 0,
            round >= 0,
    ;
}

/// The encoding of a header holds all of it: its first four fields as they are
/// encoded together, and then its digest. So headers that differ only in their
/// digests have different encodings.
pub proof fn encodings_end_with_the_digest(header: HeaderView, digest: Seq<u8>)
    ensures
        header.encoded().take(header.encoded().len() - header.digest.len()) == scale_header_fields(
            header.parent_hash,
            header.number,
            header.state_root,
            header.extrinsics_root,
        ),
        header.encoded().skip(header.encoded().len() - header.digest.len()) == header.digest,
        digest != header.digest ==> (HeaderView { digest, ..header }).encoded()
            != header.encoded(),
        header.hash() == blake2_256(header.encoded()),
{
    let fields = scale_header_fields(
        header.parent_hash,
        header.number,
        header.state_root,
        header.extrinsics_root,
    );
    assert(header.encoded().take(header.encoded().len() - header.digest.len()) =~= fields);
    assert(header.encoded().skip(header.encoded().len() - header.digest.len()) =~= header.digest);
    let other = HeaderView { digest, ..header };
    if other.encoded() == header.encoded() {
        assert(other.digest.len() == header.digest.len());
        assert(other.encoded().skip(fields.len() as int) =~= digest);
    }
}

/// A justification by the committee is accepted exactly where more than two thirds
/// of it signed, all rightly; one by the emergency signer exactly where there is
/// one and the signature is theirs. Each is rejected with an error of its own.
pub proof fn justifications_need_signatures(
    authorities: Seq<AuthorityId>,
    emergency_signer: Option<AuthorityId>,
    set: SignatureSet,
    signature: Signature,
    bytes: Seq<u8>,
)
    ensures
        ({
            let by_committee = justified(
                authorities,
                emergency_signer,
                AlephJustification::CommitteeMultisignature(set),
                bytes,
            );
            &&& by_committee is Ok ==> 3 * crate::crypto::signature_count(set.signatures@) > 2
                * authorities.len()
            &&& by_committee is Ok <==> complete(authorities, bytes, set.signatures@)
            &&& by_committee is Err ==> by_committee == Err::<(), _>(
                SessionVerificationError::BadMultisignature,
            )
        }),
        ({
            let in_emergency = justified(
                authorities,
                emergency_signer,
                AlephJustification::EmergencySignature(signature),
                bytes,
            );
            &&& emergency_signer is None ==> in_emergency == Err::<(), _>(
                SessionVerificationError::NoEmergencySigner,
            )
            &&& emergency_signer matches Some(signer) ==> {
                &&& in_emergency is Ok <==> crate::crypto::ed25519_verifies(
                    signature.bytes@,
                    bytes,
                    signer.bytes@,
                )
                &&& in_emergency is Err ==> in_emergency == Err::<(), _>(
                    SessionVerificationError::BadEmergencySignature,
                )
            }
        }),
{
}

/// A block other than the genesis block is justified only by its authorities, and
/// only by what they signed of its very hash.
pub proof fn blocks_are_justified_by_their_authorities(
    genesis: HeaderView,
    justification: Justification,
    authority_data: Option<SessionAuthorityData>,
)
    ensures
        ({
            let verdict = justification_verdict(genesis, justification, authority_data);
            match justification.inner_justification {
                InnerJustification::Genesis => {
                    &&& verdict is Ok <==> justification.header@ == genesis
                    &&& verdict is Err ==> verdict == Err::<(), _>(
                        JustificationVerificationError::IncorrectGenesis,
                    )
                },
                InnerJustification::AlephJustification(inner) => {
                    &&& authority_data is None ==> verdict == Err::<(), _>(
                        JustificationVerificationError::MissingAuthorityData,
                    )
                    &&& authority_data matches Some(data) ==> {
                        let by_authorities = justified(
                            data.authorities@,
                            data.emergency_finalizer,
                            inner,
                            blake2_256(justification.header@.encoded()),
                        );
                        &&& verdict is Ok <==> by_authorities is Ok
                        &&& by_authorities matches Err(error) ==> verdict == Err::<(), _>(
                            JustificationVerificationError::SessionVerification(error),
                        )
                    }
                },
            }
        }),
{
}

/// A header that claims to be the genesis header is accepted exactly where it is
/// the known one, as it is and without a proof, whatever else is answered.
pub proof fn only_the_known_genesis_header_is_accepted<P>(
    genesis: HeaderView,
    header: HeaderView,
    authorities: Option<Seq<AuraId>>,
    seal: Option<(HeaderView, u64)>,
    equivocation: Option<P>,
)
    requires
        header.number == 0,
    ensures
        ({
            let verdict = header_verdict(genesis, header, authorities, seal, equivocation);
            &&& header == genesis ==> verdict == Ok::<_, HeaderVerificationError>(
                (header, None::<P>),
            )
            &&& header != genesis ==> verdict == Err::<(HeaderView, Option<P>), _>(
                HeaderVerificationError::IncorrectGenesis,
            )
        }),
{
}

/// Any other header is accepted exactly where the authorities at its parent are
/// known, slot and seal are right and the slot has an author; then it comes out
/// without its seal and with the proof of an equivocation that was found. What is
/// missing first is what it is rejected for.
pub proof fn other_headers_need_a_seal_and_an_author<P>(
    genesis: HeaderView,
    header: HeaderView,
    authorities: Option<Seq<AuraId>>,
    seal: Option<(HeaderView, u64)>,
    equivocation: Option<P>,
)
    requires
        header.number != 0,
    ensures
        ({
            let verdict = header_verdict(genesis, header, authorities, seal, equivocation);
            &&& authorities is None ==> verdict == Err::<(HeaderView, Option<P>), _>(
                HeaderVerificationError::MissingAuthorityData,
            )
            &&& authorities is Some && seal is None ==> verdict == Err::<
                (HeaderView, Option<P>),
                _,
            >(HeaderVerificationError::IncorrectSeal)
            &&& authorities is Some && seal is Some ==> if authorities->0.len() == 0 {
                verdict == Err::<(HeaderView, Option<P>), _>(
                    HeaderVerificationError::IncorrectAuthority,
                )
            } else {
                verdict == Ok::<_, HeaderVerificationError>(((seal->0).0, equivocation))
            }
        }),
{
}

/// What a header is, is all that it holds: two headers are the same only where each
/// of their fields is.
pub proof fn headers_are_all_that_they_hold(header: Header, other: Header)
    ensures
        header@.parent_hash == header.parent_hash@,
        header@.number == header.number,
        header@.state_root == header.state_root@,
        header@.extrinsics_root == header.extrinsics_root@,
        header@.digest == header.digest@,
        header@ == other@ <==> header.parent_hash@ == other.parent_hash@ && header.number
            == other.number && header.state_root@ == other.state_root@ && header.extrinsics_root@
            == other.extrinsics_root@ && header.digest@ == other.digest@,
{
}

/// The result of a verification is its header and its proof, or its error; and the
/// error of a session is passed on as it is.
pub proof fn results_are_what_they_hold<P>(
    verified: VerifiedHeader<P>,
    error: HeaderVerificationError,
    session_error: SessionVerificationError,
)
    ensures
        verified_view(Ok(verified)) == Ok::<_, HeaderVerificationError>(
            (verified.header@, verified.maybe_equivocation_proof),
        ),
        verified_view(Err::<VerifiedHeader<P>, _>(error)) == Err::<(HeaderView, Option<P>), _>(
            error,
        ),
        <JustificationVerificationError as vstd::std_specs::convert::FromSpec<
            SessionVerificationError,
        >>::from_spec(session_error) == JustificationVerificationError::SessionVerification(
            session_error,
        ),
{
}

/// A point in time lies in the slot that begins no later and ends after it: the
/// slots follow each other without gaps, each as long as the duration.
pub proof fn slots_follow_each_other(timestamp: u64, duration: u64, slot: u64)
    requires
        duration > 0,
        call_ensures(slot_from_timestamp, (timestamp, duration), slot),
    ensures
        slot * duration <= timestamp < (slot + 1) * duration,
{
    let t = timestamp as int;
    let d = duration as int;
    let s = slot as int;
    vstd::arithmetic::div_mod::lemma_fundamental_div_mod(t, d);
    assert(0 <= t % d < d);
    assert(s * d == d * s) by (nonlinear_arith);
    assert((s + 1) * d == d * s + d) by (nonlinear_arith);
}

} // verus!
