use aleph_node::block::status_notifier::{
    ChainStatusNotification, Error, StreamItem, SubstrateChainStatusNotifier,
};
use aleph_node::block::verification::{
    own_block_of_either, slot_author, slot_from_timestamp, verify_header_with_either,
    verify_justification_with_either, AlephJustification, AuraId, Either, EquivocationProof,
    Header, HeaderStart, HeaderVerificationError, InnerJustification, Justification,
    JustificationVerificationError, Pair, SessionAuthorityData, SessionVerificationError,
    SessionVerifier, VerifiedHeader, Verifier,
};
use aleph_node::crypto::{AuthorityPen, Signature, SignatureSet};

fn header(number: u32) -> Header {
    Header {
        parent_hash: [1; 32],
        number,
        state_root: [2; 32],
        extrinsics_root: [3; 32],
        digest: vec![0],
    }
}

fn pens() -> Vec<AuthorityPen> {
    (1..=4).map(|i| AuthorityPen::new([i; 32])).collect()
}

fn authority_data(emergency: bool) -> SessionAuthorityData {
    SessionAuthorityData {
        authorities: pens().iter().map(|pen| pen.authority_id()).collect(),
        emergency_finalizer: if emergency {
            Some(AuthorityPen::new([9; 32]).authority_id())
        } else {
            None
        },
    }
}

fn multisignature(message: &[u8], signers: usize) -> AlephJustification {
    let mut signatures: Vec<Option<Signature>> = vec![None; 4];
    for (i, pen) in pens().iter().enumerate().take(signers) {
        signatures[i] = Some(pen.sign(message));
    }
    AlephJustification::CommitteeMultisignature(SignatureSet { signatures })
}

fn justification(header: Header, inner: AlephJustification) -> Justification {
    Justification {
        header,
        inner_justification: InnerJustification::AlephJustification(inner),
    }
}

#[test]
fn headers_are_hashed_as_they_are_encoded() {
    let mut encoded = vec![1; 32];
    encoded.push(5 << 2);
    encoded.extend([2; 32]);
    encoded.extend([3; 32]);
    encoded.push(0);
    assert_eq!(header(5).encode(), encoded);
    let hash = [
        0x60, 0x8d, 0xf6, 0xaf, 0x87, 0x4f, 0xba, 0x0a, 0xfd, 0xd7, 0x30, 0x98, 0x29, 0xa7, 0xe6, 0xd9, 0x68, 0xde, 0x16, 0x19, 0xcb, 0x03, 0x50, 0x33, 0xa9, 0x32, 0x92, 0x4d, 0x85, 0x7d, 0x66, 0x10
    ];
    assert_eq!(header(5).hash(), hash);
    assert_ne!(header(6).hash(), hash);
    assert!(header(5).same(&header(5).clone()));
    assert!(!header(5).same(&header(6)));
}

#[test]
fn sessions_verify_justifications() {
    let verifier = SessionVerifier::new(authority_data(true));
    assert_eq!(
        verifier.verify_bytes(&multisignature(b"bytes", 3), b"bytes"),
        Ok(())
    );
    assert_eq!(
        verifier.verify_bytes(&multisignature(b"bytes", 2), b"bytes"),
        Err(SessionVerificationError::BadMultisignature)
    );
    let emergency = AuthorityPen::new([9; 32]).sign(b"bytes");
    let emergency = AlephJustification::EmergencySignature(emergency);
    assert_eq!(verifier.verify_bytes(&emergency, b"bytes"), Ok(()));
    assert_eq!(
        verifier.verify_bytes(&emergency, b"other"),
        Err(SessionVerificationError::BadEmergencySignature)
    );
    let verifier = SessionVerifier::new(authority_data(false));
    assert_eq!(
        verifier.verify_bytes(&emergency, b"bytes"),
        Err(SessionVerificationError::NoEmergencySigner)
    );
}

#[test]
fn blocks_are_justified_by_their_authorities() {
    let verifier = Verifier::new(header(0));
    let hash = header(5).hash();
    let good = justification(header(5), multisignature(&hash, 3));
    assert_eq!(verifier.authority_query(&good), Some(hash));
    let verified = verifier
        .verify_justification(good, Some(authority_data(false)))
        .expect("it is justified");
    assert_eq!(verified.header.number, 5);
    let unknown = justification(header(5), multisignature(&hash, 3));
    assert_eq!(
        verifier.verify_justification(unknown, None).err(),
        Some(JustificationVerificationError::MissingAuthorityData)
    );
    let other = justification(header(6), multisignature(&hash, 3));
    assert_eq!(
        verifier
            .verify_justification(other, Some(authority_data(false)))
            .err(),
        Some(JustificationVerificationError::SessionVerification(
            SessionVerificationError::BadMultisignature
        ))
    );
}

#[test]
fn the_genesis_block_needs_no_authorities() {
    let verifier = Verifier::new(header(0));
    let genesis = Justification {
        header: header(0),
        inner_justification: InnerJustification::Genesis,
    };
    assert_eq!(verifier.authority_query(&genesis), None);
    assert!(verifier.verify_justification(genesis, None).is_ok());
    let wrong = Justification {
        header: header(1),
        inner_justification: InnerJustification::Genesis,
    };
    assert_eq!(
        verifier.verify_justification(wrong, None).err(),
        Some(JustificationVerificationError::IncorrectGenesis)
    );
}

fn aura(i: u8) -> AuraId {
    AuraId { bytes: [i; 32] }
}

type Verified = Result<VerifiedHeader<&'static str>, HeaderVerificationError>;

fn verify(
    header: Header,
    authorities: Option<Vec<AuraId>>,
    unsealed: Option<(Header, u64)>,
    equivocation: Result<Option<&'static str>, ()>,
) -> Verified {
    Verifier::new(self::header(0)).verify_header(header, authorities, unsealed, equivocation)
}

#[test]
fn headers_are_verified_step_by_step() {
    let authorities = Some(vec![aura(1), aura(2)]);
    let verified = verify(
        header(3),
        authorities.clone(),
        Some((header(4), 7)),
        Ok(Some("proof")),
    )
    .expect("it is right");
    assert_eq!(verified.header.number, 4);
    assert_eq!(verified.maybe_equivocation_proof, Some("proof"));
    let verified = verify(
        header(3),
        authorities.clone(),
        Some((header(3), 7)),
        Err(()),
    )
    .expect("it is right");
    assert_eq!(verified.maybe_equivocation_proof, None);
    assert_eq!(
        verify(header(3), None, Some((header(3), 7)), Ok(None)).err(),
        Some(HeaderVerificationError::MissingAuthorityData)
    );
    assert_eq!(
        verify(header(3), authorities, None, Ok(None)).err(),
        Some(HeaderVerificationError::IncorrectSeal)
    );
    assert_eq!(
        verify(header(3), Some(vec![]), Some((header(3), 7)), Ok(None)).err(),
        Some(HeaderVerificationError::IncorrectAuthority)
    );
}

#[test]
fn genesis_headers_are_compared() {
    assert!(verify(header(0), None, None, Ok(None)).is_ok());
    let mut other = header(0);
    other.digest = vec![9];
    assert_eq!(
        verify(other, None, None, Ok(None)).err(),
        Some(HeaderVerificationError::IncorrectGenesis)
    );
    let verifier = Verifier::new(header(0));
    assert!(matches!(
        verifier.start_header(header(2)),
        HeaderStart::LookUpAuthorities(_)
    ));
    assert!(!verifier.own_block(&header(2)));
}

#[test]
fn slots_have_authors_in_turn() {
    let authorities = vec![aura(1), aura(2), aura(3)];
    assert_eq!(slot_author(7, &authorities), Some(aura(2)));
    assert_eq!(slot_author(10, &authorities), Some(aura(2)));
    assert_eq!(slot_author(7, &vec![]), None);
    assert_eq!(slot_from_timestamp(12_999, 1000), 12);
}

fn verified<P>(number: u32, proof: Option<P>) -> VerifiedHeader<P> {
    VerifiedHeader {
        header: header(number),
        maybe_equivocation_proof: proof,
    }
}

#[test]
fn the_second_verifier_is_asked_only_if_the_first_rejects() {
    let first: Result<VerifiedHeader<u8>, &str> = Ok(verified(3, Some(1)));
    let result = verify_header_with_either(first, || -> Result<VerifiedHeader<u16>, &str> {
        panic!("it should not be asked")
    });
    let accepted = result.expect("the first accepts");
    assert!(matches!(accepted.maybe_equivocation_proof, Some(Either::Left(1))));

    let first: Result<VerifiedHeader<u8>, &str> = Err("first");
    let result = verify_header_with_either(first, || -> Result<VerifiedHeader<u16>, &str> {
        Ok(verified(3, Some(2)))
    });
    let accepted = result.expect("the second accepts");
    assert!(matches!(accepted.maybe_equivocation_proof, Some(Either::Right(2))));

    let first: Result<VerifiedHeader<u8>, &str> = Err("first");
    let result = verify_header_with_either(first, || -> Result<VerifiedHeader<u16>, &str> {
        Err("second")
    });
    assert!(matches!(result, Err(Pair("first", "second"))));

    let first: Result<Justification, &str> = Err("first");
    let result = verify_justification_with_either(first, || -> Result<Justification, &str> {
        Err("second")
    });
    assert!(matches!(result, Err(Pair("first", "second"))));
    assert!(own_block_of_either(false, true));
    assert!(!own_block_of_either(false, false));
}

struct Ours(bool);

impl EquivocationProof for Ours {
    fn are_we_equivocating(&self) -> bool {
        self.0
    }
}

#[test]
fn either_proof_says_who_equivocates() {
    let left: Either<Ours, Ours> = Either::Left(Ours(true));
    let right: Either<Ours, Ours> = Either::Right(Ours(false));
    assert!(left.are_we_equivocating());
    assert!(!right.are_we_equivocating());
}

#[test]
fn errors_have_words() {
    assert_eq!(
        JustificationVerificationError::from(SessionVerificationError::BadMultisignature).text(),
        "bad multisignature"
    );
    assert_eq!(
        SessionVerificationError::BadEmergencySignature.text(),
        "bad emergency signature"
    );
    assert_eq!(
        SessionVerificationError::NoEmergencySigner.text(),
        "no emergency signer defined"
    );
    assert_eq!(
        JustificationVerificationError::MissingAuthorityData.text(),
        "missing authority data"
    );
    assert_eq!(
        JustificationVerificationError::IncorrectGenesis.text(),
        "incorrect genesis header"
    );
    assert_eq!(
        Error::JustificationStreamClosed.text(),
        "finalization notification stream has ended"
    );
    assert_eq!(
        Error::ImportStreamClosed.text(),
        "import notification stream has ended"
    );
}

#[test]
fn streams_that_ended_are_not_awaited() {
    let mut notifier = SubstrateChainStatusNotifier::new();
    assert_eq!(notifier.awaited(), (true, true));
    assert!(matches!(
        notifier.next(StreamItem::Finality(Some(4))),
        Ok(ChainStatusNotification::BlockFinalized(4))
    ));
    assert!(matches!(
        notifier.next(StreamItem::Import(Some(5))),
        Ok(ChainStatusNotification::BlockImported(5))
    ));
    assert!(matches!(
        notifier.next(StreamItem::<u32>::Finality(None)),
        Err(Error::JustificationStreamClosed)
    ));
    assert_eq!(notifier.awaited(), (false, true));
    assert!(matches!(
        notifier.next(StreamItem::<u32>::Import(None)),
        Err(Error::ImportStreamClosed)
    ));
    assert_eq!(notifier.awaited(), (false, false));
}
