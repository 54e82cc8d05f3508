use ed25519_dalek::{Signer, SigningKey};
use sha2::Digest;

use light_node_verifier::bytes::build_attestation_message;
use light_node_verifier::directory::{DirectoryEntry, ValidatorDirectory};
use light_node_verifier::policy::Verifier;
use light_node_verifier::types::{
    Attestation, QuorumThreshold, Validator, ValidatorSet, VerificationError, VerificationMode,
    Verified,
};

fn key(seed: u8) -> SigningKey {
    SigningKey::from_bytes(&[seed; 32])
}

fn validator(seed: u8, power: u64) -> Validator {
    Validator {
        public_key: key(seed).verifying_key().to_bytes().to_vec(),
        voting_power: power,
    }
}

fn blob_digest(blob: &[u8]) -> Vec<u8> {
    sha2::Sha256::digest(blob).to_vec()
}

fn attest(seed: u8, digest: &Vec<u8>, height: u64) -> Attestation {
    let sk = key(seed);
    let message = build_attestation_message(digest, height);
    Attestation {
        public_key: sk.verifying_key().to_bytes().to_vec(),
        digest: digest.clone(),
        signature: sk.sign(&message).to_bytes().to_vec(),
    }
}

fn set_of(seeds: &[u8]) -> ValidatorSet {
    ValidatorSet {
        validators: seeds.iter().map(|s| validator(*s, 1)).collect(),
    }
}

fn dir_one(height: u64, set: ValidatorSet) -> ValidatorDirectory {
    ValidatorDirectory {
        entries: vec![DirectoryEntry { height, set }],
    }
}

fn is_valid(r: &Result<Verified<Vec<u8>>, VerificationError>) -> bool {
    matches!(r, Ok(Verified::Valid(_)))
}

fn is_invalid(r: &Result<Verified<Vec<u8>>, VerificationError>) -> bool {
    matches!(r, Ok(Verified::Invalid))
}

#[test]
fn cowboy_accepts_any_blob() {
    let v = Verifier::new(QuorumThreshold::Count { required: 2 });
    let dir = ValidatorDirectory {
        entries: Vec::new(),
    };
    let atts: Vec<Attestation> = Vec::new();
    let blob = vec![1u8, 2, 3];
    let r = v.verify(VerificationMode::Cowboy, blob.clone(), 42, &dir, &atts);
    match r {
        Ok(Verified::Valid(b)) => assert_eq!(b, blob),
        _ => panic!("cowboy mode must accept the blob"),
    }
}

#[test]
fn unknown_height_for_non_cowboy_modes() {
    let v = Verifier::new(QuorumThreshold::Count { required: 1 });
    let dir = dir_one(5, set_of(&[1, 2, 3]));
    let atts: Vec<Attestation> = Vec::new();
    let r1 = v.verify(VerificationMode::ValidatorIn, vec![9u8], 6, &dir, &atts);
    assert_eq!(r1.err(), Some(VerificationError::UnknownHeight));
    let r2 = v.verify(VerificationMode::MOfN, vec![9u8], 6, &dir, &atts);
    assert_eq!(r2.err(), Some(VerificationError::UnknownHeight));
    let r3 = v.verify(VerificationMode::Cowboy, vec![9u8], 6, &dir, &atts);
    assert!(is_valid(&r3));
}

#[test]
fn membership_zero_attestations_is_invalid() {
    let v = Verifier::new(QuorumThreshold::Count { required: 1 });
    let dir = dir_one(5, set_of(&[1, 2, 3]));
    let atts: Vec<Attestation> = Vec::new();
    let r = v.verify(VerificationMode::ValidatorIn, vec![7u8, 8], 5, &dir, &atts);
    assert!(is_invalid(&r));
}

#[test]
fn membership_one_valid_attestation_is_valid() {
    let v = Verifier::new(QuorumThreshold::Count { required: 1 });
    let dir = dir_one(5, set_of(&[1, 2, 3]));
    let blob = vec![7u8, 8];
    let atts = vec![attest(2, &blob_digest(&blob), 5)];
    let r = v.verify(VerificationMode::ValidatorIn, blob.clone(), 5, &dir, &atts);
    match r {
        Ok(Verified::Valid(b)) => assert_eq!(b, blob),
        _ => panic!("one valid member attestation must accept"),
    }
}

#[test]
fn membership_nonmember_attestation_does_not_count() {
    let v = Verifier::new(QuorumThreshold::Count { required: 1 });
    let dir = dir_one(5, set_of(&[1, 2, 3]));
    let blob = vec![7u8, 8];
    let atts = vec![attest(9, &blob_digest(&blob), 5)];
    let r = v.verify(VerificationMode::ValidatorIn, blob, 5, &dir, &atts);
    assert!(is_invalid(&r));
}

#[test]
fn membership_nonmember_does_not_flip_a_valid_verdict() {
    let v = Verifier::new(QuorumThreshold::Count { required: 1 });
    let dir = dir_one(5, set_of(&[1, 2, 3]));
    let blob = vec![7u8, 8];
    let digest = blob_digest(&blob);
    let atts = vec![attest(2, &digest, 5), attest(9, &digest, 5)];
    let r = v.verify(VerificationMode::ValidatorIn, blob, 5, &dir, &atts);
    assert!(is_valid(&r));
}

#[test]
fn membership_wrong_digest_does_not_count() {
    let v = Verifier::new(QuorumThreshold::Count { required: 1 });
    let dir = dir_one(5, set_of(&[1, 2, 3]));
    let blob = vec![7u8, 8];
    let other_digest = blob_digest(&[9u8, 9]);
    let atts = vec![attest(2, &other_digest, 5)];
    let r = v.verify(VerificationMode::ValidatorIn, blob, 5, &dir, &atts);
    assert!(is_invalid(&r));
}

#[test]
fn membership_forged_signature_does_not_count() {
    let v = Verifier::new(QuorumThreshold::Count { required: 1 });
    let dir = dir_one(5, set_of(&[1, 2, 3]));
    let blob = vec![7u8, 8];
    // Signed by an outsider but claiming a member's identity.
    let mut a = attest(9, &blob_digest(&blob), 5);
    a.public_key = key(2).verifying_key().to_bytes().to_vec();
    let atts = vec![a];
    let r = v.verify(VerificationMode::ValidatorIn, blob, 5, &dir, &atts);
    assert!(is_invalid(&r));
}

#[test]
fn m_of_n_two_of_three_accepts() {
    let v = Verifier::new(QuorumThreshold::Count { required: 2 });
    let dir = dir_one(10, set_of(&[1, 2, 3]));
    let blob = vec![4u8, 5, 6];
    let digest = blob_digest(&blob);
    let atts = vec![attest(1, &digest, 10), attest(2, &digest, 10)];
    let r = v.verify(VerificationMode::MOfN, blob.clone(), 10, &dir, &atts);
    match r {
        Ok(Verified::Valid(b)) => assert_eq!(b, blob),
        _ => panic!("two distinct valid attestations must meet a 2-of-3 quorum"),
    }
}

#[test]
fn m_of_n_one_of_three_rejects() {
    let v = Verifier::new(QuorumThreshold::Count { required: 2 });
    let dir = dir_one(10, set_of(&[1, 2, 3]));
    let blob = vec![4u8, 5, 6];
    let atts = vec![attest(1, &blob_digest(&blob), 10)];
    let r = v.verify(VerificationMode::MOfN, blob, 10, &dir, &atts);
    assert!(is_invalid(&r));
}

#[test]
fn m_of_n_duplicate_attestations_do_not_double_count() {
    let v = Verifier::new(QuorumThreshold::Count { required: 2 });
    let dir = dir_one(10, set_of(&[1, 2, 3]));
    let blob = vec![4u8, 5, 6];
    let digest = blob_digest(&blob);
    // Two attestations from the same validator, one of them for another
    // digest as well: still a single vote.
    let atts = vec![
        attest(1, &digest, 10),
        attest(1, &digest, 10),
        attest(1, &blob_digest(&[0u8]), 10),
    ];
    let r = v.verify(VerificationMode::MOfN, blob, 10, &dir, &atts);
    assert!(is_invalid(&r));
}

#[test]
fn m_of_n_repeated_calls_agree() {
    let v = Verifier::new(QuorumThreshold::Count { required: 2 });
    let dir = dir_one(10, set_of(&[1, 2, 3]));
    let blob = vec![4u8, 5, 6];
    let digest = blob_digest(&blob);
    let atts = vec![attest(1, &digest, 10), attest(3, &digest, 10)];
    // The same frozen inputs, reused across independent calls: the verdict
    // never changes, and no call disturbs the directory or the list.
    let r1 = v.verify(VerificationMode::MOfN, blob.clone(), 10, &dir, &atts);
    let r2 = v.verify(VerificationMode::MOfN, blob.clone(), 10, &dir, &atts);
    assert!(is_valid(&r1));
    assert!(is_valid(&r2));
    let short = vec![attest(1, &digest, 10)];
    let r3 = v.verify(VerificationMode::MOfN, blob.clone(), 10, &dir, &short);
    let r4 = v.verify(VerificationMode::MOfN, blob, 10, &dir, &short);
    assert!(is_invalid(&r3));
    assert!(is_invalid(&r4));
}

#[test]
fn m_of_n_height_sensitivity() {
    let v = Verifier::new(QuorumThreshold::Count { required: 2 });
    let dir = ValidatorDirectory {
        entries: vec![
            DirectoryEntry {
                height: 10,
                set: set_of(&[1, 2, 3]),
            },
            DirectoryEntry {
                height: 20,
                set: set_of(&[4, 5, 6]),
            },
        ],
    };
    let blob = vec![4u8, 5, 6];
    let digest = blob_digest(&blob);
    // The signers sit in the set at height 10 but not in the one at 20.
    let atts = vec![
        attest(1, &digest, 10),
        attest(2, &digest, 10),
        attest(1, &digest, 20),
        attest(2, &digest, 20),
    ];
    let r1 = v.verify(VerificationMode::MOfN, blob.clone(), 10, &dir, &atts);
    let r2 = v.verify(VerificationMode::MOfN, blob, 20, &dir, &atts);
    assert!(is_valid(&r1));
    assert!(is_invalid(&r2));
}

#[test]
fn m_of_n_weight_fraction_two_thirds() {
    let v = Verifier::new(QuorumThreshold::WeightFraction {
        numerator: 2,
        denominator: 3,
    });
    let set = ValidatorSet {
        validators: vec![validator(1, 10), validator(2, 1), validator(3, 1)],
    };
    let dir = dir_one(10, set);
    let blob = vec![4u8, 5, 6];
    let digest = blob_digest(&blob);
    // Total power 12. The heavy validator alone carries 10 * 3 >= 12 * 2.
    let heavy = vec![attest(1, &digest, 10)];
    let r1 = v.verify(VerificationMode::MOfN, blob.clone(), 10, &dir, &heavy);
    assert!(is_valid(&r1));
    // The two light validators together carry only 2 * 3 < 12 * 2.
    let light = vec![attest(2, &digest, 10), attest(3, &digest, 10)];
    let r2 = v.verify(VerificationMode::MOfN, blob, 10, &dir, &light);
    assert!(is_invalid(&r2));
}

#[test]
fn m_of_n_exact_count_threshold() {
    let v = Verifier::new(QuorumThreshold::Count { required: 3 });
    let dir = dir_one(10, set_of(&[1, 2, 3]));
    let blob = vec![4u8];
    let digest = blob_digest(&blob);
    let two = vec![attest(1, &digest, 10), attest(2, &digest, 10)];
    assert!(is_invalid(&v.verify(
        VerificationMode::MOfN,
        blob.clone(),
        10,
        &dir,
        &two
    )));
    let three = vec![
        attest(1, &digest, 10),
        attest(2, &digest, 10),
        attest(3, &digest, 10),
    ];
    assert!(is_valid(&v.verify(VerificationMode::MOfN, blob, 10, &dir, &three)));
}
