use vstd::prelude::*;

use crate::crypto::{digest_of, sha256_digest};
use crate::directory::{dir_lookup, lemma_lookup_finds_entry, DirectoryEntry, ValidatorDirectory};
use crate::tally::{
    any_member_attested, count_attested, lemma_duplicate_attestation_not_counted,
    lemma_nonmember_attestation_ignored, some_member_attested, tally_count, tally_weight,
    validator_attested, weight_attested,
};
use crate::types::{
    total_weight, Attestation, QuorumThreshold, Validator, ValidatorSet, VerificationError,
    VerificationMode, Verified,
};

verus! {

/// Whether the quorum rule is satisfied: enough distinct set members attest
/// to the digest, counted by head or by voting power. The weight rule
/// compares cross-products, so no division is involved and the rule is
/// total.
pub open spec fn quorum_met(
    q: QuorumThreshold,
    vals: Seq<Validator>,
    atts: Seq<Attestation>,
    digest: Seq<u8>,
    height: u64,
) -> bool {
    match q {
        QuorumThreshold::Count { required } => tally_count(vals, atts, digest, height)
            >= required as nat,
        QuorumThreshold::WeightFraction { numerator, denominator } => tally_weight(
            vals,
            atts,
            digest,
            height,
        ) * (denominator as nat) >= total_weight(vals) * (numerator as nat),
    }
}

/// The verdict accepted the blob.
pub open spec fn accepted<B>(r: Result<Verified<B>, VerificationError>) -> bool {
    r matches Ok(Verified::Valid(_))
}

/// The verdict rejected the blob (a definitive negative answer, not a
/// fault).
pub open spec fn rejected<B>(r: Result<Verified<B>, VerificationError>) -> bool {
    r matches Ok(Verified::Invalid)
}

/// What the Cowboy strategy must return: the blob accepted unchanged, with
/// no error and never an `Invalid` verdict.
pub open spec fn cowboy_post(blob: Seq<u8>, r: Result<Verified<Vec<u8>>, VerificationError>) -> bool {
    r matches Ok(Verified::Valid(b)) && b@ == blob
}

/// What the Validator-Membership strategy must return: `UnknownHeight`
/// where the directory has no set for the height; otherwise the blob
/// accepted exactly when some member of the height's set has a counting
/// attestation over the blob's digest, and rejected otherwise.
pub open spec fn membership_post(
    entries: Seq<DirectoryEntry>,
    atts: Seq<Attestation>,
    blob: Seq<u8>,
    height: u64,
    r: Result<Verified<Vec<u8>>, VerificationError>,
) -> bool {
    match dir_lookup(entries, height) {
        Option::None => r matches Err(VerificationError::UnknownHeight),
        Option::Some(set) => if some_member_attested(
            set.validators@,
            atts,
            digest_of(blob),
            height,
        ) {
            r matches Ok(Verified::Valid(b)) && b@ == blob
        } else {
            r matches Ok(Verified::Invalid)
        },
    }
}

/// What the M-of-N strategy must return: `UnknownHeight` where the
/// directory has no set for the height; otherwise the blob accepted exactly
/// when the configured quorum of the height's set attests to the blob's
/// digest, and rejected otherwise.
pub open spec fn m_of_n_post(
    q: QuorumThreshold,
    entries: Seq<DirectoryEntry>,
    atts: Seq<Attestation>,
    blob: Seq<u8>,
    height: u64,
    r: Result<Verified<Vec<u8>>, VerificationError>,
) -> bool {
    match dir_lookup(entries, height) {
        Option::None => r matches Err(VerificationError::UnknownHeight),
        Option::Some(set) => if quorum_met(q, set.validators@, atts, digest_of(blob), height) {
            r matches Ok(Verified::Valid(b)) && b@ == blob
        } else {
            r matches Ok(Verified::Invalid)
        },
    }
}

/// What a whole verification call must return: exactly what the strategy
/// selected by the mode returns, nothing rewrapped and nothing reinterpreted.
pub open spec fn verify_post(
    q: QuorumThreshold,
    mode: VerificationMode,
    entries: Seq<DirectoryEntry>,
    atts: Seq<Attestation>,
    blob: Seq<u8>,
    height: u64,
    r: Result<Verified<Vec<u8>>, VerificationError>,
) -> bool {
    match mode {
        VerificationMode::Cowboy => cowboy_post(blob, r),
        VerificationMode::ValidatorIn => membership_post(entries, atts, blob, height, r),
        VerificationMode::MOfN => m_of_n_post(q, entries, atts, blob, height, r),
    }
}

/// Two results agree as verdicts: both accept with the same payload, both
/// reject, or both fail with the same error.
pub open spec fn same_verdict(
    r1: Result<Verified<Vec<u8>>, VerificationError>,
    r2: Result<Verified<Vec<u8>>, VerificationError>,
) -> bool {
    match (r1, r2) {
        (Ok(Verified::Valid(b1)), Ok(Verified::Valid(b2))) => b1@ == b2@,
        (Ok(Verified::Invalid), Ok(Verified::Invalid)) => true,
        (Err(e1), Err(e2)) => e1 == e2,
        _ => false,
    }
}

/// Verification is deterministic: any two results that a verification call
/// may return for the same frozen inputs — the same mode, blob, height,
/// directory contents, attestation list and quorum rule — are the same
/// verdict.
pub proof fn lemma_verify_deterministic(
    q: QuorumThreshold,
    mode: VerificationMode,
    entries: Seq<DirectoryEntry>,
    atts: Seq<Attestation>,
    blob: Seq<u8>,
    height: u64,
    r1: Result<Verified<Vec<u8>>, VerificationError>,
    r2: Result<Verified<Vec<u8>>, VerificationError>,
)
    requires
        verify_post(q, mode, entries, atts, blob, height, r1),
        verify_post(q, mode, entries, atts, blob, height, r2),
    ensures
        same_verdict(r1, r2),
{
}

/// With no counting attestation from any member of the height's set, the
/// Validator-Membership strategy returns a definitive `Invalid` verdict,
/// not an error.
pub proof fn lemma_membership_no_attestor_rejects(
    entries: Seq<DirectoryEntry>,
    atts: Seq<Attestation>,
    blob: Seq<u8>,
    height: u64,
    set: ValidatorSet,
    r: Result<Verified<Vec<u8>>, VerificationError>,
)
    requires
        dir_lookup(entries, height) == Some(set),
        forall|i: int|
            #![trigger set.validators@[i]]
            0 <= i < set.validators@.len() ==> !validator_attested(
                set.validators@[i],
                atts,
                digest_of(blob),
                height,
            ),
        membership_post(entries, atts, blob, height, r),
    ensures
        rejected(r),
{
    if some_member_attested(set.validators@, atts, digest_of(blob), height) {
        let i = choose|i: int|
            0 <= i < set.validators@.len() && validator_attested(
                set.validators@[i],
                atts,
                digest_of(blob),
                height,
            );
        assert(!validator_attested(set.validators@[i], atts, digest_of(blob), height));
    }
}

/// With at least one counting attestation from a member of the height's
/// set, the Validator-Membership strategy accepts the blob.
pub proof fn lemma_membership_one_attestor_accepts(
    entries: Seq<DirectoryEntry>,
    atts: Seq<Attestation>,
    blob: Seq<u8>,
    height: u64,
    set: ValidatorSet,
    i: int,
    r: Result<Verified<Vec<u8>>, VerificationError>,
)
    requires
        dir_lookup(entries, height) == Some(set),
        0 <= i < set.validators@.len(),
        validator_attested(set.validators@[i], atts, digest_of(blob), height),
        membership_post(entries, atts, blob, height, r),
    ensures
        accepted(r),
{
    assert(some_member_attested(set.validators@, atts, digest_of(blob), height));
}

/// An attestation from an identity outside the height's validator set is
/// ignored by every strategy: with it appended, the membership outcome and
/// both quorum tallies read the same.
pub proof fn lemma_nonmember_attestation_no_effect(
    q: QuorumThreshold,
    set: ValidatorSet,
    atts: Seq<Attestation>,
    a: Attestation,
    digest: Seq<u8>,
    height: u64,
)
    requires
        forall|i: int|
            #![trigger set.validators@[i]]
            0 <= i < set.validators@.len() ==> set.validators@[i].public_key@ != a.public_key@,
    ensures
        some_member_attested(set.validators@, atts.push(a), digest, height)
            == some_member_attested(set.validators@, atts, digest, height),
        quorum_met(q, set.validators@, atts.push(a), digest, height) == quorum_met(
            q,
            set.validators@,
            atts,
            digest,
            height,
        ),
{
    lemma_nonmember_attestation_ignored(set.validators@, atts, a, digest, height);
}

/// A duplicate or conflicting attestation from an identity that already
/// holds a counting attestation never raises a quorum tally: one validator
/// is one vote, so appending it leaves the M-of-N decision unchanged.
pub proof fn lemma_duplicate_attestation_no_effect(
    q: QuorumThreshold,
    set: ValidatorSet,
    atts: Seq<Attestation>,
    a: Attestation,
    digest: Seq<u8>,
    height: u64,
)
    requires
        forall|i: int|
            #![trigger set.validators@[i]]
            0 <= i < set.validators@.len() && set.validators@[i].public_key@ == a.public_key@
                ==> validator_attested(set.validators@[i], atts, digest, height),
    ensures
        quorum_met(q, set.validators@, atts.push(a), digest, height) == quorum_met(
            q,
            set.validators@,
            atts,
            digest,
            height,
        ),
{
    lemma_duplicate_attestation_not_counted(set.validators@, atts, a, digest, height);
}

/// Height sensitivity: with the same blob and attestations, a height whose
/// set reaches the quorum accepts, and a height whose set does not reject
/// — the verdict follows the historical set, never a substituted one.
pub proof fn lemma_height_sensitivity(
    q: QuorumThreshold,
    entries: Seq<DirectoryEntry>,
    atts: Seq<Attestation>,
    blob: Seq<u8>,
    h1: u64,
    h2: u64,
    s1: ValidatorSet,
    s2: ValidatorSet,
    r1: Result<Verified<Vec<u8>>, VerificationError>,
    r2: Result<Verified<Vec<u8>>, VerificationError>,
)
    requires
        dir_lookup(entries, h1) == Some(s1),
        dir_lookup(entries, h2) == Some(s2),
        quorum_met(q, s1.validators@, atts, digest_of(blob), h1),
        !quorum_met(q, s2.validators@, atts, digest_of(blob), h2),
        m_of_n_post(q, entries, atts, blob, h1, r1),
        m_of_n_post(q, entries, atts, blob, h2, r2),
    ensures
        accepted(r1),
        rejected(r2),
{
}

/// The verification policy dispatcher: routes a request to one of the three
/// strategies. It holds only the M-of-N quorum configuration; every call is
/// a complete, independent transaction over the inputs it is handed.
pub struct Verifier {
    pub quorum: QuorumThreshold,
}

impl Verifier {
    /// A dispatcher with the given M-of-N quorum rule.
    pub fn new(quorum: QuorumThreshold) -> (r: Verifier)
        ensures
            r.quorum == quorum,
    {
        Verifier { quorum }
    }

    /// Route the request to the strategy the mode names and hand its answer
    /// back unchanged. Any mode other than `Cowboy` reports `UnknownHeight`
    /// where the directory has no set for the height.
    pub fn verify(
        &self,
        verification_mode: VerificationMode,
        blob: Vec<u8>,
        height: u64,
        directory: &ValidatorDirectory,
        attestations: &Vec<Attestation>,
    ) -> (r: Result<Verified<Vec<u8>>, VerificationError>)
        requires
            directory.wf(),
        ensures
            verify_post(
                self.quorum,
                verification_mode,
                directory.entries@,
                attestations@,
                blob@,
                height,
                r,
            ),
            verification_mode != VerificationMode::Cowboy && dir_lookup(
                directory.entries@,
                height,
            ) is None ==> r matches Err(VerificationError::UnknownHeight),
    {
        match verification_mode {
            VerificationMode::Cowboy => self.verify_cowboy(verification_mode, blob, height),
            VerificationMode::ValidatorIn => self.verifiy_validator_in(
                verification_mode,
                blob,
                height,
                directory,
                attestations,
            ),
            VerificationMode::MOfN => self.verify_m_of_n(
                verification_mode,
                blob,
                height,
                directory,
                attestations,
            ),
        }
    }

    /// Trust on receipt: accept the blob as it stands, at any height, with
    /// no cryptographic check. Never an `Invalid` verdict and never an
    /// error.
    pub fn verify_cowboy(
        &self,
        _verification_mode: VerificationMode,
        blob: Vec<u8>,
        _height: u64,
    ) -> (r: Result<Verified<Vec<u8>>, VerificationError>)
        ensures
            cowboy_post(blob@, r),
            accepted(r),
    {
        Ok(Verified::Valid(blob))
    }

    /// Accept the blob exactly when at least one member of the validator
    /// set at `height` has a counting attestation over the blob's digest.
    pub fn verifiy_validator_in(
        &self,
        _verification_mode: VerificationMode,
        blob: Vec<u8>,
        height: u64,
        directory: &ValidatorDirectory,
        attestations: &Vec<Attestation>,
    ) -> (r: Result<Verified<Vec<u8>>, VerificationError>)
        ensures
            membership_post(directory.entries@, attestations@, blob@, height, r),
            dir_lookup(directory.entries@, height) is None <==> r matches Err(
                VerificationError::UnknownHeight,
            ),
    {
        let set = match directory.validators_at(height) {
            Some(s) => s,
            None => {
                return Err(VerificationError::UnknownHeight);
            },
        };
        let digest = sha256_digest(&blob);
        if any_member_attested(set, attestations, &digest, height) {
            Ok(Verified::Valid(blob))
        } else {
            Ok(Verified::Invalid)
        }
    }

    /// Accept the blob exactly when the configured quorum of the validator
    /// set at `height` — counted by distinct heads or by voting power —
    /// attests to the blob's digest.
    pub fn verify_m_of_n(
        &self,
        _verification_mode: VerificationMode,
        blob: Vec<u8>,
        height: u64,
        directory: &ValidatorDirectory,
        attestations: &Vec<Attestation>,
    ) -> (r: Result<Verified<Vec<u8>>, VerificationError>)
        requires
            directory.wf(),
        ensures
            m_of_n_post(self.quorum, directory.entries@, attestations@, blob@, height, r),
            dir_lookup(directory.entries@, height) is None <==> r matches Err(
                VerificationError::UnknownHeight,
            ),
    {
        let set = match directory.validators_at(height) {
            Some(s) => s,
            None => {
                return Err(VerificationError::UnknownHeight);
            },
        };
        proof {
            lemma_lookup_finds_entry(directory.entries@, height);
            let i = choose|i: int|
                0 <= i < directory.entries@.len() && directory.entries@[i].height == height
                    && directory.entries@[i].set == *set;
            assert(directory.entries@[i].set.wf());
        }
        let digest = sha256_digest(&blob);
        let met: bool = match self.quorum {
            QuorumThreshold::Count { required } => {
                let tally = count_attested(set, attestations, &digest, height);
                tally as u64 >= required
            },
            QuorumThreshold::WeightFraction { numerator, denominator } => {
                let tally = weight_attested(set, attestations, &digest, height);
                let total = match set.checked_total_weight() {
                    Some(t) => t,
                    None => {
                        proof {
                            assert(false);
                        }
                        0
                    },
                };
                proof {
                    assert((tally as nat) * (denominator as nat) <= (u64::MAX as nat) * (
                    u64::MAX as nat)) by (nonlinear_arith)
                        requires
                            tally <= u64::MAX,
                            denominator <= u64::MAX,
                    ;
                    assert((total as nat) * (numerator as nat) <= (u64::MAX as nat) * (
                    u64::MAX as nat)) by (nonlinear_arith)
                        requires
                            total <= u64::MAX,
                            numerator <= u64::MAX,
                    ;
                }
                (tally as u128) * (denominator as u128) >= (total as u128) * (numerator as u128)
            },
        };
        if met {
            Ok(Verified::Valid(blob))
        } else {
            Ok(Verified::Invalid)
        }
    }
}

} // verus!
