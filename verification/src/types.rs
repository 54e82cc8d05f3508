use vstd::prelude::*;

use crate::bytes::bytes_eq;

verus! {

/// The trust policy requested for one verification call.
#[derive(Clone, Copy, Debug, PartialEq, Eq, Structural)]
pub enum VerificationMode {
    /// Trust on receipt: no cryptographic check at all.
    Cowboy,
    /// At least one attestation from a member of the height's validator set.
    ValidatorIn,
    /// A quorum of the height's validator set attests to the same digest.
    MOfN,
}

/// A verified outcome: the input blob was accepted as a valid instance of
/// `B`, or it was rejected. A verdict is all-or-nothing per call.
pub enum Verified<B> {
    Valid(B),
    Invalid,
}

/// The failure cases of a verification call. Each is a fault, not a
/// verdict about the blob.
#[derive(Clone, Copy, Debug, PartialEq, Eq, Structural)]
pub enum VerificationError {
    /// The validator directory has no set for the requested height.
    UnknownHeight,
    /// A transient fault reaching the validator directory or the
    /// attestation source.
    SourceUnavailable,
    /// Attestation collection did not finish within the allotted window.
    Timeout,
    /// The blob could not be interpreted as the expected output type.
    DecodeError,
}

/// One validator identity: its Ed25519 public key and its voting power.
pub struct Validator {
    pub public_key: Vec<u8>,
    pub voting_power: u64,
}

/// A signed claim by a validator that it observed a specific blob digest at
/// a specific height.
pub struct Attestation {
    /// The public key of the validator that claims to have signed.
    pub public_key: Vec<u8>,
    /// The blob digest the attestation speaks of.
    pub digest: Vec<u8>,
    /// The Ed25519 signature over the attestation message.
    pub signature: Vec<u8>,
}

/// The sum of the voting powers of a sequence of validators.
pub open spec fn total_weight(vals: Seq<Validator>) -> nat
    decreases vals.len(),
{
    if vals.len() == 0 {
        0
    } else {
        total_weight(vals.drop_last()) + vals.last().voting_power as nat
    }
}

/// The validator set authoritative at some height.
pub struct ValidatorSet {
    pub validators: Vec<Validator>,
}

impl ValidatorSet {
    /// A well-formed set has pairwise distinct public keys, and its total
    /// voting power fits the 64-bit weight type.
    pub open spec fn wf(&self) -> bool {
        &&& forall|i: int, j: int|
            0 <= i < j < self.validators@.len() ==> self.validators@[i].public_key@
                != self.validators@[j].public_key@
        &&& total_weight(self.validators@) <= u64::MAX
    }

    /// Decide whether the set is well-formed.
    pub fn wf_check(&self) -> (r: bool)
        ensures
            r == self.wf(),
    {
        let n = self.validators.len();
        let mut i: usize = 0;
        while i < n
            invariant
                i <= n,
                n == self.validators@.len(),
                forall|p: int, q: int|
                    0 <= p < q < n && p < i ==> self.validators@[p].public_key@
                        != self.validators@[q].public_key@,
            decreases n - i,
        {
            let mut j: usize = i + 1;
            while j < n
                invariant
                    i < j <= n,
                    n == self.validators@.len(),
                    forall|q: int|
                        i < q < j ==> self.validators@[i as int].public_key@
                            != self.validators@[q].public_key@,
                decreases n - j,
            {
                if bytes_eq(&self.validators[i].public_key, &self.validators[j].public_key) {
                    return false;
                }
                j += 1;
            }
            i += 1;
        }
        match self.checked_total_weight() {
            Some(_) => true,
            None => false,
        }
    }

    /// The total voting power of the set, or `None` where the sum does not
    /// fit the 64-bit weight type.
    pub fn checked_total_weight(&self) -> (r: Option<u64>)
        ensures
            match r {
                Some(t) => t as nat == total_weight(self.validators@),
                None => total_weight(self.validators@) > u64::MAX,
            },
    {
        let n = self.validators.len();
        let mut sum: u64 = 0;
        let mut i: usize = 0;
        while i < n
            invariant
                i <= n,
                n == self.validators@.len(),
                sum as nat == total_weight(self.validators@.take(i as int)),
            decreases n - i,
        {
            proof {
                assert(self.validators@.take(i + 1).drop_last() =~= self.validators@.take(
                    i as int,
                ));
                assert(self.validators@.take(i + 1).last() == self.validators@[i as int]);
            }
            sum = match sum.checked_add(self.validators[i].voting_power) {
                Some(s) => s,
                None => {
                    proof {
                        lemma_total_weight_take_le(self.validators@, i + 1);
                    }
                    return None;
                },
            };
            i += 1;
        }
        proof {
            assert(self.validators@.take(n as int) =~= self.validators@);
        }
        Some(sum)
    }
}

/// The total weight of a prefix never exceeds the total weight of the whole
/// sequence.
pub proof fn lemma_total_weight_take_le(vals: Seq<Validator>, i: int)
    requires
        0 <= i <= vals.len(),
    ensures
        total_weight(vals.take(i)) <= total_weight(vals),
    decreases vals.len() - i,
{
    if i == vals.len() {
        assert(vals.take(i) =~= vals);
    } else {
        assert(vals.take(i + 1).drop_last() =~= vals.take(i));
        assert(vals.take(i + 1).last() == vals[i]);
        lemma_total_weight_take_le(vals, i + 1);
    }
}

/// The quorum rule for the M-of-N strategy: either a fixed count of distinct
/// attesting validators, or a fraction of the set's total voting power.
#[derive(Clone, Copy, Debug, PartialEq, Eq, Structural)]
pub enum QuorumThreshold {
    /// At least `required` distinct set members must attest.
    Count { required: u64 },
    /// The attesting members' voting power must reach
    /// `numerator`/`denominator` of the set's total voting power.
    WeightFraction { numerator: u64, denominator: u64 },
}

} // verus!
