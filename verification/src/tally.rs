use vstd::prelude::*;

use crate::bytes::{attestation_message, build_attestation_message, bytes_eq};
use crate::crypto::{ed25519_verify, sig_ok};
use crate::types::{total_weight, Attestation, Validator, ValidatorSet};

verus! {

/// An attestation counts for a validator when it names that validator's
/// key, speaks of the digest under evaluation, and its signature verifies
/// under the validator's recorded key. An attestation from an identity
/// absent from the set matches no validator and so never counts.
pub open spec fn att_matches(att: Attestation, v: Validator, digest: Seq<u8>, height: u64) -> bool {
    &&& att.public_key@ == v.public_key@
    &&& att.digest@ == digest
    &&& sig_ok(v.public_key@, attestation_message(digest, height), att.signature@)
}

/// Whether some attestation in the sequence counts for the validator.
/// Several matching attestations from one validator still make this a
/// single fact: one validator contributes one vote.
pub open spec fn validator_attested(
    v: Validator,
    atts: Seq<Attestation>,
    digest: Seq<u8>,
    height: u64,
) -> bool {
    exists|i: int| 0 <= i < atts.len() && att_matches(atts[i], v, digest, height)
}

/// Whether at least one member of the validator sequence has a counting
/// attestation.
pub open spec fn some_member_attested(
    vals: Seq<Validator>,
    atts: Seq<Attestation>,
    digest: Seq<u8>,
    height: u64,
) -> bool {
    exists|i: int| 0 <= i < vals.len() && validator_attested(vals[i], atts, digest, height)
}

/// The number of distinct validators in the sequence with a counting
/// attestation. Each validator is examined once, so duplicate attestations
/// cannot raise the count.
pub open spec fn tally_count(
    vals: Seq<Validator>,
    atts: Seq<Attestation>,
    digest: Seq<u8>,
    height: u64,
) -> nat
    decreases vals.len(),
{
    if vals.len() == 0 {
        0
    } else {
        tally_count(vals.drop_last(), atts, digest, height) + if validator_attested(
            vals.last(),
            atts,
            digest,
            height,
        ) {
            1 as nat
        } else {
            0 as nat
        }
    }
}

/// The summed voting power of the distinct validators in the sequence with
/// a counting attestation.
pub open spec fn tally_weight(
    vals: Seq<Validator>,
    atts: Seq<Attestation>,
    digest: Seq<u8>,
    height: u64,
) -> nat
    decreases vals.len(),
{
    if vals.len() == 0 {
        0
    } else {
        tally_weight(vals.drop_last(), atts, digest, height) + if validator_attested(
            vals.last(),
            atts,
            digest,
            height,
        ) {
            vals.last().voting_power as nat
        } else {
            0 as nat
        }
    }
}

/// Decide whether one attestation counts for one validator.
pub fn attestation_matches(
    att: &Attestation,
    v: &Validator,
    digest: &Vec<u8>,
    height: u64,
) -> (r: bool)
    ensures
        r == att_matches(*att, *v, digest@, height),
{
    if !bytes_eq(&att.public_key, &v.public_key) {
        return false;
    }
    if !bytes_eq(&att.digest, digest) {
        return false;
    }
    let message = build_attestation_message(digest, height);
    ed25519_verify(&v.public_key, &message, &att.signature)
}

/// Decide whether some attestation in the list counts for the validator.
pub fn find_attestation(
    v: &Validator,
    atts: &Vec<Attestation>,
    digest: &Vec<u8>,
    height: u64,
) -> (r: bool)
    ensures
        r == validator_attested(*v, atts@, digest@, height),
{
    let n = atts.len();
    let mut j: usize = 0;
    while j < n
        invariant
            j <= n,
            n == atts@.len(),
            forall|k: int| 0 <= k < j ==> !att_matches(atts@[k], *v, digest@, height),
        decreases n - j,
    {
        if attestation_matches(&atts[j], v, digest, height) {
            proof {
                assert(att_matches(atts@[j as int], *v, digest@, height));
            }
            return true;
        }
        j += 1;
    }
    false
}

/// Decide whether at least one member of the set has a counting
/// attestation.
pub fn any_member_attested(
    set: &ValidatorSet,
    atts: &Vec<Attestation>,
    digest: &Vec<u8>,
    height: u64,
) -> (r: bool)
    ensures
        r == some_member_attested(set.validators@, atts@, digest@, height),
{
    let n = set.validators.len();
    let mut i: usize = 0;
    while i < n
        invariant
            i <= n,
            n == set.validators@.len(),
            forall|k: int|
                0 <= k < i ==> !validator_attested(set.validators@[k], atts@, digest@, height),
        decreases n - i,
    {
        if find_attestation(&set.validators[i], atts, digest, height) {
            proof {
                assert(validator_attested(set.validators@[i as int], atts@, digest@, height));
            }
            return true;
        }
        i += 1;
    }
    false
}

/// Count the distinct set members with a counting attestation.
pub fn count_attested(
    set: &ValidatorSet,
    atts: &Vec<Attestation>,
    digest: &Vec<u8>,
    height: u64,
) -> (r: usize)
    ensures
        r as nat == tally_count(set.validators@, atts@, digest@, height),
{
    let n = set.validators.len();
    let mut count: usize = 0;
    let mut i: usize = 0;
    while i < n
        invariant
            i <= n,
            n == set.validators@.len(),
            count <= i,
            count as nat == tally_count(set.validators@.take(i as int), atts@, digest@, height),
        decreases n - i,
    {
        proof {
            assert(set.validators@.take(i + 1).drop_last() =~= set.validators@.take(i as int));
            assert(set.validators@.take(i + 1).last() == set.validators@[i as int]);
        }
        if find_attestation(&set.validators[i], atts, digest, height) {
            count += 1;
        }
        i += 1;
    }
    proof {
        assert(set.validators@.take(n as int) =~= set.validators@);
    }
    count
}

/// Sum the voting power of the distinct set members with a counting
/// attestation. The set must be well-formed so that the sum fits the
/// 64-bit weight type.
pub fn weight_attested(
    set: &ValidatorSet,
    atts: &Vec<Attestation>,
    digest: &Vec<u8>,
    height: u64,
) -> (r: u64)
    requires
        set.wf(),
    ensures
        r as nat == tally_weight(set.validators@, atts@, digest@, height),
{
    let n = set.validators.len();
    let mut sum: u64 = 0;
    let mut i: usize = 0;
    while i < n
        invariant
            i <= n,
            n == set.validators@.len(),
            set.wf(),
            sum as nat == tally_weight(set.validators@.take(i as int), atts@, digest@, height),
        decreases n - i,
    {
        proof {
            assert(set.validators@.take(i + 1).drop_last() =~= set.validators@.take(i as int));
            assert(set.validators@.take(i + 1).last() == set.validators@[i as int]);
            lemma_tally_weight_le_total(set.validators@.take(i + 1), atts@, digest@, height);
            crate::types::lemma_total_weight_take_le(set.validators@, i + 1);
        }
        if find_attestation(&set.validators[i], atts, digest, height) {
            sum = sum + set.validators[i].voting_power;
        }
        i += 1;
    }
    proof {
        assert(set.validators@.take(n as int) =~= set.validators@);
    }
    sum
}

/// The attesting weight never exceeds the total weight of the sequence.
pub proof fn lemma_tally_weight_le_total(
    vals: Seq<Validator>,
    atts: Seq<Attestation>,
    digest: Seq<u8>,
    height: u64,
)
    ensures
        tally_weight(vals, atts, digest, height) <= total_weight(vals),
    decreases vals.len(),
{
    if vals.len() > 0 {
        lemma_tally_weight_le_total(vals.drop_last(), atts, digest, height);
    }
}

/// Appending one attestation leaves a validator's vote as it was, except
/// that an attestation that counts for the validator can turn it on.
pub proof fn lemma_attested_push(
    v: Validator,
    atts: Seq<Attestation>,
    a: Attestation,
    digest: Seq<u8>,
    height: u64,
)
    ensures
        validator_attested(v, atts.push(a), digest, height) == (validator_attested(
            v,
            atts,
            digest,
            height,
        ) || att_matches(a, v, digest, height)),
{
    if att_matches(a, v, digest, height) {
        assert(atts.push(a)[atts.len() as int] == a);
        assert(validator_attested(v, atts.push(a), digest, height));
    }
    if validator_attested(v, atts, digest, height) {
        let i = choose|i: int| 0 <= i < atts.len() && att_matches(atts[i], v, digest, height);
        assert(atts.push(a)[i] == atts[i]);
        assert(validator_attested(v, atts.push(a), digest, height));
    }
    if validator_attested(v, atts.push(a), digest, height) {
        let i = choose|i: int|
            0 <= i < atts.push(a).len() && att_matches(atts.push(a)[i], v, digest, height);
        if i < atts.len() {
            assert(atts.push(a)[i] == atts[i]);
            assert(validator_attested(v, atts, digest, height));
        } else {
            assert(atts.push(a)[i] == a);
            assert(att_matches(a, v, digest, height));
        }
    }
}

/// Appending an attestation from an identity whose every matching set
/// member has already attested changes neither tally: one validator never
/// contributes more than one vote, however many attestations it sends.
pub proof fn lemma_duplicate_attestation_not_counted(
    vals: Seq<Validator>,
    atts: Seq<Attestation>,
    a: Attestation,
    digest: Seq<u8>,
    height: u64,
)
    requires
        forall|i: int|
            #![trigger vals[i]]
            0 <= i < vals.len() && vals[i].public_key@ == a.public_key@
                ==> validator_attested(vals[i], atts, digest, height),
    ensures
        tally_count(vals, atts.push(a), digest, height) == tally_count(vals, atts, digest, height),
        tally_weight(vals, atts.push(a), digest, height) == tally_weight(
            vals,
            atts,
            digest,
            height,
        ),
    decreases vals.len(),
{
    if vals.len() > 0 {
        assert forall|i: int|
            #![trigger vals.drop_last()[i]]
            0 <= i < vals.drop_last().len() && vals.drop_last()[i].public_key@
                == a.public_key@ implies validator_attested(
            vals.drop_last()[i],
            atts,
            digest,
            height,
        ) by {
            assert(vals.drop_last()[i] == vals[i]);
        }
        lemma_duplicate_attestation_not_counted(vals.drop_last(), atts, a, digest, height);
        lemma_attested_push(vals.last(), atts, a, digest, height);
        if att_matches(a, vals.last(), digest, height) {
            assert(vals[vals.len() - 1] == vals.last());
            assert(validator_attested(vals.last(), atts, digest, height));
        }
    }
}

/// An attestation from an identity absent from the validator sequence is
/// ignored: appending it flips no membership verdict and moves no tally.
pub proof fn lemma_nonmember_attestation_ignored(
    vals: Seq<Validator>,
    atts: Seq<Attestation>,
    a: Attestation,
    digest: Seq<u8>,
    height: u64,
)
    requires
        forall|i: int|
            #![trigger vals[i]]
            0 <= i < vals.len() ==> vals[i].public_key@ != a.public_key@,
    ensures
        some_member_attested(vals, atts.push(a), digest, height) == some_member_attested(
            vals,
            atts,
            digest,
            height,
        ),
        tally_count(vals, atts.push(a), digest, height) == tally_count(vals, atts, digest, height),
        tally_weight(vals, atts.push(a), digest, height) == tally_weight(
            vals,
            atts,
            digest,
            height,
        ),
{
    if some_member_attested(vals, atts.push(a), digest, height) {
        let i = choose|i: int|
            0 <= i < vals.len() && validator_attested(vals[i], atts.push(a), digest, height);
        lemma_attested_push(vals[i], atts, a, digest, height);
        assert(validator_attested(vals[i], atts, digest, height));
    }
    if some_member_attested(vals, atts, digest, height) {
        let i = choose|i: int|
            0 <= i < vals.len() && validator_attested(vals[i], atts, digest, height);
        lemma_attested_push(vals[i], atts, a, digest, height);
        assert(validator_attested(vals[i], atts.push(a), digest, height));
    }
    lemma_duplicate_attestation_not_counted(vals, atts, a, digest, height);
}

} // verus!
