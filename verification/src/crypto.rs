use vstd::prelude::*;

verus! {

/// The SHA-256 digest of a byte sequence. The digest is a function of the
/// input bytes alone; its value is not given here, only used as a name.
pub uninterp spec fn digest_of(bytes: Seq<u8>) -> Seq<u8>;

/// Whether an Ed25519 signature over a message verifies under a public key.
/// Verification is a function of the three byte strings alone.
pub uninterp spec fn sig_ok(public_key: Seq<u8>, message: Seq<u8>, signature: Seq<u8>) -> bool;

/// Relies on sha2::Sha256 (via sha2::Digest::digest): the digest is 32 bytes
/// and depends on the input bytes alone.
#[verifier::external_body]
pub(crate) fn sha256_digest(bytes: &Vec<u8>) -> (r: Vec<u8>)
    ensures
        r@ == digest_of(bytes@),
        r@.len() == 32,
{
    <sha2::Sha256 as sha2::Digest>::digest(bytes.as_slice()).to_vec()
}

/// Relies on ed25519_dalek::VerifyingKey::verify_strict: acceptance is a
/// deterministic function of key, message and signature bytes; a key or
/// signature of the wrong length parses under no byte string, so the call
/// reports false for it.
#[verifier::external_body]
pub(crate) fn ed25519_verify(public_key: &Vec<u8>, message: &Vec<u8>, signature: &Vec<u8>) -> (r: bool)
    ensures
        r == sig_ok(public_key@, message@, signature@),
{
    let key = match ed25519_dalek::VerifyingKey::try_from(public_key.as_slice()) {
        Ok(k) => k,
        Err(_) => return false,
    };
    let sig = match ed25519_dalek::Signature::try_from(signature.as_slice()) {
        Ok(s) => s,
        Err(_) => return false,
    };
    key.verify_strict(message.as_slice(), &sig).is_ok()
}

} // verus!
