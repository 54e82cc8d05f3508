use vstd::prelude::*;

verus! {

/// The little-endian byte rendering of a block height, used when an
/// attestation message is assembled.
pub open spec fn height_bytes(height: u64) -> Seq<u8> {
    seq![
        (height & 0xff) as u8,
        ((height >> 8) & 0xff) as u8,
        ((height >> 16) & 0xff) as u8,
        ((height >> 24) & 0xff) as u8,
        ((height >> 32) & 0xff) as u8,
        ((height >> 40) & 0xff) as u8,
        ((height >> 48) & 0xff) as u8,
        ((height >> 56) & 0xff) as u8,
    ]
}

/// The message a validator signs when it attests to a blob digest at a
/// height: the digest bytes followed by the height in little-endian form.
pub open spec fn attestation_message(digest: Seq<u8>, height: u64) -> Seq<u8> {
    digest + height_bytes(height)
}

/// Compare two byte vectors for equality of contents.
pub fn bytes_eq(a: &Vec<u8>, b: &Vec<u8>) -> (r: bool)
    ensures
        r == (a@ == b@),
{
    if a.len() != b.len() {
        return false;
    }
    let mut i: usize = 0;
    while i < a.len()
        invariant
            i <= a.len(),
            a.len() == b.len(),
            forall|k: int| 0 <= k < i ==> a@[k] == b@[k],
        decreases a.len() - i,
    {
        if a[i] != b[i] {
            return false;
        }
        i += 1;
    }
    proof {
        assert(a@ =~= b@);
    }
    true
}

/// Build the exact byte message that a validator is expected to have signed
/// for the given digest and height.
pub fn build_attestation_message(digest: &Vec<u8>, height: u64) -> (r: Vec<u8>)
    ensures
        r@ == attestation_message(digest@, height),
{
    let mut out: Vec<u8> = Vec::new();
    let mut i: usize = 0;
    while i < digest.len()
        invariant
            i <= digest.len(),
            out@ == digest@.take(i as int),
        decreases digest.len() - i,
    {
        out.push(digest[i]);
        i += 1;
    }
    proof {
        assert(out@ =~= digest@);
    }
    out.push((height & 0xff) as u8);
    out.push(((height >> 8) & 0xff) as u8);
    out.push(((height >> 16) & 0xff) as u8);
    out.push(((height >> 24) & 0xff) as u8);
    out.push(((height >> 32) & 0xff) as u8);
    out.push(((height >> 40) & 0xff) as u8);
    out.push(((height >> 48) & 0xff) as u8);
    out.push(((height >> 56) & 0xff) as u8);
    proof {
        assert(out@ =~= attestation_message(digest@, height));
    }
    out
}

} // verus!
