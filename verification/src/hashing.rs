use vstd::prelude::*;

verus! {

/// The SHA-256 digest of a byte sequence, left uninterpreted: the digest is a
/// function of the input bytes alone, and nothing else is assumed of it
/// beyond its 32-byte length (stated where the hash is computed).
pub uninterp spec fn sha256_of(bytes: Seq<u8>) -> Seq<u8>;

/// The ASCII bytes of the fixed preimage string `"anchor:idl"` whose hash
/// tags an IDL record.
pub open spec fn idl_preimage() -> Seq<u8> {
    seq![97u8, 110u8, 99u8, 104u8, 111u8, 114u8, 58u8, 105u8, 100u8, 108u8]
}

/// The expected 8-byte discriminator of an IDL record: the first 8 bytes of
/// the SHA-256 digest of the fixed preimage.
pub open spec fn spec_idl_discriminator() -> Seq<u8> {
    Seq::new(8, |i: int| sha256_of(idl_preimage())[i])
}

/// Relies on `solana_sdk::hash::hash`: returns the SHA-256 digest of the
/// input, a 32-byte value determined by the input bytes alone.
#[verifier::external_body]
fn sha256(bytes: &Vec<u8>) -> (r: Vec<u8>)
    ensures
        r@ == sha256_of(bytes@),
        r@.len() == 32,
{
    solana_sdk::hash::hash(bytes.as_slice()).to_bytes().to_vec()
}

/// Computes the 8-byte discriminator that marks an account as an IDL record:
/// the first 8 bytes of the SHA-256 digest of the ASCII preimage
/// `"anchor:idl"`.
pub fn idl_discriminator() -> (r: Vec<u8>)
    ensures
        r@ == spec_idl_discriminator(),
        r@.len() == 8,
{
    let mut pre: Vec<u8> = Vec::new();
    pre.push(97);
    pre.push(110);
    pre.push(99);
    pre.push(104);
    pre.push(111);
    pre.push(114);
    pre.push(58);
    pre.push(105);
    pre.push(100);
    pre.push(108);
    proof {
        assert(pre@ =~= idl_preimage());
    }
    let digest = sha256(&pre);
    let mut disc: Vec<u8> = Vec::new();
    let mut i: usize = 0;
    while i < 8
        invariant
            i <= 8,
            digest@ == sha256_of(idl_preimage()),
            digest@.len() == 32,
            disc@.len() == i,
            forall|j: int| 0 <= j < i ==> disc@[j] == sha256_of(idl_preimage())[j],
        decreases 8 - i,
    {
        let b = digest[i];
        disc.push(b);
        i = i + 1;
    }
    proof {
        assert(disc@ =~= spec_idl_discriminator());
    }
    disc
}

} // verus!
