//! The digest at the heart of the encoder: a fast, well-distributed,
//! non-cryptographic hash (64-bit FNV-1a) over the concatenated identifier
//! material.

use vstd::prelude::*;

verus! {

/// The FNV-1a 64-bit offset basis.
pub const HASH_BASIS: u64 = 14695981039346656037;

/// The FNV-1a 64-bit prime.
pub const HASH_PRIME: u64 = 1099511628211;

/// One absorption step: xor the byte into the state, then multiply by the
/// prime modulo 2^64.
pub open spec fn hash_step(acc: u64, b: u8) -> u64 {
    (acc ^ (b as u64)).wrapping_mul(HASH_PRIME)
}

/// The state after absorbing the first `i` bytes of `s`.
pub open spec fn hash_prefix(s: Seq<u8>, i: int) -> u64
    decreases i,
{
    if i <= 0 {
        HASH_BASIS
    } else {
        hash_step(hash_prefix(s, i - 1), s[i - 1])
    }
}

/// The 64-bit FNV-1a digest of a byte sequence.
pub open spec fn spec_hash64(s: Seq<u8>) -> u64 {
    hash_prefix(s, s.len() as int)
}

/// Computes the FNV-1a digest of `data`.
pub fn hash64(data: &Vec<u8>) -> (r: u64)
    ensures
        r == spec_hash64(data@),
{
    let mut acc: u64 = HASH_BASIS;
    let mut i: usize = 0;
    while i < data.len()
        invariant
            i <= data@.len(),
            acc == hash_prefix(data@, i as int),
        decreases data@.len() - i,
    {
        acc = (acc ^ (data[i] as u64)).wrapping_mul(HASH_PRIME);
        i = i + 1;
    }
    acc
}

} // verus!
