//! The 256-bit BLAKE2b hash under which preimages are stored.

use vstd::prelude::*;

verus! {

/// The 32-byte BLAKE2b digest of `data` (BLAKE2b with a 32-byte output and
/// no key, as computed by `blake2b_simd`).
pub uninterp spec fn spec_blake2_256(data: Seq<u8>) -> [u8; 32];

/// Hashes `data` with `blake2b_simd::Params::hash`, the hash length set to
/// 32 bytes and no key.
///
/// Trusted: the result is claimed to be the named digest of the input bytes,
/// a function of those bytes alone.
#[verifier::external_body]
pub(crate) fn blake2_256(data: &[u8]) -> (r: [u8; 32])
    ensures
        r == spec_blake2_256(data@),
{
    let digest = blake2b_simd::Params::new().hash_length(32).hash(data);
    let mut out = [0u8; 32];
    out.copy_from_slice(digest.as_bytes());
    out
}

} // verus!
