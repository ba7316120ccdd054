//! The BLAKE2b digest of 256 bits, computed by the `blake2_rfc` crate.

use vstd::prelude::*;

verus! {

/// The unkeyed BLAKE2b digest of 32 bytes of a byte string.
pub uninterp spec fn blake2b_256(data: Seq<u8>) -> Seq<u8>;

/// `blake2_rfc::blake2b::blake2b` with a digest length of 32 and no key: the
/// 32 bytes of the digest of `data`. The result depends on `data` alone.
#[verifier::external_body]
pub(crate) fn blake2b_digest(data: &[u8]) -> (digest: [u8; 32])
    ensures
        digest@ == blake2b_256(data@),
{
    let hash = blake2_rfc::blake2b::blake2b(32, &[], data);
    let mut digest = [0u8; 32];
    digest.copy_from_slice(hash.as_bytes());
    digest
}

} // verus!
