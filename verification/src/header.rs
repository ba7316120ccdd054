//! The byte layout of a block header: its last four bytes are the nonce,
//! least significant byte first.

use crate::endian::{le_bytes, lemma_le_bytes_len, write_u32};
use vstd::prelude::*;
use vstd::slice::slice_to_vec;

verus! {

/// Number of bytes at the end of a header that hold the nonce.
pub const NONCE_LENGTH: usize = 4;

/// The header with its last four bytes replaced by the nonce.
pub open spec fn with_nonce(header: Seq<u8>, nonce: u32) -> Seq<u8>
    recommends
        header.len() >= NONCE_LENGTH,
{
    header.subrange(0, header.len() - NONCE_LENGTH) + le_bytes(nonce as nat, 4)
}

/// Patching the nonce keeps the length of the header and every byte before
/// the nonce.
pub proof fn lemma_with_nonce(header: Seq<u8>, nonce: u32)
    requires
        header.len() >= NONCE_LENGTH,
    ensures
        with_nonce(header, nonce).len() == header.len(),
        forall|i: int| 0 <= i < header.len() - NONCE_LENGTH ==> with_nonce(header, nonce)[i] == header[i],
        with_nonce(header, nonce).subrange(header.len() - NONCE_LENGTH, header.len() as int)
            == le_bytes(nonce as nat, 4),
{
    lemma_le_bytes_len(nonce as nat, 4);
    assert(with_nonce(header, nonce).subrange(
        header.len() - NONCE_LENGTH,
        header.len() as int,
    ) =~= le_bytes(nonce as nat, 4));
}

/// A copy of `header` whose last four bytes hold `nonce`, least significant
/// byte first. The bytes before them and the length stay as they are.
pub fn set_header_nonce(header: &[u8], nonce: u32) -> (patched: Vec<u8>)
    requires
        header@.len() >= NONCE_LENGTH,
    ensures
        patched@ == with_nonce(header@, nonce),
        patched@.len() == header@.len(),
        forall|i: int| 0 <= i < header@.len() - NONCE_LENGTH ==> patched@[i] == header@[i],
{
    let len = header.len();
    let mut patched = slice_to_vec(header);
    patched.truncate(len - NONCE_LENGTH);
    write_u32(&mut patched, nonce);
    proof {
        lemma_with_nonce(header@, nonce);
    }
    patched
}

} // verus!
