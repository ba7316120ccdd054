//! The proof-of-work puzzle.
//!
//! A header and a nonce span a graph: its keys are the BLAKE2b digest of the
//! header patched with the nonce. The puzzle is solved by a cycle proof in
//! that graph whose work value is at most the target. The work value is
//! the BLAKE2b digest of the patched header followed by the bytes of the
//! proof, read as a little-endian number.

use crate::algo::Algo;
use crate::cuckoo::{is_cycle_proof, verify_cycle};
use crate::digest::{blake2b_256, blake2b_digest};
use crate::endian::{bytes_to_lanes, le_value, read_u64_into};
use crate::header::{set_header_nonce, with_nonce, NONCE_LENGTH};
use crate::numeric::{from_little_endian, H256, U256};
use crate::solution::Solution;
use crate::PROOF_SIZE;
use vstd::prelude::*;

verus! {

/// Why a header was not accepted.
#[derive(Copy, Clone, Debug, PartialEq, Eq, Structural)]
pub enum VerifyError {
    /// No block of the chain was at hand to compute the difficulty from.
    /// This says nothing about the header: it may verify later.
    ChainStateUnavailable,
    /// The header names an algorithm that the engine does not verify.
    UnsupportedAlgo,
    /// The target of the proof is easier than the chain asks for.
    InsufficientDifficulty,
    /// The proof does not solve the puzzle of the header.
    InvalidSolution,
}

impl VerifyError {
    /// Whether the header is rejected for good. The other case is a node
    /// that cannot judge the header yet.
    pub fn is_rejection(&self) -> (r: bool)
        ensures
            r == (*self != VerifyError::ChainStateUnavailable),
    {
        match self {
            VerifyError::ChainStateUnavailable => false,
            VerifyError::UnsupportedAlgo => true,
            VerifyError::InsufficientDifficulty => true,
            VerifyError::InvalidSolution => true,
        }
    }
}

/// The algorithms whose puzzle this engine verifies.
pub open spec fn algo_supported(algo: Algo) -> bool {
    algo == Algo::CUCKOO
}

/// The keys of the graph of a header and a nonce: the four little-endian
/// words of the digest of the patched header.
pub open spec fn puzzle_keys(header: Seq<u8>, nonce: u32) -> Seq<u64>
    recommends
        header.len() >= NONCE_LENGTH,
{
    bytes_to_lanes(blake2b_256(with_nonce(header, nonce)))
}

/// The bytes that are hashed for a header, a nonce and a cycle proof.
pub open spec fn puzzle_input(header: Seq<u8>, nonce: u32, solution: Solution) -> Seq<u8>
    recommends
        header.len() >= NONCE_LENGTH,
{
    with_nonce(header, nonce) + solution@
}

/// The number that a digest stands for when it is compared with a target.
pub open spec fn digest_value(digest: Seq<u8>) -> nat {
    le_value(digest)
}

/// The work value of a cycle proof for a header and a nonce.
pub open spec fn work_value(header: Seq<u8>, nonce: u32, solution: Solution) -> nat
    recommends
        header.len() >= NONCE_LENGTH,
{
    digest_value(blake2b_256(puzzle_input(header, nonce, solution)))
}

/// Whether the cycle proof solves the puzzle of the header and the nonce at
/// the given target: its lanes are a cycle in the graph of the header and
/// the nonce, and its work value is at most the target. A header too short
/// to hold a nonce has no solution.
pub open spec fn solves(header: Seq<u8>, nonce: u32, solution: Solution, target: nat) -> bool {
    &&& header.len() >= NONCE_LENGTH
    &&& is_cycle_proof(puzzle_keys(header, nonce), solution.lanes())
    &&& work_value(header, nonce, solution) <= target
}

/// The puzzle of a header does not depend on the nonce that the header
/// already holds: patching twice is patching once.
pub proof fn lemma_solves_patched(header: Seq<u8>, nonce: u32, solution: Solution, target: nat)
    requires
        header.len() >= NONCE_LENGTH,
    ensures
        with_nonce(with_nonce(header, nonce), nonce) == with_nonce(header, nonce),
        solves(with_nonce(header, nonce), nonce, solution, target) == solves(
            header,
            nonce,
            solution,
            target,
        ),
{
    crate::header::lemma_with_nonce(header, nonce);
    assert(with_nonce(with_nonce(header, nonce), nonce) =~= with_nonce(header, nonce));
}

/// Whether a puzzle digest is at most the target.
pub fn meets_target(digest: &H256, target: &U256) -> (ok: bool)
    ensures
        ok == (digest_value(digest@) <= target@),
{
    let value = from_little_endian(&digest.0);
    value.le(target)
}

/// The keys of the graph of a header and a nonce.
pub fn graph_keys(header: &[u8], nonce: u32) -> (keys: [u64; 4])
    requires
        header@.len() >= NONCE_LENGTH,
    ensures
        keys@ == puzzle_keys(header@, nonce),
{
    let patched = set_header_nonce(header, nonce);
    let digest = blake2b_digest(patched.as_slice());
    let mut keys = [0u64; 4];
    read_u64_into(&digest, &mut keys);
    keys
}

/// The puzzle digest of a header, a nonce and a cycle proof.
pub fn puzzle_digest(header: &[u8], nonce: u32, solution: &Solution) -> (digest: H256)
    requires
        header@.len() >= NONCE_LENGTH,
    ensures
        digest@ == blake2b_256(puzzle_input(header@, nonce, *solution)),
{
    let mut input = set_header_nonce(header, nonce);
    let mut proof_bytes: Vec<u8> = solution.clone().into();
    input.append(&mut proof_bytes);
    H256(blake2b_digest(input.as_slice()))
}

/// Whether the cycle proof solves the puzzle of the header and the nonce at
/// the given target.
pub fn verify_solution(header: &[u8], nonce: u32, solution: &Solution, target: &U256) -> (ok: bool)
    ensures
        ok == solves(header@, nonce, *solution, target@),
{
    if header.len() < NONCE_LENGTH {
        return false;
    }
    let keys = graph_keys(header, nonce);
    let edges: [u64; PROOF_SIZE] = solution.clone().into();
    if !verify_cycle(&keys, &edges) {
        return false;
    }
    let digest = puzzle_digest(header, nonce, solution);
    meets_target(&digest, target)
}

} // verus!
