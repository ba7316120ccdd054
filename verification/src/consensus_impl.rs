//! The consensus of a proof-of-work chain.

use crate::difficult::{get_next_work_required, next_target};
use crate::pow::{algo_supported, solves, verify_solution, VerifyError};
use crate::work::{BlockHeader, BlockHeaderView, BlockInfo};
use crate::{Algo, Consensus};
use vstd::prelude::*;

verus! {

/// The rule of a proof-of-work chain: a header is accepted when its proof
/// names a supported algorithm, claims a target at least as hard as the
/// chain asks for, and solves the puzzle of the header at that target.
#[derive(Copy, Clone, Debug, Default)]
pub struct PowConsensus;

impl Consensus for PowConsensus {
    /// The checks come in this order, and the first that fails names the
    /// error: blocks at hand, algorithm, difficulty, solution.
    open spec fn verdict(window: Seq<BlockInfo>, header: BlockHeaderView) -> Result<
        (),
        VerifyError,
    > {
        if window.len() == 0 {
            Err(VerifyError::ChainStateUnavailable)
        } else if !algo_supported(header.proof.algo) {
            Err(VerifyError::UnsupportedAlgo)
        } else if header.proof.target@ > next_target(window) {
            Err(VerifyError::InsufficientDifficulty)
        } else if !solves(
            header.bytes,
            header.proof.nonce,
            header.proof.solution,
            header.proof.target@,
        ) {
            Err(VerifyError::InvalidSolution)
        } else {
            Ok(())
        }
    }

    fn verify_header(window: &[BlockInfo], header: &BlockHeader) -> (r: Result<(), VerifyError>) {
        if window.len() == 0 {
            return Err(VerifyError::ChainStateUnavailable);
        }
        if header.proof.algo != Algo::CUCKOO {
            return Err(VerifyError::UnsupportedAlgo);
        }
        let required = get_next_work_required(window);
        if required.lt(&header.proof.target) {
            return Err(VerifyError::InsufficientDifficulty);
        }
        if !verify_solution(
            header.bytes.as_slice(),
            header.proof.nonce,
            &header.proof.solution,
            &header.proof.target,
        ) {
            return Err(VerifyError::InvalidSolution);
        }
        Ok(())
    }
}

} // verus!
