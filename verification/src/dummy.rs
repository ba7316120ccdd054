//! The consensus of a test or private network: every header is accepted.

use crate::pow::VerifyError;
use crate::work::{BlockHeader, BlockHeaderView, BlockInfo};
use crate::Consensus;
use vstd::prelude::*;

verus! {

/// The rule that accepts every header.
#[derive(Copy, Clone, Debug, Default)]
pub struct DummyConsensus;

impl Consensus for DummyConsensus {
    open spec fn verdict(window: Seq<BlockInfo>, header: BlockHeaderView) -> Result<
        (),
        VerifyError,
    > {
        Ok(())
    }

    fn verify_header(window: &[BlockInfo], header: &BlockHeader) -> (r: Result<(), VerifyError>) {
        Ok(())
    }
}

} // verus!
