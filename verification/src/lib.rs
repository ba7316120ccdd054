//! Consensus engine of a proof-of-work chain: proof encoding, difficulty
//! retargeting, header verification and the mining round state machine.

use crate::work::{BlockHeaderView, MineCtxView};
use async_std::channel::{Receiver, Sender};
use vstd::prelude::*;

pub mod algo;
pub mod channel;
pub mod consensus_impl;
pub mod cuckoo;
pub mod difficult;
pub mod digest;
pub mod dummy;
pub mod endian;
pub mod header;
pub mod mine_state;
pub mod numeric;
pub mod pow;
pub mod solution;
pub mod work;

pub use crate::algo::Algo;
pub use crate::header::set_header_nonce;
pub use crate::numeric::{u256_to_vec, H256, U256};
pub use crate::pow::VerifyError;
pub use crate::solution::Solution;
pub use crate::work::{BlockHeader, BlockInfo, MineCtx, Proof};

verus! {

/// Number of most recent blocks that the difficulty retargeting looks at.
pub const BLOCK_WINDOW: u32 = 24;

/// Planned time between two blocks, in seconds.
pub const BLOCK_TIME_SEC: u32 = 60;

/// Number of 64-bit lanes in a cycle proof.
pub const PROOF_SIZE: usize = 42;

/// Length in bytes of a cycle proof.
pub const CYCLE_LENGTH_U8: usize = 336;

/// A consensus header: it is read from bytes and written back to bytes.
pub trait ConsensusHeader: TryFrom<Vec<u8>> + Into<Vec<u8>> + core::marker::Unpin {

}

/// The rule by which a node accepts the header of a block.
pub trait Consensus {
    /// What the rule says of a header, given the most recent blocks of the
    /// chain that the header extends, newest first.
    spec fn verdict(window: Seq<BlockInfo>, header: BlockHeaderView) -> Result<(), VerifyError>;

    /// Judges `header` against the most recent blocks of its chain, newest
    /// first.
    fn verify_header(window: &[BlockInfo], header: &BlockHeader) -> (r: Result<(), VerifyError>)
        ensures
            r == Self::verdict(window@, header@),
    ;
}

/// The mining rounds of a node, one for each algorithm.
pub trait MineState: Send + Sync {
    /// The context that is out for `algo`, if a round is open.
    spec fn current_ctx(&self, algo: Algo) -> Option<MineCtxView>;

    /// The algorithm under which a round that names none is filed.
    spec fn round_algo(&self) -> Algo;

    /// Whether a solution is accepted for a context.
    spec fn accepts(&self, mine_ctx: MineCtxView, solution: Solution, nonce: u32) -> bool;

    /// The context that is out for `algo`, or `None` when no round is open.
    fn get_current_mine_ctx(&self, algo: Algo) -> (ctx: Option<MineCtx>)
        ensures
            match ctx {
                Some(c) => self.current_ctx(algo) == Some(c@),
                None => self.current_ctx(algo).is_none(),
            },
    ;

    /// Checks a solution against a context. The answer depends on the state
    /// and the arguments alone, and the state stays as it is: asking twice
    /// gives the same answer.
    fn mine_accept(&self, mine_ctx: &MineCtx, solution: Solution, nonce: u32) -> (ok: bool)
        ensures
            ok == self.accepts(mine_ctx@, solution, nonce),
    ;

    /// Opens a round for a header template and hands out the two ends of the
    /// channel on which its outcome will come. The rounds of the other
    /// algorithms stay as they are.
    fn mine_block(&mut self, header: Vec<u8>) -> (pair: (
        Receiver<Option<Proof>>,
        Sender<Option<Proof>>,
    ))
        ensures
            final(self).round_algo() == old(self).round_algo(),
            final(self).current_ctx(old(self).round_algo()) == Some(
                MineCtxView { header: header@, target: None, algo: None },
            ),
            forall|algo: Algo|
                algo != old(self).round_algo() ==> final(self).current_ctx(algo) == old(
                    self,
                ).current_ctx(algo),
    ;
}

} // verus!
