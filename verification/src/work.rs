//! The values that mining and verification pass around: a claimed proof of
//! work, the context that a miner works against, and what a block shows of
//! itself to the difficulty and verification rules.

use crate::algo::Algo;
use crate::numeric::{u256_max, U256};
use crate::solution::Solution;
use crate::CYCLE_LENGTH_U8;
use vstd::prelude::*;
use vstd::std_specs::cmp::PartialEqSpecImpl;

verus! {

/// A completed unit of work for one mining context.
#[derive(Debug)]
pub struct Proof {
    pub solution: Solution,
    pub nonce: u32,
    pub algo: Algo,
    pub target: U256,
}

impl Clone for Proof {
    fn clone(&self) -> (r: Proof)
        ensures
            r == *self,
    {
        Proof {
            solution: self.solution.clone(),
            nonce: self.nonce,
            algo: self.algo,
            target: self.target,
        }
    }
}

impl Default for Proof {
    /// The placeholder proof: `CUCKOO`, nonce 0, a solution of zero bytes and
    /// the largest target.
    fn default() -> (r: Proof)
        ensures
            r.solution@ == Seq::new(CYCLE_LENGTH_U8 as nat, |i: int| 0u8),
            r.nonce == 0,
            r.algo == Algo::CUCKOO,
            r.target@ == u256_max(),
    {
        Proof {
            solution: Solution::default(),
            nonce: 0,
            algo: Algo::CUCKOO,
            target: U256::max_value(),
        }
    }
}

impl PartialEq for Proof {
    fn eq(&self, other: &Proof) -> (r: bool) {
        proof {
            self.solution.lemma_bytes(other.solution);
            self.target.lemma_view(other.target);
        }
        self.solution == other.solution && self.nonce == other.nonce && self.algo == other.algo
            && self.target == other.target
    }
}

impl PartialEqSpecImpl for Proof {
    open spec fn obeys_eq_spec() -> bool {
        true
    }

    open spec fn eq_spec(&self, other: &Proof) -> bool {
        *self == *other
    }
}

impl Eq for Proof {

}

/// What a mining context says, with its header as a sequence of bytes.
pub struct MineCtxView {
    pub header: Seq<u8>,
    pub target: Option<U256>,
    pub algo: Option<Algo>,
}

/// The puzzle of one mining round: a header template whose last four bytes
/// wait for a nonce, with a target and an algorithm. A target or algorithm
/// that is absent stands for the default of the engine.
#[derive(Debug)]
pub struct MineCtx {
    pub header: Vec<u8>,
    pub target: Option<U256>,
    pub algo: Option<Algo>,
}

impl View for MineCtx {
    type V = MineCtxView;

    open spec fn view(&self) -> MineCtxView {
        MineCtxView { header: self.header@, target: self.target, algo: self.algo }
    }
}

impl Clone for MineCtx {
    fn clone(&self) -> (r: MineCtx)
        ensures
            r@ == self@,
    {
        MineCtx { header: self.header.clone(), target: self.target, algo: self.algo }
    }
}

impl PartialEq for MineCtx {
    fn eq(&self, other: &MineCtx) -> (r: bool) {
        let same_header = self.header == other.header;
        assert(same_header == (self.header@ =~= other.header@));
        let same_target = match (self.target, other.target) {
            (Some(a), Some(b)) => {
                proof {
                    a.lemma_view(b);
                }
                a == b
            },
            (None, None) => true,
            _ => false,
        };
        let same_algo = match (self.algo, other.algo) {
            (Some(a), Some(b)) => a == b,
            (None, None) => true,
            _ => false,
        };
        same_header && same_target && same_algo
    }
}

impl PartialEqSpecImpl for MineCtx {
    open spec fn obeys_eq_spec() -> bool {
        true
    }

    open spec fn eq_spec(&self, other: &MineCtx) -> bool {
        self@ == other@
    }
}

impl Eq for MineCtx {

}

/// What the difficulty rule reads of a block: when it was made and the
/// target that it was mined against.
#[derive(Copy, Clone, Debug, PartialEq, Eq)]
pub struct BlockInfo {
    pub timestamp: u64,
    pub target: U256,
}

/// What a block header says, with its bytes as a sequence.
pub struct BlockHeaderView {
    pub bytes: Seq<u8>,
    pub proof: Proof,
}

/// What verification reads of a block header: its serialized bytes, whose
/// last four are the nonce, and the proof of work that it carries.
#[derive(Debug, PartialEq, Eq)]
pub struct BlockHeader {
    pub bytes: Vec<u8>,
    pub proof: Proof,
}

impl View for BlockHeader {
    type V = BlockHeaderView;

    open spec fn view(&self) -> BlockHeaderView {
        BlockHeaderView { bytes: self.bytes@, proof: self.proof }
    }
}

} // verus!
