//! The mining rounds of a proof-of-work node.
//!
//! Each algorithm has one round, which is idle, has a context out with a
//! miner, or is resolved by an accepted proof. A context that names no
//! algorithm or no target stands under the defaults of the node.

use crate::algo::Algo;
use crate::channel::{completion_channel, ROUND_OUTCOMES};
use crate::consensus_impl::PowConsensus;
use crate::difficult::next_target;
use crate::header::with_nonce;
use crate::numeric::U256;
use crate::pow::{algo_supported, lemma_solves_patched, solves, verify_solution};
use crate::solution::Solution;
use crate::work::{BlockHeaderView, BlockInfo, MineCtx, MineCtxView, Proof};
use crate::{Consensus, MineState};
use async_std::channel::{Receiver, Sender};
use vstd::prelude::*;

verus! {

/// The state of the round of one algorithm.
#[derive(Debug, PartialEq, Eq)]
pub enum Round {
    /// No context is out.
    Idle,
    /// A context is out with a miner.
    ContextIssued(MineCtx),
    /// A proof was accepted for the context that was out.
    Resolved(MineCtx, Proof),
}

/// The state of a round, with the header of its context as a sequence.
pub enum RoundView {
    Idle,
    ContextIssued(MineCtxView),
    Resolved(MineCtxView, Proof),
}

impl View for Round {
    type V = RoundView;

    open spec fn view(&self) -> RoundView {
        match self {
            Round::Idle => RoundView::Idle,
            Round::ContextIssued(ctx) => RoundView::ContextIssued(ctx@),
            Round::Resolved(ctx, proof) => RoundView::Resolved(ctx@, *proof),
        }
    }
}

impl Clone for Round {
    fn clone(&self) -> (r: Round)
        ensures
            r@ == self@,
    {
        match self {
            Round::Idle => Round::Idle,
            Round::ContextIssued(ctx) => Round::ContextIssued(ctx.clone()),
            Round::Resolved(ctx, proof) => Round::Resolved(ctx.clone(), proof.clone()),
        }
    }
}

/// The algorithm that a context stands under, given the default.
pub open spec fn algo_of(ctx: MineCtxView, default_algo: Algo) -> Algo {
    match ctx.algo {
        Some(algo) => algo,
        None => default_algo,
    }
}

/// The target that a context stands under, given the default.
pub open spec fn target_of(ctx: MineCtxView, default_target: U256) -> U256 {
    match ctx.target {
        Some(target) => target,
        None => default_target,
    }
}

/// The proof that a solution and a nonce make for a context.
pub open spec fn proof_of(
    ctx: MineCtxView,
    solution: Solution,
    nonce: u32,
    default_algo: Algo,
    default_target: U256,
) -> Proof {
    Proof {
        solution,
        nonce,
        algo: algo_of(ctx, default_algo),
        target: target_of(ctx, default_target),
    }
}

/// What holds of the round of `algo` at all times: its context stands under
/// `algo`, and a proof that resolved it is the proof of a solution that
/// solves the puzzle of that context.
pub open spec fn round_sound(
    round: RoundView,
    algo: Algo,
    default_algo: Algo,
    default_target: U256,
) -> bool {
    match round {
        RoundView::Idle => true,
        RoundView::ContextIssued(ctx) => algo_of(ctx, default_algo) == algo,
        RoundView::Resolved(ctx, proof) => {
            &&& algo_of(ctx, default_algo) == algo
            &&& algo_supported(algo)
            &&& proof == proof_of(ctx, proof.solution, proof.nonce, default_algo, default_target)
            &&& solves(ctx.header, proof.nonce, proof.solution, proof.target@)
        },
    }
}

/// The mining rounds of a proof-of-work node.
#[derive(Debug)]
pub struct PowMineState {
    default_algo: Algo,
    default_target: U256,
    cuckoo: Round,
    scrypt: Round,
}

impl PowMineState {
    #[verifier::type_invariant]
    spec fn sound(self) -> bool {
        &&& round_sound(self.cuckoo@, Algo::CUCKOO, self.default_algo, self.default_target)
        &&& round_sound(self.scrypt@, Algo::SCRYPT, self.default_algo, self.default_target)
    }

    /// The algorithm of a context that names none.
    pub closed spec fn default_algo(&self) -> Algo {
        self.default_algo
    }

    /// The target of a context that names none.
    pub closed spec fn default_target(&self) -> U256 {
        self.default_target
    }

    /// The round of an algorithm.
    pub closed spec fn round(&self, algo: Algo) -> RoundView {
        match algo {
            Algo::CUCKOO => self.cuckoo@,
            Algo::SCRYPT => self.scrypt@,
        }
    }

    /// The rounds of two states are those of the same node when the defaults
    /// agree and only the round of `algo` may differ.
    pub open spec fn same_but(&self, other: &PowMineState, algo: Algo) -> bool {
        &&& self.default_algo() == other.default_algo()
        &&& self.default_target() == other.default_target()
        &&& forall|a: Algo| a != algo ==> self.round(a) == other.round(a)
    }

    /// A node with the given defaults and no round open.
    pub fn new(default_algo: Algo, default_target: U256) -> (state: PowMineState)
        ensures
            state.default_algo() == default_algo,
            state.default_target() == default_target,
            forall|algo: Algo| state.round(algo) == RoundView::Idle,
    {
        PowMineState { default_algo, default_target, cuckoo: Round::Idle, scrypt: Round::Idle }
    }

    /// The round of `algo`, which is sound.
    pub fn round_state(&self, algo: Algo) -> (round: Round)
        ensures
            round@ == self.round(algo),
            round_sound(round@, algo, self.default_algo(), self.default_target()),
    {
        proof {
            use_type_invariant(self);
        }
        match algo {
            Algo::CUCKOO => self.cuckoo.clone(),
            Algo::SCRYPT => self.scrypt.clone(),
        }
    }

    /// Opens a round with the given context, under the algorithm that the
    /// context names or the default. What that round held before is gone.
    pub fn start_round(&mut self, ctx: MineCtx)
        ensures
            final(self).round(algo_of(ctx@, old(self).default_algo())) == RoundView::ContextIssued(
                ctx@,
            ),
            final(self).same_but(old(self), algo_of(ctx@, old(self).default_algo())),
    {
        proof {
            use_type_invariant(&*self);
        }
        let algo = match ctx.algo {
            Some(algo) => algo,
            None => self.default_algo,
        };
        match algo {
            Algo::CUCKOO => {
                self.cuckoo = Round::ContextIssued(ctx);
            },
            Algo::SCRYPT => {
                self.scrypt = Round::ContextIssued(ctx);
            },
        }
    }

    /// Gives up the round of `algo`: no context is out for it afterwards.
    pub fn abandon(&mut self, algo: Algo)
        ensures
            final(self).round(algo) == RoundView::Idle,
            final(self).same_but(old(self), algo),
    {
        proof {
            use_type_invariant(&*self);
        }
        match algo {
            Algo::CUCKOO => {
                self.cuckoo = Round::Idle;
            },
            Algo::SCRYPT => {
                self.scrypt = Round::Idle;
            },
        }
    }

    /// Takes a solution for a context. Where `mine_accept` accepts it, the
    /// round of the context is resolved and the proof is returned, to be
    /// sent to whoever waits for the round. Otherwise nothing changes.
    pub fn resolve(&mut self, mine_ctx: &MineCtx, solution: Solution, nonce: u32) -> (found: Option<
        Proof,
    >)
        ensures
            found.is_some() == old(self).accepts(mine_ctx@, solution, nonce),
            match found {
                Some(proof) => {
                    &&& proof == proof_of(
                        mine_ctx@,
                        solution,
                        nonce,
                        old(self).default_algo(),
                        old(self).default_target(),
                    )
                    &&& final(self).round(proof.algo) == RoundView::Resolved(mine_ctx@, proof)
                    &&& final(self).same_but(old(self), proof.algo)
                },
                None => *final(self) == *old(self),
            },
    {
        proof {
            use_type_invariant(&*self);
        }
        if !self.mine_accept(mine_ctx, solution.clone(), nonce) {
            return None;
        }
        let algo = match mine_ctx.algo {
            Some(algo) => algo,
            None => self.default_algo,
        };
        let target = match mine_ctx.target {
            Some(target) => target,
            None => self.default_target,
        };
        let proof = Proof { solution, nonce, algo, target };
        let resolved = Round::Resolved(mine_ctx.clone(), proof.clone());
        match algo {
            Algo::CUCKOO => {
                self.cuckoo = resolved;
            },
            Algo::SCRYPT => {
                self.scrypt = resolved;
            },
        }
        Some(proof)
    }

    /// Whether a solution is accepted depends on what the context says, not
    /// on which copy of it is shown: two calls with equal arguments on the
    /// same state answer alike.
    pub proof fn lemma_accepts_alike(
        &self,
        first: MineCtx,
        second: MineCtx,
        solution: Solution,
        nonce: u32,
    )
        requires
            first@ == second@,
        ensures
            self.accepts(first@, solution, nonce) == self.accepts(second@, solution, nonce),
    {
    }

    /// A solution that is accepted for a context makes a proof that the
    /// proof-of-work consensus accepts in a header with the bytes of the
    /// context, patched with the nonce or not, wherever the chain asks for a
    /// target that the context's target meets.
    pub proof fn lemma_accepted_proof_verifies(
        &self,
        mine_ctx: MineCtxView,
        solution: Solution,
        nonce: u32,
        window: Seq<BlockInfo>,
    )
        requires
            self.accepts(mine_ctx, solution, nonce),
            window.len() > 0,
            target_of(mine_ctx, self.default_target())@ <= next_target(window),
        ensures
            ({
                let proof = proof_of(
                    mine_ctx,
                    solution,
                    nonce,
                    self.default_algo(),
                    self.default_target(),
                );
                let template = (BlockHeaderView { bytes: mine_ctx.header, proof });
                let patched = (BlockHeaderView { bytes: with_nonce(mine_ctx.header, nonce), proof });
                PowConsensus::verdict(window, template) is Ok && PowConsensus::verdict(
                    window,
                    patched,
                ) is Ok
            }),
    {
        lemma_solves_patched(
            mine_ctx.header,
            nonce,
            solution,
            target_of(mine_ctx, self.default_target())@,
        );
    }
}

impl MineState for PowMineState {
    open spec fn current_ctx(&self, algo: Algo) -> Option<MineCtxView> {
        match self.round(algo) {
            RoundView::ContextIssued(ctx) => Some(ctx),
            _ => None,
        }
    }

    open spec fn round_algo(&self) -> Algo {
        self.default_algo()
    }

    /// A solution is accepted for a context that is out, under a supported
    /// algorithm, when it solves the puzzle of the context's header at the
    /// context's target.
    open spec fn accepts(&self, mine_ctx: MineCtxView, solution: Solution, nonce: u32) -> bool {
        &&& self.current_ctx(algo_of(mine_ctx, self.default_algo())) == Some(mine_ctx)
        &&& algo_supported(algo_of(mine_ctx, self.default_algo()))
        &&& solves(
            mine_ctx.header,
            nonce,
            solution,
            target_of(mine_ctx, self.default_target())@,
        )
    }

    fn get_current_mine_ctx(&self, algo: Algo) -> (ctx: Option<MineCtx>) {
        let round = match algo {
            Algo::CUCKOO => &self.cuckoo,
            Algo::SCRYPT => &self.scrypt,
        };
        match round {
            Round::ContextIssued(ctx) => Some(ctx.clone()),
            _ => None,
        }
    }

    fn mine_accept(&self, mine_ctx: &MineCtx, solution: Solution, nonce: u32) -> (ok: bool) {
        let algo = match mine_ctx.algo {
            Some(algo) => algo,
            None => self.default_algo,
        };
        let target = match mine_ctx.target {
            Some(target) => target,
            None => self.default_target,
        };
        let round = match algo {
            Algo::CUCKOO => &self.cuckoo,
            Algo::SCRYPT => &self.scrypt,
        };
        let known = match round {
            Round::ContextIssued(ctx) => *ctx == *mine_ctx,
            _ => false,
        };
        if !known || algo != Algo::CUCKOO {
            return false;
        }
        verify_solution(mine_ctx.header.as_slice(), nonce, &solution, &target)
    }

    /// The round is opened under the default algorithm and with the default
    /// target. The channel is new: nothing has been sent on it.
    fn mine_block(&mut self, header: Vec<u8>) -> (pair: (
        Receiver<Option<Proof>>,
        Sender<Option<Proof>>,
    ))
        ensures
            final(self).round(old(self).default_algo()) == RoundView::ContextIssued(
                MineCtxView { header: header@, target: None, algo: None },
            ),
            final(self).same_but(old(self), old(self).default_algo()),
    {
        self.start_round(MineCtx { header, target: None, algo: None });
        completion_channel(ROUND_OUTCOMES)
    }
}

} // verus!
