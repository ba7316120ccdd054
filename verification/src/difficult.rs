//! Difficulty retargeting: the target of the next block, from the times and
//! targets of the most recent blocks.
//!
//! A window lists blocks from the newest to the oldest. The next target is
//! the mean target of the window scaled by the ratio of the observed time
//! between blocks to the planned one, and kept within a factor of two of
//! that mean. The scaling rounds towards the side it moves to: down for
//! blocks that came at least as fast as planned, up for blocks that came
//! slower. A lower target is a harder puzzle.

use crate::numeric::{checked_add, checked_mul, div_mod, u256_max, U256};
use crate::work::BlockInfo;
use crate::{BLOCK_TIME_SEC, BLOCK_WINDOW};
use vstd::prelude::*;

verus! {

/// The most that one retargeting multiplies or divides the mean target by.
pub const MAX_ADJUST_FACTOR: u64 = 2;

/// The target of a chain that has no full window of blocks yet: the largest
/// one, which every proof meets.
pub open spec fn genesis_target() -> nat {
    u256_max()
}

/// The sum of the first `n` targets of the window.
pub open spec fn target_sum(window: Seq<BlockInfo>, n: nat) -> nat
    decreases n,
{
    if n == 0 {
        0
    } else {
        target_sum(window, (n - 1) as nat) + window[n - 1].target@
    }
}

/// The mean target of the `BLOCK_WINDOW` newest blocks, rounded down.
pub open spec fn mean_target(window: Seq<BlockInfo>) -> nat
    recommends
        window.len() >= BLOCK_WINDOW,
{
    target_sum(window, BLOCK_WINDOW as nat) / (BLOCK_WINDOW as nat)
}

/// The mean time between two blocks of the `BLOCK_WINDOW` newest ones, in
/// seconds, rounded down. A window whose newest block claims to be older
/// than its oldest one counts as no time at all.
pub open spec fn mean_spacing(window: Seq<BlockInfo>) -> nat
    recommends
        window.len() >= BLOCK_WINDOW,
{
    let newest = window[0].timestamp;
    let oldest = window[BLOCK_WINDOW - 1].timestamp;
    if newest >= oldest {
        ((newest - oldest) / (BLOCK_WINDOW - 1)) as nat
    } else {
        0
    }
}

/// The smallest target that a retargeting from `mean` may give.
pub open spec fn floor_target(mean: nat) -> nat {
    mean / (MAX_ADJUST_FACTOR as nat)
}

/// The largest target that a retargeting from `mean` may give.
pub open spec fn ceiling_target(mean: nat) -> nat {
    if mean * (MAX_ADJUST_FACTOR as nat) <= u256_max() {
        mean * (MAX_ADJUST_FACTOR as nat)
    } else {
        u256_max()
    }
}

/// The mean target times observed over planned spacing. The quotient is
/// rounded up where the blocks came slower than planned, so that the target
/// rises, and down otherwise.
pub open spec fn scaled_target(mean: nat, spacing: nat) -> nat {
    if spacing > BLOCK_TIME_SEC {
        (mean * spacing + (BLOCK_TIME_SEC - 1)) as nat / (BLOCK_TIME_SEC as nat)
    } else {
        mean * spacing / (BLOCK_TIME_SEC as nat)
    }
}

/// The scaled target, kept between `floor_target` and `ceiling_target`.
pub open spec fn retarget(mean: nat, spacing: nat) -> nat {
    let scaled = scaled_target(mean, spacing);
    if scaled < floor_target(mean) {
        floor_target(mean)
    } else if scaled > ceiling_target(mean) {
        ceiling_target(mean)
    } else {
        scaled
    }
}

/// The target of the block that follows the window.
pub open spec fn next_target(window: Seq<BlockInfo>) -> nat {
    if window.len() < BLOCK_WINDOW {
        genesis_target()
    } else {
        retarget(mean_target(window), mean_spacing(window))
    }
}

/// Each block of the window is `spacing` seconds younger than the one before it.
pub open spec fn evenly_spaced(window: Seq<BlockInfo>, spacing: nat) -> bool {
    forall|i: int|
        0 <= i < BLOCK_WINDOW - 1 ==> #[trigger] window[i].timestamp == window[i + 1].timestamp
            + spacing
}

/// The two windows have the same targets, block by block.
pub open spec fn same_targets(a: Seq<BlockInfo>, b: Seq<BlockInfo>) -> bool {
    forall|i: int| 0 <= i < BLOCK_WINDOW ==> #[trigger] a[i].target@ == b[i].target@
}

/// The scaled target of `60 * quotient + rest`, from its two parts.
proof fn lemma_scaled_split(quotient: nat, rest: nat, spacing: nat)
    ensures
        (60 * quotient + rest) * spacing / 60 == quotient * spacing + rest * spacing / 60,
        ((60 * quotient + rest) * spacing + 59) / 60 == quotient * spacing + (rest * spacing + 59)
            / 60,
{
    let x = quotient * spacing;
    let y = rest * spacing;
    assert((60 * quotient + rest) * spacing == 60 * x + y) by (nonlinear_arith)
        requires
            x == quotient * spacing,
            y == rest * spacing,
    ;
    assert((60 * x + y) / 60 == x + y / 60);
    assert((60 * x + y + 59) / 60 == x + (y + 59) / 60);
}

proof fn lemma_scaled_monotone(mean: nat, a: nat, b: nat)
    requires
        a <= b,
    ensures
        scaled_target(mean, a) <= scaled_target(mean, b),
{
    assert(mean * a <= mean * b) by (nonlinear_arith)
        requires
            a <= b,
    ;
}

/// What the scaling does to the mean on each side of the planned spacing.
proof fn lemma_scaled_direction(mean: nat, spacing: nat)
    ensures
        spacing < BLOCK_TIME_SEC ==> scaled_target(mean, spacing) <= mean * 59 / 60,
        spacing == BLOCK_TIME_SEC ==> scaled_target(mean, spacing) == mean,
        spacing > BLOCK_TIME_SEC ==> scaled_target(mean, spacing) >= (mean * 61 + 59) / 60,
{
    if spacing < 60 {
        assert(mean * spacing <= mean * 59) by (nonlinear_arith)
            requires
                spacing <= 59,
        ;
    } else if spacing > 60 {
        assert(mean * 61 <= mean * spacing) by (nonlinear_arith)
            requires
                spacing >= 61,
        ;
    }
}

/// A retargeting never leaves the band around the mean target: it gives at
/// least half of it and at most twice it, and never more than a `U256` holds.
pub proof fn lemma_retarget_bounded(mean: nat, spacing: nat)
    requires
        mean <= u256_max(),
    ensures
        mean / 2 <= retarget(mean, spacing),
        retarget(mean, spacing) <= 2 * mean,
        retarget(mean, spacing) <= u256_max(),
{
}

/// More time between blocks never gives a lower target.
pub proof fn lemma_retarget_monotone(mean: nat, faster: nat, slower: nat)
    requires
        mean <= u256_max(),
        faster <= slower,
    ensures
        retarget(mean, faster) <= retarget(mean, slower),
{
    lemma_scaled_monotone(mean, faster, slower);
}

/// Blocks that come faster than planned lower the target below the mean,
/// blocks that come on schedule keep it, and blocks that come slower raise
/// it above the mean. A mean of zero has nothing below it, and the largest
/// target has nothing above it.
pub proof fn lemma_retarget_direction(mean: nat, spacing: nat)
    requires
        mean <= u256_max(),
    ensures
        spacing < BLOCK_TIME_SEC && mean >= 1 ==> retarget(mean, spacing) < mean,
        spacing == BLOCK_TIME_SEC ==> retarget(mean, spacing) == mean,
        spacing > BLOCK_TIME_SEC ==> retarget(mean, spacing) >= mean,
        spacing > BLOCK_TIME_SEC && 1 <= mean < u256_max() ==> retarget(mean, spacing) > mean,
{
    lemma_scaled_direction(mean, spacing);
}

proof fn lemma_same_sum(a: Seq<BlockInfo>, b: Seq<BlockInfo>, n: nat)
    requires
        n <= BLOCK_WINDOW,
        same_targets(a, b),
    ensures
        target_sum(a, n) == target_sum(b, n),
    decreases n,
{
    if n > 0 {
        lemma_same_sum(a, b, (n - 1) as nat);
        assert(a[n - 1].target@ == b[n - 1].target@);
    }
}

/// The sum of up to `BLOCK_WINDOW` targets is at most that many times the
/// largest target, so that their mean is a target again.
proof fn lemma_sum_bound(window: Seq<BlockInfo>, n: nat)
    requires
        n <= BLOCK_WINDOW,
    ensures
        target_sum(window, n) <= n * u256_max(),
        target_sum(window, n) <= 24 * u256_max(),
        target_sum(window, n) / 24 <= u256_max(),
    decreases n,
{
    let cap = u256_max();
    if n > 0 {
        let m = (n - 1) as nat;
        lemma_sum_bound(window, m);
        let target = window[n - 1].target;
        target.lemma_view(target);
        assert(n * cap == m * cap + cap) by (nonlinear_arith)
            requires
                n == m + 1,
        ;
    }
    assert(n * cap <= 24 * cap) by (nonlinear_arith)
        requires
            n <= 24,
    ;
}

proof fn lemma_even_span(window: Seq<BlockInfo>, spacing: nat, n: nat)
    requires
        n < BLOCK_WINDOW,
        evenly_spaced(window, spacing),
    ensures
        window[0].timestamp == window[n as int].timestamp + n * spacing,
    decreases n,
{
    if n > 0 {
        let m = (n - 1) as nat;
        lemma_even_span(window, spacing, m);
        assert(window[m as int].timestamp == window[m as int + 1].timestamp + spacing);
        assert(n * spacing == m * spacing + spacing) by (nonlinear_arith)
            requires
                n == m + 1,
        ;
    } else {
        assert(n * spacing == 0) by (nonlinear_arith)
            requires
                n == 0,
        ;
    }
}

/// The mean spacing of an evenly spaced window is its spacing.
pub proof fn lemma_even_spacing(window: Seq<BlockInfo>, spacing: nat)
    requires
        window.len() >= BLOCK_WINDOW,
        evenly_spaced(window, spacing),
    ensures
        mean_spacing(window) == spacing,
{
    lemma_even_span(window, spacing, 23);
}

/// Of two full windows with the same targets, one evenly spaced below the
/// planned block time and one evenly spaced above it, the faster one gets
/// the strictly lower next target. Left out are the windows whose targets
/// sum to less than `BLOCK_WINDOW`: their mean target is 0, and no target
/// is lower.
pub proof fn lemma_faster_window_lower_target(
    fast: Seq<BlockInfo>,
    slow: Seq<BlockInfo>,
    fast_spacing: nat,
    slow_spacing: nat,
)
    requires
        fast.len() >= BLOCK_WINDOW,
        slow.len() >= BLOCK_WINDOW,
        same_targets(fast, slow),
        evenly_spaced(fast, fast_spacing),
        evenly_spaced(slow, slow_spacing),
        fast_spacing < BLOCK_TIME_SEC < slow_spacing,
        target_sum(fast, BLOCK_WINDOW as nat) >= BLOCK_WINDOW,
    ensures
        next_target(fast) < mean_target(fast) <= next_target(slow),
        next_target(fast) < next_target(slow),
{
    lemma_same_sum(fast, slow, BLOCK_WINDOW as nat);
    lemma_sum_bound(fast, BLOCK_WINDOW as nat);
    lemma_even_spacing(fast, fast_spacing);
    lemma_even_spacing(slow, slow_spacing);
    lemma_retarget_direction(mean_target(fast), fast_spacing);
    lemma_retarget_direction(mean_target(fast), slow_spacing);
}

/// The mean target scaled by `spacing` over the planned block time and kept
/// within the band around the mean.
fn retarget_mean(mean: U256, spacing: u64) -> (target: U256)
    ensures
        target@ == retarget(mean@, spacing as nat),
{
    let planned = U256::from(BLOCK_TIME_SEC as u64);
    let factor = U256::from(MAX_ADJUST_FACTOR);
    assert(planned@ == 60 && factor@ == 2);
    let (quotient, rest) = div_mod(mean, planned);
    assert(quotient@ == mean@ / 60 && rest@ == mean@ % 60);
    let (floor, _) = div_mod(mean, factor);
    assert(floor@ == floor_target(mean@));
    let ceiling = match checked_add(mean, mean) {
        Some(twice) => twice,
        None => U256::max_value(),
    };
    assert(ceiling@ == ceiling_target(mean@));
    let rest_low: u64 = rest.low_u64();
    assert(rest_low as nat == rest@ && rest_low < 60);
    assert(rest_low * spacing <= 59 * 0xffff_ffff_ffff_ffff) by (nonlinear_arith)
        requires
            rest_low <= 59,
            spacing <= 0xffff_ffff_ffff_ffff,
    ;
    let rounding: u128 = if spacing > BLOCK_TIME_SEC as u64 {
        59
    } else {
        0
    };
    let carried: u64 = ((rest_low as u128 * spacing as u128 + rounding) / 60) as u64;
    assert(carried as nat == (rest@ * spacing + rounding) / 60);
    proof {
        lemma_scaled_split(quotient@, rest@, spacing as nat);
        assert(mean@ == 60 * quotient@ + rest@);
        assert(scaled_target(mean@, spacing as nat) == quotient@ * spacing + carried);
    }
    let scaled = match checked_mul(quotient, U256::from(spacing)) {
        Some(product) => checked_add(product, U256::from(carried)),
        None => None,
    };
    assert(match scaled {
        Some(s) => s@ == scaled_target(mean@, spacing as nat),
        None => scaled_target(mean@, spacing as nat) > u256_max(),
    });
    proof {
        ceiling.lemma_view(ceiling);
    }
    match scaled {
        None => ceiling,
        Some(s) => {
            if s.lt(&floor) {
                floor
            } else if ceiling.lt(&s) {
                ceiling
            } else {
                s
            }
        },
    }
}

/// The mean of the `BLOCK_WINDOW` newest targets, rounded down. The sum of
/// the targets may not fit in a `U256`, so the quotients and the remainders
/// of the targets by `BLOCK_WINDOW` are summed apart.
fn window_mean(window: &[BlockInfo]) -> (mean: U256)
    requires
        window@.len() >= BLOCK_WINDOW,
    ensures
        mean@ == mean_target(window@),
{
    let divisor = U256::from(BLOCK_WINDOW as u64);
    let mut quotients = U256::zero();
    let mut rests: u64 = 0;
    let mut i: usize = 0;
    while i < BLOCK_WINDOW as usize
        invariant
            i <= BLOCK_WINDOW,
            window@.len() >= BLOCK_WINDOW,
            divisor@ == 24,
            rests <= 23 * i,
            24 * quotients@ + rests == target_sum(window@, i as nat),
        decreases BLOCK_WINDOW - i,
    {
        let (quotient, rest) = div_mod(window[i].target, divisor);
        let rest_low = rest.low_u64();
        assert(rest_low as nat == rest@ && rest_low < 24);
        assert(window@[i as int].target@ == 24 * quotient@ + rest@);
        proof {
            lemma_sum_bound(window@, (i + 1) as nat);
        }
        let sum = checked_add(quotients, quotient);
        assert(sum.is_some());
        quotients = sum.unwrap();
        rests = rests + rest_low;
        i = i + 1;
    }
    proof {
        lemma_sum_bound(window@, BLOCK_WINDOW as nat);
    }
    let mean = checked_add(quotients, U256::from(rests / BLOCK_WINDOW as u64));
    assert(mean.is_some());
    mean.unwrap()
}

/// The target that the block after the window has to meet.
///
/// With fewer than `BLOCK_WINDOW` blocks the chain is at its start and the
/// genesis target applies. Otherwise the `BLOCK_WINDOW` newest blocks decide:
/// see `next_target`. The result stays within a factor of two of the mean
/// target of the window.
pub fn get_next_work_required(window: &[BlockInfo]) -> (target: U256)
    requires
        window@.len() >= 1,
    ensures
        target@ == next_target(window@),
        window@.len() >= BLOCK_WINDOW ==> mean_target(window@) / 2 <= target@ <= 2 * mean_target(
            window@,
        ),
{
    if window.len() < BLOCK_WINDOW as usize {
        return U256::max_value();
    }
    let mean = window_mean(window);
    let newest = window[0].timestamp;
    let oldest = window[BLOCK_WINDOW as usize - 1].timestamp;
    let spacing: u64 = if newest >= oldest {
        (newest - oldest) / (BLOCK_WINDOW as u64 - 1)
    } else {
        0
    };
    proof {
        mean.lemma_view(mean);
        lemma_retarget_bounded(mean@, spacing as nat);
    }
    retarget_mean(mean, spacing)
}

} // verus!
