use consensus::difficult::get_next_work_required;
use consensus::{u256_to_vec, BlockInfo, Proof, U256};

/// A window of `len` blocks, newest first, `spacing` seconds apart, all with
/// the same target.
fn window(len: usize, spacing: u64, target: U256) -> Vec<BlockInfo> {
    (0..len)
        .map(|i| BlockInfo { timestamp: 1_000_000 + (len - 1 - i) as u64 * spacing, target })
        .collect()
}

fn next(spacing: u64, target: u64) -> U256 {
    get_next_work_required(&window(24, spacing, U256::from(target)))
}

#[test]
fn short_window_falls_back_to_the_genesis_target() {
    for len in [1usize, 2, 12, 23] {
        let target = get_next_work_required(&window(len, 1, U256::from(5u64)));
        assert_eq!(target, U256::max_value());
    }
}

#[test]
fn on_schedule_window_keeps_the_mean_target() {
    for target in [0u64, 1, 23, 24, 1000, 2400, u64::MAX] {
        assert_eq!(next(60, target), U256::from(target));
    }
}

#[test]
fn mean_target_is_the_sum_over_the_count() {
    // Twelve targets of 1 and twelve of 2 sum to 36: the mean is 1.
    let mut blocks = window(24, 60, U256::from(1u64));
    for block in blocks.iter_mut().take(12) {
        block.target = U256::from(2u64);
    }
    assert_eq!(get_next_work_required(&blocks), U256::from(1u64));
    // 23 targets of 23 and one of 24 sum to 553: the mean is 23.
    let mut blocks = window(24, 60, U256::from(23u64));
    blocks[9].target = U256::from(24u64);
    assert_eq!(get_next_work_required(&blocks), U256::from(23u64));
    // 23 targets of 47 and one of 19 sum to 1100: the mean is 45.
    let mut blocks = window(24, 60, U256::from(47u64));
    blocks[23].target = U256::from(19u64);
    assert_eq!(get_next_work_required(&blocks), U256::from(45u64));
}

#[test]
fn mean_target_of_a_sum_too_wide_for_a_target() {
    let max = primitive_types::U256::MAX;
    let mut blocks = window(24, 60, U256::max_value());
    blocks[3].target = U256::zero();
    blocks[17].target = U256::from(5u64);
    let sum = primitive_types::U512::from(max) * primitive_types::U512::from(22u64)
        + primitive_types::U512::from(5u64);
    let mean = primitive_types::U256::try_from(sum / primitive_types::U512::from(24u64)).unwrap();
    assert_eq!(get_next_work_required(&blocks), U256(mean.0));
}

#[test]
fn fast_window_lowers_the_target() {
    assert_eq!(next(59, 2400), U256::from(2360u64));
    assert_eq!(next(45, 2400), U256::from(1800u64));
    assert_eq!(next(30, 2400), U256::from(1200u64));
}

#[test]
fn slow_window_raises_the_target() {
    assert_eq!(next(61, 2400), U256::from(2440u64));
    assert_eq!(next(90, 2400), U256::from(3600u64));
    assert_eq!(next(120, 2400), U256::from(4800u64));
}

#[test]
fn scaling_rounds_towards_the_side_it_moves_to() {
    // 1464 * 61 / 60 = 1488.4, which a slow window rounds up.
    assert_eq!(next(61, 1464), U256::from(1489u64));
    // 1464 * 59 / 60 = 1439.6, which a fast window rounds down.
    assert_eq!(next(59, 1464), U256::from(1439u64));
    // 7 * 90 / 60 = 10.5 and 7 * 45 / 60 = 5.25
    assert_eq!(next(90, 7), U256::from(11u64));
    assert_eq!(next(45, 7), U256::from(5u64));
}

#[test]
fn smallest_targets_still_move() {
    assert_eq!(next(30, 1), U256::zero());
    assert_eq!(next(59, 1), U256::zero());
    assert_eq!(next(60, 1), U256::from(1u64));
    assert_eq!(next(61, 1), U256::from(2u64));
    assert_eq!(next(120, 1), U256::from(2u64));
    assert_eq!(next(30, 23), U256::from(11u64));
    assert_eq!(next(120, 23), U256::from(46u64));
    assert_eq!(next(61, 23), U256::from(24u64));
}

#[test]
fn adjustment_is_clamped_to_a_factor_of_two() {
    assert_eq!(next(29, 2400), U256::from(1200u64));
    assert_eq!(next(10, 2400), U256::from(1200u64));
    assert_eq!(next(0, 2400), U256::from(1200u64));
    assert_eq!(next(121, 2400), U256::from(4800u64));
    assert_eq!(next(300, 2400), U256::from(4800u64));
    assert_eq!(next(1 << 40, 2400), U256::from(4800u64));
}

#[test]
fn faster_window_gets_the_lower_target() {
    for (fast, slow) in [(59u64, 61u64), (30, 90), (1, 1000), (0, 61)] {
        for target in [1u64, 2, 23, 24, 59, 60, 2400, 1 << 40, u64::MAX] {
            assert!(next(fast, target).lt(&next(slow, target)));
            assert!(next(fast, target).lt(&U256::from(target)));
            assert!(U256::from(target).lt(&next(slow, target)));
        }
    }
    let max = U256::max_value();
    let fast = get_next_work_required(&window(24, 30, max));
    let slow = get_next_work_required(&window(24, 90, max));
    assert!(fast.lt(&slow));
    assert_eq!(slow, max);
}

#[test]
fn faster_window_is_below_the_slower_one_in_bytes_too() {
    for target in [1u64, 23, 2400, u64::MAX] {
        let fast = next(30, target);
        let slow = next(120, target);
        let fast_bytes = u256_to_vec(fast);
        let slow_bytes = u256_to_vec(slow);
        // Read from the most significant byte, the first difference decides.
        let at = (0..32).rev().find(|k| fast_bytes[*k] != slow_bytes[*k]).unwrap();
        assert!(fast_bytes[at] < slow_bytes[at]);
        assert!(slow.le(&Proof::default().target));
        assert!(fast.lt(&Proof::default().target));
    }
}

#[test]
fn zero_mean_target_cannot_move() {
    assert_eq!(next(30, 0), U256::zero());
    assert_eq!(next(90, 0), U256::zero());
    // Targets that sum to less than 24 have a mean of zero.
    let mut blocks = window(24, 90, U256::zero());
    blocks[0].target = U256::from(23u64);
    assert_eq!(get_next_work_required(&blocks), U256::zero());
    blocks[1].target = U256::from(1u64);
    assert_eq!(get_next_work_required(&blocks), U256::from(2u64));
}

#[test]
fn only_the_newest_blocks_count() {
    let mut blocks = window(24, 90, U256::from(2400u64));
    let expected = get_next_work_required(&blocks);
    blocks.push(BlockInfo { timestamp: 5, target: U256::max_value() });
    blocks.push(BlockInfo { timestamp: 900_000_000, target: U256::zero() });
    assert_eq!(get_next_work_required(&blocks), expected);
    assert_eq!(expected, U256::from(3600u64));
}

#[test]
fn mixed_targets_are_averaged() {
    let mut blocks = window(24, 60, U256::from(2400u64));
    for block in blocks.iter_mut().take(12) {
        block.target = U256::from(4800u64);
    }
    assert_eq!(get_next_work_required(&blocks), U256::from(3600u64));
}

#[test]
fn only_the_ends_of_the_window_time_it() {
    let mut blocks = window(24, 60, U256::from(2400u64));
    blocks[7].timestamp = 0;
    blocks[15].timestamp = u64::MAX;
    assert_eq!(get_next_work_required(&blocks), U256::from(2400u64));
}

#[test]
fn backwards_clock_counts_as_no_time() {
    let mut blocks = window(24, 60, U256::from(2400u64));
    blocks.reverse();
    assert_eq!(get_next_work_required(&blocks), U256::from(1200u64));
}

#[test]
fn longest_possible_span_is_clamped() {
    let mut blocks = window(24, 60, U256::from(2400u64));
    blocks[0].timestamp = u64::MAX;
    blocks[23].timestamp = 0;
    assert_eq!(get_next_work_required(&blocks), U256::from(4800u64));
    for block in blocks.iter_mut() {
        block.target = U256::max_value();
    }
    assert_eq!(get_next_work_required(&blocks), U256::max_value());
}

#[test]
fn largest_targets_saturate() {
    let max = U256::max_value();
    assert_eq!(get_next_work_required(&window(24, 60, max)), max);
    assert_eq!(get_next_work_required(&window(24, 61, max)), max);
    assert_eq!(get_next_work_required(&window(24, 120, max)), max);
    let half = U256([u64::MAX, u64::MAX, u64::MAX, u64::MAX >> 1]);
    assert_eq!(get_next_work_required(&window(24, 30, max)), half);
    assert_eq!(get_next_work_required(&window(24, 1, max)), half);
}

#[test]
fn wide_targets_scale_like_primitive_types() {
    let target = U256([0x1234_5678_9abc_def0, 0x0fed_cba9_8765_4321, 0xaaaa_5555_aaaa_5555, 0x0000_0000_0000_ffff]);
    let mean = primitive_types::U256(target.0);
    for spacing in [31u64, 45, 59, 60, 61, 75, 119] {
        let product = mean.full_mul(primitive_types::U256::from(spacing));
        let rounding = if spacing > 60 { 59u64 } else { 0 };
        let expected = (product + primitive_types::U512::from(rounding))
            / primitive_types::U512::from(60u64);
        let expected = primitive_types::U256::try_from(expected).unwrap();
        assert_eq!(get_next_work_required(&window(24, spacing, target)), U256(expected.0));
    }
}
