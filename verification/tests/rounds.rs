use consensus::channel::{completion_of, deliver, poll_completion, Completion, Polled};
use consensus::mine_state::{PowMineState, Round};
use consensus::{Algo, MineCtx, MineState, Proof, Solution, U256};

fn a_header() -> Vec<u8> {
    (0..80u8).map(|i| i.wrapping_mul(3)).collect()
}

fn a_solution(seed: u64) -> Solution {
    Solution::from_lanes((0..42u64).map(|i| (seed << 8) + i).collect())
}

#[test]
fn new_state_has_no_round_open() {
    let state = PowMineState::new(Algo::CUCKOO, U256::max_value());
    assert_eq!(state.get_current_mine_ctx(Algo::CUCKOO), None);
    assert_eq!(state.get_current_mine_ctx(Algo::SCRYPT), None);
    assert_eq!(state.round_state(Algo::CUCKOO), Round::Idle);
    assert_eq!(state.round_state(Algo::SCRYPT), Round::Idle);
}

#[test]
fn mine_block_issues_a_context_under_the_default_algorithm() {
    let mut state = PowMineState::new(Algo::CUCKOO, U256::max_value());
    let _pair = state.mine_block(a_header());
    let expected = MineCtx { header: a_header(), target: None, algo: None };
    assert_eq!(state.get_current_mine_ctx(Algo::CUCKOO), Some(expected.clone()));
    assert_eq!(state.get_current_mine_ctx(Algo::CUCKOO), Some(expected.clone()));
    assert_eq!(state.round_state(Algo::CUCKOO), Round::ContextIssued(expected));
    assert_eq!(state.get_current_mine_ctx(Algo::SCRYPT), None);

    let mut other = PowMineState::new(Algo::SCRYPT, U256::max_value());
    let _pair = other.mine_block(a_header());
    assert_eq!(other.get_current_mine_ctx(Algo::CUCKOO), None);
    assert!(other.get_current_mine_ctx(Algo::SCRYPT).is_some());
}

#[test]
fn rounds_of_different_algorithms_are_independent() {
    let mut state = PowMineState::new(Algo::CUCKOO, U256::max_value());
    let cuckoo = MineCtx { header: vec![1; 8], target: None, algo: Some(Algo::CUCKOO) };
    let scrypt = MineCtx { header: vec![2; 8], target: None, algo: Some(Algo::SCRYPT) };
    state.start_round(cuckoo.clone());
    state.start_round(scrypt.clone());
    assert_eq!(state.get_current_mine_ctx(Algo::CUCKOO), Some(cuckoo.clone()));
    assert_eq!(state.get_current_mine_ctx(Algo::SCRYPT), Some(scrypt.clone()));
    state.abandon(Algo::CUCKOO);
    assert_eq!(state.get_current_mine_ctx(Algo::CUCKOO), None);
    assert_eq!(state.get_current_mine_ctx(Algo::SCRYPT), Some(scrypt));
    let replaced = MineCtx { header: vec![3; 8], target: None, algo: Some(Algo::SCRYPT) };
    state.start_round(replaced.clone());
    assert_eq!(state.get_current_mine_ctx(Algo::SCRYPT), Some(replaced));
}

#[test]
fn mine_accept_rejects_what_is_no_cycle() {
    let mut state = PowMineState::new(Algo::CUCKOO, U256::max_value());
    let _pair = state.mine_block(a_header());
    let ctx = state.get_current_mine_ctx(Algo::CUCKOO).unwrap();
    for nonce in 0..5u32 {
        assert!(!state.mine_accept(&ctx, a_solution(nonce as u64), nonce));
        assert!(!state.mine_accept(&ctx, Solution::default(), nonce));
        assert_eq!(state.resolve(&ctx, a_solution(nonce as u64), nonce), None);
    }
    assert_eq!(state.round_state(Algo::CUCKOO), Round::ContextIssued(ctx));
}

#[test]
fn mine_accept_rejects_a_header_without_room_for_a_nonce() {
    let mut state = PowMineState::new(Algo::CUCKOO, U256::max_value());
    let _pair = state.mine_block(vec![1, 2, 3]);
    let ctx = state.get_current_mine_ctx(Algo::CUCKOO).unwrap();
    assert!(!state.mine_accept(&ctx, a_solution(1), 0));
}

#[test]
fn abandoned_round_completes_with_none() {
    let mut state = PowMineState::new(Algo::CUCKOO, U256::max_value());
    let (receiver, sender) = state.mine_block(a_header());
    assert_eq!(poll_completion(&receiver), Completion::Pending);
    drop(sender);
    assert_eq!(poll_completion(&receiver), Completion::Finished(None));
    assert!(futures::executor::block_on(receiver.recv()).is_err());
}

#[test]
fn explicit_none_completes_like_an_abandoned_round() {
    let mut state = PowMineState::new(Algo::CUCKOO, U256::max_value());
    let (receiver, sender) = state.mine_block(a_header());
    assert!(deliver(sender, None));
    assert_eq!(poll_completion(&receiver), Completion::Finished(None));
}

#[test]
fn delivered_proof_reaches_the_receiver_once() {
    let mut state = PowMineState::new(Algo::CUCKOO, U256::max_value());
    let (receiver, sender) = state.mine_block(a_header());
    let proof = Proof { solution: a_solution(4), nonce: 4, algo: Algo::CUCKOO, target: U256::zero() };
    assert!(deliver(sender, Some(proof.clone())));
    assert_eq!(poll_completion(&receiver), Completion::Finished(Some(proof)));
    // The sender is gone and nothing else is queued.
    assert_eq!(poll_completion(&receiver), Completion::Finished(None));
}

#[test]
fn delivered_proof_reaches_a_waiting_receiver() {
    let mut state = PowMineState::new(Algo::CUCKOO, U256::max_value());
    let (receiver, sender) = state.mine_block(a_header());
    assert!(deliver(sender, Some(Proof::default())));
    assert_eq!(futures::executor::block_on(receiver.recv()), Ok(Some(Proof::default())));
    assert!(futures::executor::block_on(receiver.recv()).is_err());
}

#[test]
fn delivery_fails_when_nobody_listens() {
    let mut state = PowMineState::new(Algo::CUCKOO, U256::max_value());
    let (receiver, sender) = state.mine_block(a_header());
    drop(receiver);
    assert!(!deliver(sender, Some(Proof::default())));
}

#[test]
fn each_round_has_its_own_channel() {
    let mut state = PowMineState::new(Algo::CUCKOO, U256::max_value());
    let (first_receiver, first_sender) = state.mine_block(a_header());
    let (second_receiver, second_sender) = state.mine_block(a_header());
    assert!(deliver(first_sender, Some(Proof::default())));
    assert_eq!(poll_completion(&second_receiver), Completion::Pending);
    drop(second_sender);
    assert_eq!(poll_completion(&second_receiver), Completion::Finished(None));
    assert_eq!(poll_completion(&first_receiver), Completion::Finished(Some(Proof::default())));
}

#[test]
fn completion_of_reads_a_closed_channel_as_none() {
    assert_eq!(completion_of(Polled::Closed), Completion::Finished(None));
    assert_eq!(completion_of(Polled::Message(None)), Completion::Finished(None));
    assert_eq!(completion_of(Polled::Empty), Completion::Pending);
    assert_eq!(
        completion_of(Polled::Message(Some(Proof::default()))),
        Completion::Finished(Some(Proof::default()))
    );
}
