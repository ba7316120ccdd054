//! The completion channel of a mining round, from the `async_std` crate.
//!
//! A round hands out a receiver and a sender. The sender carries at most one
//! outcome: the proof that was found, or `None` for a round that was given
//! up. A sender that is dropped without a word closes the channel, which
//! says the same as `None`.

use crate::work::Proof;
use async_std::channel::{Receiver, Sender, TryRecvError};
use vstd::prelude::*;

verus! {

/// `async_std::channel::Sender`, the sending end of a channel. Nothing is
/// known of what it holds.
#[verifier::external_type_specification]
#[verifier::external_body]
#[verifier::reject_recursive_types(T)]
pub struct ExSender<T>(async_std::channel::Sender<T>);

/// `async_std::channel::Receiver`, the receiving end of a channel. Nothing
/// is known of what it holds.
#[verifier::external_type_specification]
#[verifier::external_body]
#[verifier::reject_recursive_types(T)]
pub struct ExReceiver<T>(async_std::channel::Receiver<T>);

/// What one look into the channel finds.
#[derive(Debug, PartialEq, Eq)]
pub enum Polled {
    /// An outcome was waiting.
    Message(Option<Proof>),
    /// Nothing has come yet, and a sender is still there.
    Empty,
    /// Nothing has come, and no sender is left.
    Closed,
}

/// What the caller of a round knows of its outcome.
#[derive(Debug, PartialEq, Eq)]
pub enum Completion {
    /// The round is still open.
    Pending,
    /// The round is over, with a proof or without one.
    Finished(Option<Proof>),
}

/// Number of outcomes that the channel of a round has room for: a round has
/// one outcome.
pub const ROUND_OUTCOMES: usize = 1;

/// `async_std::channel::bounded`: a new channel with room for `capacity`
/// messages, handed out receiver first. The outside function panics on a
/// capacity of zero, which is left out here.
#[verifier::external_body]
pub(crate) fn completion_channel(capacity: usize) -> (pair: (
    Receiver<Option<Proof>>,
    Sender<Option<Proof>>,
))
    requires
        capacity > 0,
{
    let (sender, receiver) = async_std::channel::bounded(capacity);
    (receiver, sender)
}

/// `async_std::channel::Receiver::try_recv`: takes the waiting message, if
/// there is one, without blocking. What it finds depends on what the other
/// end has done, so nothing is promised of it.
#[verifier::external_body]
pub(crate) fn try_recv(receiver: &Receiver<Option<Proof>>) -> (polled: Polled) {
    match receiver.try_recv() {
        Ok(outcome) => Polled::Message(outcome),
        Err(TryRecvError::Empty) => Polled::Empty,
        Err(TryRecvError::Closed) => Polled::Closed,
    }
}

/// `async_std::channel::Sender::try_send`: queues the message without
/// blocking and says whether the channel took it. A channel that is full or
/// closed takes nothing.
#[verifier::external_body]
pub(crate) fn try_send(sender: &Sender<Option<Proof>>, outcome: Option<Proof>) -> (sent: bool) {
    sender.try_send(outcome).is_ok()
}

/// Reads what a look into the channel found: a closed channel is a round
/// that ended without a proof, like an explicit `None`.
pub fn completion_of(polled: Polled) -> (completion: Completion)
    ensures
        completion == match polled {
            Polled::Message(outcome) => Completion::Finished(outcome),
            Polled::Empty => Completion::Pending,
            Polled::Closed => Completion::Finished(None),
        },
{
    match polled {
        Polled::Message(outcome) => Completion::Finished(outcome),
        Polled::Empty => Completion::Pending,
        Polled::Closed => Completion::Finished(None),
    }
}

/// Looks for the outcome of a round without waiting for it.
pub fn poll_completion(receiver: &Receiver<Option<Proof>>) -> (completion: Completion) {
    completion_of(try_recv(receiver))
}

/// Sends the outcome of a round and gives the sender up, so that no second
/// outcome can follow. Says whether the channel took the outcome.
pub fn deliver(sender: Sender<Option<Proof>>, outcome: Option<Proof>) -> (sent: bool) {
    try_send(&sender, outcome)
}

} // verus!
