use tokio::sync::mpsc::error::SendError;
use tokio::sync::mpsc::{UnboundedReceiver, UnboundedSender};
use vstd::prelude::*;

verus! {

/// The producing end of tokio's unbounded channel,
/// `tokio::sync::mpsc::UnboundedSender`. Nothing is known of what a value
/// of it holds.
#[verifier::external_type_specification]
#[verifier::external_body]
#[verifier::reject_recursive_types(T)]
pub struct ExUnboundedSender<T>(UnboundedSender<T>);

/// The consuming end of tokio's unbounded channel,
/// `tokio::sync::mpsc::UnboundedReceiver`. Nothing is known of what a value
/// of it holds.
#[verifier::external_type_specification]
#[verifier::external_body]
#[verifier::reject_recursive_types(T)]
pub struct ExUnboundedReceiver<T>(UnboundedReceiver<T>);

/// The error of a refused send, `tokio::sync::mpsc::error::SendError`. It
/// carries the message back; nothing is read from it here.
#[verifier::external_type_specification]
#[verifier::external_body]
#[verifier::reject_recursive_types(T)]
pub struct ExSendError<T>(SendError<T>);

/// `tokio::sync::mpsc::unbounded_channel` makes a new channel and returns its
/// two ends. Nothing is claimed of them: that what goes into the first comes
/// out of the second, in order, is tokio's promise and is not used in any
/// proof.
pub assume_specification<T>[ tokio::sync::mpsc::unbounded_channel::<T> ]() -> (ends: (
    UnboundedSender<T>,
    UnboundedReceiver<T>,
));

/// `UnboundedSender::send` puts a message into the channel without waiting,
/// and returns an error where the consuming end is closed or gone. Which of
/// the two happens depends on what the consumer has done, so nothing is
/// claimed of the result. (tokio ends the process should the count of queued
/// messages ever overflow a `usize`.)
pub assume_specification<T>[ UnboundedSender::<T>::send ](
    queue: &UnboundedSender<T>,
    message: T,
) -> (outcome: Result<(), SendError<T>>);

/// Offers `line` to `queue`; says whether the queue took it. A queue whose
/// consumer is gone refuses, and the line is dropped.
pub(crate) fn offer(queue: &UnboundedSender<String>, line: &str) -> (accepted: bool) {
    let outcome = queue.send(line.to_owned());
    taken(&outcome)
}

/// Whether a send put its line into the queue: it did unless the queue
/// handed the line back as an error.
pub fn taken(outcome: &Result<(), SendError<String>>) -> (accepted: bool)
    ensures
        accepted == (outcome is Ok),
{
    match outcome {
        Ok(_) => true,
        Err(_) => false,
    }
}

} // verus!
