//! The subscriber queues: bounded channels of `tokio`, as far as the
//! multiplexer touches them. Nothing in this file is proved; each item says
//! what is taken on trust.

use std::sync::Arc;
use vstd::prelude::*;
use crate::subscriber::SendOutcome;

verus! {

/// One write, shared by every queue that it was put into.
pub type Payload = Arc<Vec<u8>>;

/// `tokio::sync::mpsc::Sender`, the producing end of a bounded queue. Its
/// inside is hidden: the queue's content changes whenever the consumer runs.
#[verifier::external_type_specification]
#[verifier::external_body]
#[verifier::reject_recursive_types(T)]
pub struct ExSender<T>(tokio::sync::mpsc::Sender<T>);

/// `tokio::sync::mpsc::Receiver`, the consuming end of a bounded queue.
#[verifier::external_type_specification]
#[verifier::external_body]
#[verifier::reject_recursive_types(T)]
pub struct ExReceiver<T>(tokio::sync::mpsc::Receiver<T>);

/// The number of payloads that the queue behind `sender` was made to hold.
/// It is fixed when the queue is made.
pub uninterp spec fn queue_bound(sender: tokio::sync::mpsc::Sender<Arc<Vec<u8>>>) -> nat;

/// `tokio::sync::mpsc::channel`: makes a queue that holds up to `bound`
/// payloads. The call panics for a bound of 0 and for one above the number of
/// permits that a semaphore of `tokio` can have, `usize::MAX >> 3`; both are
/// left out here.
#[verifier::external_body]
pub(crate) fn bounded_queue(bound: usize) -> (ends: (
    tokio::sync::mpsc::Sender<Payload>,
    tokio::sync::mpsc::Receiver<Payload>,
))
    requires
        0 < bound <= usize::MAX / 8,
    ensures
        queue_bound(ends.0) == bound,
{
    tokio::sync::mpsc::channel(bound)
}

/// `tokio::sync::mpsc::Sender::try_send`, called with another handle to
/// `payload`: puts the payload into the queue if that can be done at once,
/// and never waits. `Ok` comes back as `Delivered`, the error `Full` as
/// `DroppedQueueFull` and the error `Closed` as `ConsumerGone`. Which of the
/// three it is depends on what the consumer has done by then, so nothing is
/// claimed of it.
#[verifier::external_body]
pub(crate) fn try_send(sender: &tokio::sync::mpsc::Sender<Payload>, payload: &Payload) -> (outcome:
    SendOutcome)
{
    match sender.try_send(payload.clone()) {
        Ok(()) => SendOutcome::Delivered,
        Err(tokio::sync::mpsc::error::TrySendError::Full(_)) => SendOutcome::DroppedQueueFull,
        Err(tokio::sync::mpsc::error::TrySendError::Closed(_)) => SendOutcome::ConsumerGone,
    }
}

} // verus!
