//! The subscriber registry: the queues of the consumers that are attached,
//! and the fan-out of one payload to all of them without waiting for any.

use std::sync::Arc;
use tokio::sync::mpsc::{Receiver, Sender};
use vstd::prelude::*;
use vstd::slice::slice_to_vec;
use crate::channel::{bounded_queue, queue_bound, try_send, Payload};
use crate::subscriber::{retain_live, survivors, SendOutcome};

verus! {

/// The number of payloads that the queue of a subscriber holds.
pub const CONNECTION_BUFFER: usize = 1000;

/// The queues of the attached consumers, in the order in which they were
/// registered.
pub struct SubscriberRegistry {
    remotes: Vec<Sender<Payload>>,
}

impl View for SubscriberRegistry {
    type V = Seq<Sender<Payload>>;

    closed spec fn view(&self) -> Seq<Sender<Payload>> {
        self.remotes@
    }
}

impl SubscriberRegistry {
    /// Creates a registry without subscribers.
    pub fn new() -> (registry: SubscriberRegistry)
        ensures
            registry@ == Seq::<Sender<Payload>>::empty(),
    {
        SubscriberRegistry { remotes: Vec::new() }
    }

    /// The number of subscribers.
    pub fn len(&self) -> (n: usize)
        ensures
            n == self@.len(),
    {
        self.remotes.len()
    }

    /// Whether there is no subscriber.
    pub fn is_empty(&self) -> (empty: bool)
        ensures
            empty == (self@.len() == 0),
    {
        self.remotes.len() == 0
    }

    /// Adds a subscriber behind those that are there.
    pub fn register(&mut self, sender: Sender<Payload>)
        ensures
            final(self)@ == old(self)@.push(sender),
    {
        self.remotes.push(sender);
    }

    /// Makes a queue of [`CONNECTION_BUFFER`] payloads for a new subscriber
    /// and adds its producing end behind the subscribers that are there. The
    /// consuming end comes back: it is for the task that forwards to the
    /// consumer.
    pub fn register_queue(&mut self) -> (consuming_end: Receiver<Payload>)
        ensures
            final(self)@.len() == old(self)@.len() + 1,
            final(self)@.drop_last() == old(self)@,
            queue_bound(final(self)@.last()) == CONNECTION_BUFFER,
    {
        let (sender, consuming_end) = bounded_queue(CONNECTION_BUFFER);
        self.remotes.push(sender);
        consuming_end
    }

    /// Offers `data` once to every subscriber, in their order and without
    /// waiting, and takes out those whose consumer is gone. A subscriber
    /// with a full queue misses this payload and stays. The result holds
    /// how the attempt ended for each subscriber that was there.
    pub fn fan_out(&mut self, data: &[u8]) -> (outcomes: Vec<SendOutcome>)
        ensures
            outcomes@.len() == old(self)@.len(),
            final(self)@ == survivors(old(self)@, outcomes@),
    {
        let mut outcomes: Vec<SendOutcome> = Vec::new();
        if self.remotes.len() == 0 {
            return outcomes;
        }
        let payload: Payload = Arc::new(slice_to_vec(data));
        let mut i: usize = 0;
        while i < self.remotes.len()
            invariant
                i <= self.remotes@.len(),
                outcomes@.len() == i,
                self.remotes@ == old(self).remotes@,
                payload@ == data@,
            decreases self.remotes@.len() - i,
        {
            let outcome = try_send(&self.remotes[i], &payload);
            outcomes.push(outcome);
            i += 1;
        }
        retain_live(&mut self.remotes, &outcomes);
        outcomes
    }
}

} // verus!
