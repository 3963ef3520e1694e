//! The multiplexer: one ring of recent bytes and the registry of the
//! consumers that follow the stream.

use tokio::sync::mpsc::{Receiver, Sender};
use vstd::prelude::*;
use crate::attach::{AttachAction, Replay};
use crate::channel::{queue_bound, Payload};
use crate::history::{head_after, history_after, store_after, zeros};
use crate::registry::{SubscriberRegistry, CONNECTION_BUFFER};
use crate::ring::{RingBuffer, RingView};
use crate::subscriber::{survivors, SendOutcome};

verus! {

/// What a [`ConsoleMux`] holds, as plain mathematics.
pub struct MuxView {
    /// The ring of recent bytes.
    pub ring: RingView,
    /// The queues of the attached consumers, in the order of registration.
    pub subscribers: Seq<Sender<Payload>>,
}

/// A console buffer that multiplexes to any number of consumers. It keeps
/// the last `H` bytes written, whatever they are, and hands every write on to
/// the consumers that are attached.
pub struct ConsoleMux<const H: usize> {
    ring: RingBuffer<H>,
    remotes: SubscriberRegistry,
}

impl<const H: usize> View for ConsoleMux<H> {
    type V = MuxView;

    closed spec fn view(&self) -> MuxView {
        MuxView { ring: self.ring@, subscribers: self.remotes@ }
    }
}

impl<const H: usize> ConsoleMux<H> {
    /// Creates a multiplexer with `H` zero bytes of history and no consumer.
    pub fn new() -> (mux: ConsoleMux<H>)
        ensures
            mux@.ring.store == zeros(H as nat),
            mux@.ring.head == 0,
            mux@.ring.history() == zeros(H as nat),
            mux@.subscribers == Seq::<Sender<Payload>>::empty(),
    {
        ConsoleMux { ring: RingBuffer::new(), remotes: SubscriberRegistry::new() }
    }

    /// Writes `data` to the console: the ring takes it first, then every
    /// attached consumer is offered it once, without waiting. The result
    /// holds how the offer ended for each consumer that was attached; those
    /// found gone are attached no longer.
    pub fn relay(&mut self, data: &[u8]) -> (outcomes: Vec<SendOutcome>)
        requires
            H > 0,
        ensures
            final(self)@.ring.store == store_after(
                old(self)@.ring.store,
                old(self)@.ring.head,
                data@,
            ),
            final(self)@.ring.head == head_after(old(self)@.ring.head, data@.len() as int, H as int),
            final(self)@.ring.history() == history_after(old(self)@.ring.history(), data@),
            data@.len() >= H ==> final(self)@.ring.history() == data@.subrange(
                data@.len() - H,
                data@.len() as int,
            ),
            outcomes@.len() == old(self)@.subscribers.len(),
            final(self)@.subscribers == survivors(old(self)@.subscribers, outcomes@),
    {
        self.ring.write(data);
        self.remotes.fan_out(data)
    }

    /// Writes `data` to the console. The last `H` bytes written are kept and
    /// are served to consumers that attach later; the consumers that are
    /// attached are offered `data` at once. A consumer whose queue is full
    /// misses it, and one that is gone is attached no longer.
    pub fn write_data(&mut self, data: &[u8])
        requires
            H > 0,
        ensures
            final(self)@.ring.store == store_after(
                old(self)@.ring.store,
                old(self)@.ring.head,
                data@,
            ),
            final(self)@.ring.head == head_after(old(self)@.ring.head, data@.len() as int, H as int),
            final(self)@.ring.history() == history_after(old(self)@.ring.history(), data@),
            data@.len() >= H ==> final(self)@.ring.history() == data@.subrange(
                data@.len() - H,
                data@.len() as int,
            ),
            exists|outcomes: Seq<SendOutcome>|
                outcomes.len() == old(self)@.subscribers.len() && final(self)@.subscribers
                    == #[trigger] survivors(old(self)@.subscribers, outcomes),
    {
        self.relay(data);
    }

    /// The position in the ring that the next write starts at.
    pub fn head(&self) -> (head: usize)
        ensures
            head == self@.ring.head,
            head == 0 || head < H,
    {
        self.ring.head()
    }

    /// The bytes of the ring by position.
    pub fn data(&self) -> (store: &[u8; H])
        ensures
            store@ == self@.ring.store,
            store@.len() == H,
    {
        self.ring.data()
    }

    /// The history in one piece: `H` bytes, oldest first.
    pub fn snapshot(&self) -> (bytes: Vec<u8>)
        ensures
            bytes@ == self@.ring.history(),
            bytes@.len() == H,
    {
        self.ring.snapshot()
    }

    /// The number of consumers that are attached.
    pub fn subscriber_count(&self) -> (n: usize)
        ensures
            n == self@.subscribers.len(),
    {
        self.remotes.len()
    }

    /// What is to be done next for a consumer whose replay stands at
    /// `replay`: which piece of the history to write to it, or that it can
    /// be attached, or that it is given up.
    pub fn attach_action(&self, replay: Replay) -> (action: AttachAction<'_>)
        ensures
            match replay {
                Replay::Older => action matches AttachAction::Deliver(piece) && piece@
                    == self@.ring.store.subrange(self@.ring.head, H as int),
                Replay::Newer => action matches AttachAction::Deliver(piece) && piece@
                    == self@.ring.store.subrange(0, self@.ring.head),
                Replay::Complete => action is Register,
                Replay::Failed => action is Abandon,
            },
    {
        match replay {
            Replay::Older => AttachAction::Deliver(self.ring.segments().0),
            Replay::Newer => AttachAction::Deliver(self.ring.segments().1),
            Replay::Complete => AttachAction::Register,
            Replay::Failed => AttachAction::Abandon,
        }
    }

    /// Attaches a consumer that is written to by a task of its own, if its
    /// replay is complete: a queue of [`CONNECTION_BUFFER`] payloads is made
    /// for it and registered for the writes to come, and the consuming end
    /// of the queue comes back, for the task that forwards to the consumer.
    /// With any other replay nothing changes and nothing comes back.
    pub fn attach_remote(&mut self, replay: Replay) -> (queue: Option<Receiver<Payload>>)
        ensures
            queue is Some <==> replay == Replay::Complete,
            final(self)@.ring == old(self)@.ring,
            replay != Replay::Complete ==> final(self)@.subscribers == old(self)@.subscribers,
            replay == Replay::Complete ==> {
                &&& final(self)@.subscribers.len() == old(self)@.subscribers.len() + 1
                &&& final(self)@.subscribers.drop_last() == old(self)@.subscribers
                &&& queue_bound(final(self)@.subscribers.last()) == CONNECTION_BUFFER
            },
    {
        match replay {
            Replay::Complete => Some(self.remotes.register_queue()),
            _ => None,
        }
    }

    /// Attaches a consumer that brings the producing end of its own queue,
    /// if its replay is complete: `sender` is registered for the writes to
    /// come. With any other replay nothing changes. The result tells whether
    /// the consumer was attached.
    pub fn attach_channel(&mut self, replay: Replay, sender: Sender<Payload>) -> (attached: bool)
        ensures
            attached == (replay == Replay::Complete),
            final(self)@.ring == old(self)@.ring,
            final(self)@.subscribers == if attached {
                old(self)@.subscribers.push(sender)
            } else {
                old(self)@.subscribers
            },
    {
        match replay {
            Replay::Complete => {
                self.remotes.register(sender);
                true
            },
            _ => false,
        }
    }
}

} // verus!
