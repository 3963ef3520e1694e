//! Bringing a new consumer up to date, and forwarding to it afterwards: the
//! decisions, one step at a time. Whoever owns the transport performs each
//! action and reports how it ended.

use vstd::prelude::*;
use crate::channel::Payload;

verus! {

/// How far the replay of the history to a new consumer has come. The history
/// goes out in two pieces, the older bytes first.
#[derive(Clone, Copy, Debug, PartialEq, Eq, Structural)]
pub enum Replay {
    /// Nothing went out yet: the older piece is due.
    Older,
    /// The older piece went out: the newer piece is due.
    Newer,
    /// Both pieces went out: the consumer can be attached.
    Complete,
    /// A piece could not be written: the consumer is given up.
    Failed,
}

impl Replay {
    /// The state after the piece that was due went out (`delivered`) or
    /// could not be written. `Complete` and `Failed` are final.
    pub open spec fn after(self, delivered: bool) -> Replay {
        match self {
            Replay::Older => if delivered {
                Replay::Newer
            } else {
                Replay::Failed
            },
            Replay::Newer => if delivered {
                Replay::Complete
            } else {
                Replay::Failed
            },
            Replay::Complete => Replay::Complete,
            Replay::Failed => Replay::Failed,
        }
    }

    /// The state after the writes of the pieces ended as `results` say, in
    /// their order, starting from `self`.
    pub open spec fn after_all(self, results: Seq<bool>) -> Replay
        decreases results.len(),
    {
        if results.len() == 0 {
            self
        } else {
            self.after_all(results.drop_last()).after(results.last())
        }
    }

    /// The state in which a replay begins.
    pub fn start() -> (replay: Replay)
        ensures
            replay == Replay::Older,
    {
        Replay::Older
    }

    /// The state after the piece that was due went out or could not be
    /// written.
    pub fn advance(self, delivered: bool) -> (next: Replay)
        ensures
            next == self.after(delivered),
    {
        match self {
            Replay::Older => if delivered {
                Replay::Newer
            } else {
                Replay::Failed
            },
            Replay::Newer => if delivered {
                Replay::Complete
            } else {
                Replay::Failed
            },
            Replay::Complete => Replay::Complete,
            Replay::Failed => Replay::Failed,
        }
    }
}

/// What is to be done next for a consumer that is being attached.
#[derive(Clone, Copy, Debug, PartialEq, Eq)]
pub enum AttachAction<'a> {
    /// Write these bytes to the consumer, all of them or none, and report
    /// the result.
    Deliver(&'a [u8]),
    /// The history is out: attach the consumer and start forwarding.
    Register,
    /// Give the consumer up: it is not attached and gets nothing more.
    Abandon,
}

/// Whether the task that forwards to one consumer still runs.
#[derive(Clone, Copy, Debug, PartialEq, Eq, Structural)]
pub enum Forwarder {
    /// The task takes payloads from the queue and writes them.
    Running,
    /// The task has ended. It does not start again.
    Stopped,
}

/// What happened to the task that forwards to one consumer.
#[derive(Debug, PartialEq, Eq)]
pub enum ForwardEvent {
    /// This payload came out of the queue.
    Dequeued(Payload),
    /// The queue is closed and empty.
    QueueClosed,
    /// The payload was written to the consumer.
    Written,
    /// The payload could not be written to the consumer.
    WriteFailed,
}

/// What the task that forwards to one consumer does next.
#[derive(Debug, PartialEq, Eq)]
pub enum ForwardAction {
    /// Wait for the next payload in the queue.
    Dequeue,
    /// Write this payload to the consumer.
    Write(Payload),
    /// End the task and let go of the queue.
    Stop,
}

impl Forwarder {
    /// The state and the action that follow `event`. A payload is written as
    /// soon as it comes out of the queue, so payloads reach the consumer in
    /// the order in which they were enqueued. A failed write ends the task,
    /// and so does the end of the queue; after that no event leads to a write.
    pub open spec fn after(self, event: ForwardEvent) -> (Forwarder, ForwardAction) {
        match self {
            Forwarder::Stopped => (Forwarder::Stopped, ForwardAction::Stop),
            Forwarder::Running => match event {
                ForwardEvent::Dequeued(payload) => (Forwarder::Running, ForwardAction::Write(payload)),
                ForwardEvent::Written => (Forwarder::Running, ForwardAction::Dequeue),
                ForwardEvent::QueueClosed => (Forwarder::Stopped, ForwardAction::Stop),
                ForwardEvent::WriteFailed => (Forwarder::Stopped, ForwardAction::Stop),
            },
        }
    }

    /// The state after each of `events` in turn, starting from `self`.
    pub open spec fn after_all(self, events: Seq<ForwardEvent>) -> Forwarder
        decreases events.len(),
    {
        if events.len() == 0 {
            self
        } else {
            self.after_all(events.drop_last()).after(events.last()).0
        }
    }

    /// The state in which the task begins. Its first action is to wait for a
    /// payload.
    pub fn start() -> (begin: (Forwarder, ForwardAction))
        ensures
            begin.0 == Forwarder::Running,
            begin.1 == ForwardAction::Dequeue,
    {
        (Forwarder::Running, ForwardAction::Dequeue)
    }

    /// The state and the action that follow `event`.
    pub fn on_event(self, event: ForwardEvent) -> (next: (Forwarder, ForwardAction))
        ensures
            next == self.after(event),
    {
        match self {
            Forwarder::Stopped => (Forwarder::Stopped, ForwardAction::Stop),
            Forwarder::Running => match event {
                ForwardEvent::Dequeued(payload) => (Forwarder::Running, ForwardAction::Write(payload)),
                ForwardEvent::Written => (Forwarder::Running, ForwardAction::Dequeue),
                ForwardEvent::QueueClosed => (Forwarder::Stopped, ForwardAction::Stop),
                ForwardEvent::WriteFailed => (Forwarder::Stopped, ForwardAction::Stop),
            },
        }
    }
}

/// A replay ends complete if and only if both pieces went out: whenever a
/// write fails, the first or the second, the replay has failed and stays so.
pub proof fn law_replay_completes_only_after_both_pieces(results: Seq<bool>)
    ensures
        Replay::Older.after_all(results) == Replay::Complete <==> results.len() >= 2 && results[0]
            && results[1],
        Replay::Older.after_all(results) == Replay::Failed <==> (results.len() >= 1 && !results[0])
            || (results.len() >= 2 && !results[1]),
    decreases results.len(),
{
    if results.len() > 0 {
        let earlier = results.drop_last();
        law_replay_completes_only_after_both_pieces(earlier);
    }
}

/// Once a write to the consumer has failed, the task is stopped for good:
/// whatever happens later, a payload in the queue included, the answer is to
/// stop, and nothing is written.
pub proof fn law_failed_transport_gets_nothing_more(events: Seq<ForwardEvent>, k: int, later: ForwardEvent)
    requires
        0 <= k < events.len(),
        events[k] == ForwardEvent::WriteFailed,
    ensures
        Forwarder::Running.after_all(events) == Forwarder::Stopped,
        Forwarder::Running.after_all(events).after(later) == (
            Forwarder::Stopped,
            ForwardAction::Stop,
        ),
    decreases events.len(),
{
    if k < events.len() - 1 {
        law_failed_transport_gets_nothing_more(events.drop_last(), k, later);
    }
}

} // verus!
