//! One subscriber's life, and what a fan-out pass leaves of a list of
//! subscribers.

use vstd::prelude::*;

verus! {

/// How an attempt to enqueue a payload for one subscriber ended.
#[derive(Clone, Copy, Debug, PartialEq, Eq, Structural)]
pub enum SendOutcome {
    /// The payload is in the subscriber's queue.
    Delivered,
    /// The queue was full: this payload is lost to this subscriber.
    DroppedQueueFull,
    /// The consuming end of the queue is gone.
    ConsumerGone,
}

/// Whether a subscriber still takes part in fan-out.
#[derive(Clone, Copy, Debug, PartialEq, Eq, Structural)]
pub enum SubscriberState {
    /// Payloads are offered to the subscriber.
    Active,
    /// The subscriber was found gone; nothing is offered to it again.
    Removed,
}

impl SubscriberState {
    /// The state after an enqueue attempt ended in `outcome`. Only a consumer
    /// that is gone ends a subscriber; a full queue does not.
    pub open spec fn after(self, outcome: SendOutcome) -> SubscriberState {
        match self {
            SubscriberState::Active => if outcome == SendOutcome::ConsumerGone {
                SubscriberState::Removed
            } else {
                SubscriberState::Active
            },
            SubscriberState::Removed => SubscriberState::Removed,
        }
    }

    /// Whether a payload whose enqueue attempt would end in `outcome` reaches
    /// a subscriber in this state.
    pub open spec fn receives(self, outcome: SendOutcome) -> bool {
        self == SubscriberState::Active && outcome == SendOutcome::Delivered
    }

    /// The state after the enqueue attempts that ended in `outcomes`, in
    /// their order, starting from `self`.
    pub open spec fn after_all(self, outcomes: Seq<SendOutcome>) -> SubscriberState
        decreases outcomes.len(),
    {
        if outcomes.len() == 0 {
            self
        } else {
            self.after_all(outcomes.drop_last()).after(outcomes.last())
        }
    }

    /// The state after an enqueue attempt ended in `outcome`.
    pub fn advance(self, outcome: SendOutcome) -> (next: SubscriberState)
        ensures
            next == self.after(outcome),
    {
        match self {
            SubscriberState::Active => match outcome {
                SendOutcome::ConsumerGone => SubscriberState::Removed,
                _ => SubscriberState::Active,
            },
            SubscriberState::Removed => SubscriberState::Removed,
        }
    }
}

/// Whether the subscriber at position `i` leaves the list in a pass with
/// these outcomes. A subscriber without an outcome was not tried and stays.
pub open spec fn gone_at(outcomes: Seq<SendOutcome>, i: int) -> bool {
    0 <= i < outcomes.len() && SubscriberState::Active.after(outcomes[i])
        == SubscriberState::Removed
}

/// The subscribers from position `from` on that a pass with these outcomes
/// leaves in the list, in their order.
pub open spec fn survivors_from<T>(subscribers: Seq<T>, outcomes: Seq<SendOutcome>, from: int) -> Seq<T>
    decreases subscribers.len() - from,
{
    if from < 0 || from >= subscribers.len() {
        Seq::empty()
    } else if gone_at(outcomes, from) {
        survivors_from(subscribers, outcomes, from + 1)
    } else {
        seq![subscribers[from]] + survivors_from(subscribers, outcomes, from + 1)
    }
}

/// The list of subscribers after a fan-out pass in which the attempt for the
/// subscriber at position `i` ended in `outcomes[i]`.
pub open spec fn survivors<T>(subscribers: Seq<T>, outcomes: Seq<SendOutcome>) -> Seq<T> {
    survivors_from(subscribers, outcomes, 0)
}

/// The number of subscribers before position `i` that a pass with these
/// outcomes leaves in the list.
pub open spec fn live_before(outcomes: Seq<SendOutcome>, i: int) -> nat
    decreases i,
{
    if i <= 0 {
        0
    } else if gone_at(outcomes, i - 1) {
        live_before(outcomes, i - 1)
    } else {
        live_before(outcomes, i - 1) + 1
    }
}

/// Takes out of `subscribers` those whose enqueue attempt found the consumer
/// gone, and leaves the others as they stand.
pub fn retain_live<T>(subscribers: &mut Vec<T>, outcomes: &Vec<SendOutcome>)
    ensures
        final(subscribers)@ == survivors(old(subscribers)@, outcomes@),
{
    let mut i: usize = subscribers.len();
    while i > 0
        invariant
            i <= old(subscribers)@.len(),
            subscribers@ == old(subscribers)@.take(i as int) + survivors_from(
                old(subscribers)@,
                outcomes@,
                i as int,
            ),
        decreases i,
    {
        i -= 1;
        let gone = i < outcomes.len() && match SubscriberState::Active.advance(outcomes[i]) {
            SubscriberState::Removed => true,
            SubscriberState::Active => false,
        };
        if gone {
            subscribers.remove(i);
        }
    }
}

/// Further on in the list, no fewer subscribers stay behind a position.
proof fn lemma_live_before_grows(outcomes: Seq<SendOutcome>, i: int, j: int)
    requires
        0 <= i <= j,
    ensures
        live_before(outcomes, i) <= live_before(outcomes, j),
        i < j && !gone_at(outcomes, i) ==> live_before(outcomes, i) < live_before(outcomes, j),
    decreases j - i,
{
    if i < j {
        lemma_live_before_grows(outcomes, i, j - 1);
    }
}

/// Where the subscriber at position `i` stands among the survivors from
/// `from` on.
proof fn lemma_survivor_position<T>(
    subscribers: Seq<T>,
    outcomes: Seq<SendOutcome>,
    from: int,
    i: int,
)
    requires
        0 <= from <= i < subscribers.len(),
        !gone_at(outcomes, i),
    ensures
        live_before(outcomes, i) - live_before(outcomes, from) < survivors_from(
            subscribers,
            outcomes,
            from,
        ).len(),
        survivors_from(subscribers, outcomes, from)[live_before(outcomes, i) - live_before(
            outcomes,
            from,
        )] == subscribers[i],
    decreases i - from,
{
    if from < i {
        lemma_survivor_position(subscribers, outcomes, from + 1, i);
        lemma_live_before_grows(outcomes, from + 1, i);
    }
}

/// How many subscribers survive from `from` on.
proof fn lemma_survivor_count<T>(subscribers: Seq<T>, outcomes: Seq<SendOutcome>, from: int)
    requires
        0 <= from <= subscribers.len(),
    ensures
        survivors_from(subscribers, outcomes, from).len() == live_before(
            outcomes,
            subscribers.len() as int,
        ) - live_before(outcomes, from),
    decreases subscribers.len() - from,
{
    if from < subscribers.len() {
        lemma_survivor_count(subscribers, outcomes, from + 1);
    }
}

/// In a fan-out pass each subscriber is judged by its own attempt alone. One
/// whose consumer is not gone stays in the list, whether the payload went
/// into its queue or was dropped, and whatever happened to the others: it
/// stands behind as many subscribers as stay of those that stood before it.
pub proof fn law_fan_out_judges_each_subscriber_alone<T>(
    subscribers: Seq<T>,
    outcomes: Seq<SendOutcome>,
    i: int,
)
    requires
        outcomes.len() == subscribers.len(),
        0 <= i < subscribers.len(),
        outcomes[i] != SendOutcome::ConsumerGone,
    ensures
        live_before(outcomes, i) < survivors(subscribers, outcomes).len(),
        survivors(subscribers, outcomes)[live_before(outcomes, i) as int] == subscribers[i],
{
    lemma_survivor_position(subscribers, outcomes, 0, i);
}

/// The subscribers that stay after a fan-out pass keep the order that they
/// had, and there are as many of them as attempts that did not find the
/// consumer gone.
pub proof fn law_fan_out_keeps_order<T>(
    subscribers: Seq<T>,
    outcomes: Seq<SendOutcome>,
    i: int,
    j: int,
)
    requires
        outcomes.len() == subscribers.len(),
        0 <= i < j < subscribers.len(),
        outcomes[i] != SendOutcome::ConsumerGone,
        outcomes[j] != SendOutcome::ConsumerGone,
    ensures
        live_before(outcomes, i) < live_before(outcomes, j) < survivors(subscribers, outcomes).len()
            == live_before(outcomes, subscribers.len() as int),
        survivors(subscribers, outcomes)[live_before(outcomes, i) as int] == subscribers[i],
        survivors(subscribers, outcomes)[live_before(outcomes, j) as int] == subscribers[j],
{
    lemma_survivor_count(subscribers, outcomes, 0);
    lemma_survivor_position(subscribers, outcomes, 0, i);
    lemma_survivor_position(subscribers, outcomes, 0, j);
    lemma_live_before_grows(outcomes, i, j);
}

/// Where no consumer is gone, every subscriber from `from` on survives.
proof fn lemma_all_survive<T>(subscribers: Seq<T>, outcomes: Seq<SendOutcome>, from: int)
    requires
        0 <= from <= subscribers.len(),
        forall|k: int| 0 <= k < outcomes.len() ==> outcomes[k] != SendOutcome::ConsumerGone,
    ensures
        survivors_from(subscribers, outcomes, from) == subscribers.subrange(
            from,
            subscribers.len() as int,
        ),
    decreases subscribers.len() - from,
{
    if from < subscribers.len() {
        lemma_all_survive(subscribers, outcomes, from + 1);
    }
}

/// A full queue is no reason to remove a subscriber: a fan-out pass in which
/// no consumer is found gone leaves the list as it was, however many payloads
/// were dropped. In any pass, as many subscribers stay as attempts did not
/// find the consumer gone.
pub proof fn law_fan_out_removes_only_the_gone<T>(subscribers: Seq<T>, outcomes: Seq<SendOutcome>)
    requires
        outcomes.len() == subscribers.len(),
    ensures
        survivors(subscribers, outcomes).len() == live_before(outcomes, subscribers.len() as int),
        (forall|k: int| 0 <= k < outcomes.len() ==> outcomes[k] != SendOutcome::ConsumerGone)
            ==> survivors(subscribers, outcomes) == subscribers,
{
    lemma_survivor_count(subscribers, outcomes, 0);
    if forall|k: int| 0 <= k < outcomes.len() ==> outcomes[k] != SendOutcome::ConsumerGone {
        lemma_all_survive(subscribers, outcomes, 0);
    }
}

/// While the consumer of a subscriber has not been found gone, a payload
/// reaches the subscriber if and only if its own queue takes it: payloads
/// that its queue refused before take nothing from it.
pub proof fn law_active_subscriber_receives_what_its_queue_takes(
    earlier: Seq<SendOutcome>,
    outcome: SendOutcome,
)
    requires
        forall|k: int| 0 <= k < earlier.len() ==> earlier[k] != SendOutcome::ConsumerGone,
    ensures
        SubscriberState::Active.after_all(earlier) == SubscriberState::Active,
        SubscriberState::Active.after_all(earlier).receives(outcome) <==> outcome
            == SendOutcome::Delivered,
    decreases earlier.len(),
{
    if earlier.len() > 0 {
        law_active_subscriber_receives_what_its_queue_takes(earlier.drop_last(), outcome);
    }
}

/// A subscriber whose consumer was once found gone is removed for good:
/// nothing reaches it afterwards, not even a payload that its queue would
/// take.
pub proof fn law_removed_subscriber_receives_nothing(
    earlier: Seq<SendOutcome>,
    k: int,
    outcome: SendOutcome,
)
    requires
        0 <= k < earlier.len(),
        earlier[k] == SendOutcome::ConsumerGone,
    ensures
        SubscriberState::Active.after_all(earlier) == SubscriberState::Removed,
        !SubscriberState::Active.after_all(earlier).receives(outcome),
    decreases earlier.len(),
{
    if k < earlier.len() - 1 {
        law_removed_subscriber_receives_nothing(earlier.drop_last(), k, outcome);
    }
}

} // verus!
