use std::sync::Arc;

use cloud_console::subscriber::retain_live;
use cloud_console::{
    ConsoleMux, Replay, SendOutcome, SubscriberRegistry, SubscriberState, CONNECTION_BUFFER,
};
use tokio::sync::mpsc;
use tokio::sync::mpsc::error::TryRecvError;

fn drain(rx: &mut mpsc::Receiver<Arc<Vec<u8>>>) -> Vec<Vec<u8>> {
    let mut got = Vec::new();
    while let Ok(payload) = rx.try_recv() {
        got.push(payload.to_vec());
    }
    got
}

#[test]
fn subscriber_state_follows_the_outcome() {
    let active = SubscriberState::Active;
    let removed = SubscriberState::Removed;
    assert_eq!(active.advance(SendOutcome::Delivered), SubscriberState::Active);
    assert_eq!(active.advance(SendOutcome::DroppedQueueFull), SubscriberState::Active);
    assert_eq!(active.advance(SendOutcome::ConsumerGone), SubscriberState::Removed);
    assert_eq!(removed.advance(SendOutcome::Delivered), SubscriberState::Removed);
    assert_eq!(removed.advance(SendOutcome::DroppedQueueFull), SubscriberState::Removed);
    assert_eq!(removed.advance(SendOutcome::ConsumerGone), SubscriberState::Removed);
}

#[test]
fn retain_live_takes_out_the_gone_and_keeps_the_order() {
    let mut subscribers = vec![10, 20, 30, 40, 50];
    let outcomes = vec![
        SendOutcome::ConsumerGone,
        SendOutcome::Delivered,
        SendOutcome::ConsumerGone,
        SendOutcome::DroppedQueueFull,
        SendOutcome::Delivered,
    ];
    retain_live(&mut subscribers, &outcomes);
    assert_eq!(subscribers, vec![20, 40, 50]);
}

#[test]
fn retain_live_keeps_everyone_when_queues_are_only_full() {
    let mut subscribers = vec!["a", "b", "c"];
    let outcomes = vec![
        SendOutcome::DroppedQueueFull,
        SendOutcome::DroppedQueueFull,
        SendOutcome::Delivered,
    ];
    retain_live(&mut subscribers, &outcomes);
    assert_eq!(subscribers, vec!["a", "b", "c"]);
}

#[test]
fn retain_live_keeps_subscribers_without_an_outcome() {
    let mut subscribers = vec![1, 2, 3, 4];
    let outcomes = vec![SendOutcome::ConsumerGone, SendOutcome::ConsumerGone];
    retain_live(&mut subscribers, &outcomes);
    assert_eq!(subscribers, vec![3, 4]);

    let mut nobody: Vec<u8> = Vec::new();
    retain_live(&mut nobody, &vec![SendOutcome::ConsumerGone]);
    assert!(nobody.is_empty());
}

#[test]
fn fan_out_without_subscribers_reports_nothing() {
    let mut registry = SubscriberRegistry::new();
    assert!(registry.is_empty());
    assert_eq!(registry.fan_out(b"hello"), Vec::<SendOutcome>::new());
    assert_eq!(registry.len(), 0);
}

#[test]
fn fan_out_hands_the_payload_to_every_queue() {
    let mut registry = SubscriberRegistry::new();
    let (tx1, mut rx1) = mpsc::channel(4);
    let (tx2, mut rx2) = mpsc::channel(4);
    registry.register(tx1);
    registry.register(tx2);
    assert_eq!(registry.len(), 2);

    let outcomes = registry.fan_out(b"one");
    assert_eq!(outcomes, vec![SendOutcome::Delivered, SendOutcome::Delivered]);
    let outcomes = registry.fan_out(b"two");
    assert_eq!(outcomes, vec![SendOutcome::Delivered, SendOutcome::Delivered]);

    assert_eq!(drain(&mut rx1), vec![b"one".to_vec(), b"two".to_vec()]);
    assert_eq!(drain(&mut rx2), vec![b"one".to_vec(), b"two".to_vec()]);
}

#[test]
fn full_queue_drops_for_that_subscriber_only() {
    let mut mux = ConsoleMux::<32>::new();
    let (slow, mut slow_rx) = mpsc::channel(2);
    let (fast, mut fast_rx) = mpsc::channel(8);
    assert!(mux.attach_channel(Replay::Complete, slow));
    assert!(mux.attach_channel(Replay::Complete, fast));

    assert_eq!(mux.relay(b"a"), vec![SendOutcome::Delivered, SendOutcome::Delivered]);
    assert_eq!(mux.relay(b"b"), vec![SendOutcome::Delivered, SendOutcome::Delivered]);
    assert_eq!(mux.relay(b"c"), vec![SendOutcome::DroppedQueueFull, SendOutcome::Delivered]);
    assert_eq!(mux.relay(b"d"), vec![SendOutcome::DroppedQueueFull, SendOutcome::Delivered]);
    assert_eq!(mux.subscriber_count(), 2);

    assert_eq!(slow_rx.try_recv().map(|p| p.to_vec()), Ok(b"a".to_vec()));
    assert_eq!(mux.relay(b"e"), vec![SendOutcome::Delivered, SendOutcome::Delivered]);

    assert_eq!(drain(&mut slow_rx), vec![b"b".to_vec(), b"e".to_vec()]);
    assert_eq!(
        drain(&mut fast_rx),
        vec![b"a".to_vec(), b"b".to_vec(), b"c".to_vec(), b"d".to_vec(), b"e".to_vec()]
    );
    assert_eq!(mux.subscriber_count(), 2);
}

#[test]
fn gone_consumer_is_removed_and_gets_nothing_more() {
    let mut mux = ConsoleMux::<32>::new();
    let (first, mut first_rx) = mpsc::channel(4);
    let (second, second_rx) = mpsc::channel(4);
    let (third, mut third_rx) = mpsc::channel(4);
    let watcher = second.clone();
    mux.attach_channel(Replay::Complete, first);
    mux.attach_channel(Replay::Complete, second);
    mux.attach_channel(Replay::Complete, third);

    assert_eq!(mux.relay(b"x").len(), 3);
    drop(second_rx);
    assert_eq!(
        mux.relay(b"y"),
        vec![SendOutcome::Delivered, SendOutcome::ConsumerGone, SendOutcome::Delivered]
    );
    assert_eq!(mux.subscriber_count(), 2);
    assert!(watcher.is_closed());

    assert_eq!(mux.relay(b"z"), vec![SendOutcome::Delivered, SendOutcome::Delivered]);
    assert_eq!(mux.subscriber_count(), 2);
    assert_eq!(drain(&mut first_rx), vec![b"x".to_vec(), b"y".to_vec(), b"z".to_vec()]);
    assert_eq!(drain(&mut third_rx), vec![b"x".to_vec(), b"y".to_vec(), b"z".to_vec()]);
}

#[test]
fn write_data_relays_and_removes_like_relay() {
    let mut mux = ConsoleMux::<8>::new();
    let (tx, mut rx) = mpsc::channel(4);
    let (gone, gone_rx) = mpsc::channel(4);
    mux.attach_channel(Replay::Complete, gone);
    mux.attach_channel(Replay::Complete, tx);
    drop(gone_rx);

    mux.write_data(b"abc");
    assert_eq!(mux.subscriber_count(), 1);
    mux.write_data(b"defghijkl");
    assert_eq!(mux.subscriber_count(), 1);

    assert_eq!(drain(&mut rx), vec![b"abc".to_vec(), b"defghijkl".to_vec()]);
    assert_eq!(mux.snapshot(), b"efghijkl".to_vec());
    assert_eq!(rx.try_recv(), Err(TryRecvError::Empty));
}

#[test]
fn payload_is_the_whole_write_even_when_the_ring_keeps_less() {
    let mut mux = ConsoleMux::<4>::new();
    let (tx, mut rx) = mpsc::channel(2);
    mux.attach_channel(Replay::Complete, tx);
    assert_eq!(mux.relay(b"0123456789"), vec![SendOutcome::Delivered]);
    assert_eq!(drain(&mut rx), vec![b"0123456789".to_vec()]);
    assert_eq!(mux.snapshot(), b"6789".to_vec());
}

#[test]
fn one_write_too_many_is_dropped_and_the_subscriber_stays() {
    let mut mux = ConsoleMux::<64>::new();
    let mut rx = mux.attach_remote(Replay::Complete).expect("the replay is complete");
    assert_eq!(rx.max_capacity(), CONNECTION_BUFFER);
    assert_eq!(CONNECTION_BUFFER, 1000);
    assert_eq!(mux.subscriber_count(), 1);

    for i in 0..CONNECTION_BUFFER {
        let outcomes = mux.relay(&[(i % 256) as u8]);
        assert_eq!(outcomes, vec![SendOutcome::Delivered]);
    }
    let outcomes = mux.relay(&[0xff]);
    assert_eq!(outcomes, vec![SendOutcome::DroppedQueueFull]);
    assert_eq!(mux.subscriber_count(), 1);

    let got = drain(&mut rx);
    assert_eq!(got.len(), CONNECTION_BUFFER);
    for (i, payload) in got.iter().enumerate() {
        assert_eq!(payload, &vec![(i % 256) as u8]);
    }
    assert_eq!(rx.try_recv(), Err(TryRecvError::Empty));
    assert_eq!(mux.subscriber_count(), 1);
}

#[test]
fn registry_makes_queues_of_the_connection_buffer() {
    let mut registry = SubscriberRegistry::new();
    let mut first = registry.register_queue();
    let mut second = registry.register_queue();
    assert_eq!(registry.len(), 2);
    assert_eq!(first.max_capacity(), CONNECTION_BUFFER);
    assert_eq!(second.max_capacity(), CONNECTION_BUFFER);

    assert_eq!(registry.fan_out(b"hi"), vec![SendOutcome::Delivered, SendOutcome::Delivered]);
    assert_eq!(drain(&mut first), vec![b"hi".to_vec()]);
    assert_eq!(drain(&mut second), vec![b"hi".to_vec()]);

    drop(first);
    assert_eq!(registry.fan_out(b"ho"), vec![SendOutcome::ConsumerGone, SendOutcome::Delivered]);
    assert_eq!(registry.len(), 1);
    assert_eq!(drain(&mut second), vec![b"ho".to_vec()]);
}
