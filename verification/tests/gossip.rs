use data_aggregation::peer::{normalize_address, Connections, PeerState};
use data_aggregation::poisson::{Poisson, TickOutcome};
use data_aggregation::queue::{PeerQueue, SendError};
use data_aggregation::value::{midpoint, VALUE_BOUND};

#[test]
fn midpoint_concrete_values() {
    assert_eq!(midpoint(10, 20), 15);
    assert_eq!(midpoint(20, 10), 15);
    assert_eq!(midpoint(0, 100), 50);
    assert_eq!(midpoint(-3, -4), -3);
    assert_eq!(midpoint(-5, 0), -2);
    assert_eq!(midpoint(VALUE_BOUND, VALUE_BOUND), VALUE_BOUND);
    assert_eq!(midpoint(-VALUE_BOUND, -VALUE_BOUND), -VALUE_BOUND);
}

#[test]
fn exchange_symmetry_two_peers() {
    // Peer A holds 10 and invokes an exchange on peer B, which holds 20.
    let mut a = PeerState::new(10, "127.0.0.1:5001");
    let mut b = PeerState::new(20, "127.0.0.1:5002");

    // B answers its pre-update value and moves to the midpoint.
    let prior = b.send_value_request(a.value);
    assert_eq!(prior, 20);
    assert_eq!(b.value, 15);

    // A merges the answered pre-update value and lands on the same midpoint.
    a.merge_response(prior);
    assert_eq!(a.value, 15);
}

#[test]
fn single_exchange_zero_and_hundred() {
    let mut a = PeerState::new(0, "127.0.0.1:5001");
    let mut b = PeerState::new(100, "127.0.0.1:5002");

    let prior = b.send_value_request(a.value);
    assert_eq!(prior, 100);
    assert_eq!(b.value, 50);

    a.merge_response(prior);
    assert_eq!(a.value, 50);
}

#[test]
fn four_peers_reach_the_mean() {
    // Pairwise exchanges with even sums are exact, so this population
    // reaches its arithmetic mean in two rounds.
    let mut first = PeerState::new(0, "127.0.0.1:5000");
    let mut second = PeerState::new(40, "127.0.0.1:5001");
    let mut third = PeerState::new(80, "127.0.0.1:5002");
    let mut fourth = PeerState::new(120, "127.0.0.1:5003");

    let prior = fourth.send_value_request(first.value);
    first.merge_response(prior);
    let prior = third.send_value_request(second.value);
    second.merge_response(prior);

    assert_eq!(first.value, 60);
    assert_eq!(second.value, 60);
    assert_eq!(third.value, 60);
    assert_eq!(fourth.value, 60);
}

#[test]
fn registry_lookup_and_unknown_peer() {
    let mut c = Connections::new();
    let absent = String::from("127.0.0.1:6000");
    assert!(c.lookup(&absent).is_none());
    assert_eq!(c.send_value_to(7, &absent), Err(SendError::UnknownPeer));

    c.register(absent.clone(), PeerQueue::new());
    let q = c.lookup(&absent).expect("registered peer must be found");
    assert!(q.items.is_empty());
    assert!(!q.closed);
}

#[test]
fn registry_register_overwrites() {
    let mut c = Connections::new();
    let addr = String::from("127.0.0.1:6000");

    let mut first = PeerQueue::new();
    assert_eq!(first.try_enqueue(41), Ok(()));
    c.register(addr.clone(), first);
    assert_eq!(c.snapshot().len(), 1);

    // Re-registering the same address replaces the entry instead of
    // adding a second one.
    c.register(addr.clone(), PeerQueue::new());
    assert_eq!(c.snapshot().len(), 1);
    let q = c.lookup(&addr).expect("registered peer must be found");
    assert!(q.items.is_empty());
}

#[test]
fn snapshot_shows_whole_entries_only() {
    let mut c = Connections::new();
    let addr = String::from("127.0.0.1:6000");

    let before = c.snapshot();
    assert!(!before.contains(&addr));

    c.register(addr.clone(), PeerQueue::new());

    // After the registration the snapshot holds the entry wholly: the
    // address appears and its queue is present and usable.
    let after = c.snapshot();
    assert_eq!(after, vec![addr.clone()]);
    assert_eq!(c.send_value_to(5, &addr), Ok(()));
}

#[test]
fn backpressure_no_value_is_lost() {
    let mut q = PeerQueue::new();

    // The first value occupies the single slot; the second is rejected
    // loudly, and the first is still there.
    assert_eq!(q.try_enqueue(1), Ok(()));
    assert_eq!(q.try_enqueue(2), Err(SendError::QueueFull));
    assert_eq!(q.len(), 1);

    // Once the consumer drains the slot, the sender can proceed; the
    // values come out in order and none is dropped.
    assert_eq!(q.dequeue(), Some(1));
    assert_eq!(q.try_enqueue(2), Ok(()));
    assert_eq!(q.dequeue(), Some(2));
    assert_eq!(q.dequeue(), None);
}

#[test]
fn take_from_drains_the_registered_queue() {
    let mut c = Connections::new();
    let addr = String::from("127.0.0.1:6000");
    let other = String::from("127.0.0.1:7000");

    assert_eq!(c.take_from(&addr), None);

    c.register(addr.clone(), PeerQueue::new());
    assert_eq!(c.send_value_to(11, &addr), Ok(()));
    assert_eq!(c.take_from(&other), None);
    assert_eq!(c.take_from(&addr), Some(11));
    assert_eq!(c.take_from(&addr), None);
}

#[test]
fn close_peer_makes_later_sends_fail() {
    let mut c = Connections::new();
    let addr = String::from("127.0.0.1:6000");
    c.register(addr.clone(), PeerQueue::new());

    c.close_peer(&addr);
    // The entry stays registered, so the failure names the closed queue,
    // not an unknown peer.
    assert_eq!(c.snapshot().len(), 1);
    assert_eq!(c.send_value_to(3, &addr), Err(SendError::QueueClosed));
}

#[test]
fn closed_queue_rejects_sends() {
    let mut q = PeerQueue::new();
    q.close();
    assert_eq!(q.try_enqueue(9), Err(SendError::QueueClosed));
    assert_eq!(q.len(), 0);
}

#[test]
fn sequential_sends_arrive_in_order() {
    let mut q = PeerQueue::new();
    let mut delivered = Vec::new();
    for v in [3_i64, 1, 4, 1, 5] {
        assert_eq!(q.try_enqueue(v), Ok(()));
        // A slow consumer drains the single slot before the next send.
        delivered.push(q.dequeue().expect("queued value must come out"));
    }
    assert_eq!(delivered, vec![3, 1, 4, 1, 5]);
}

#[test]
fn idle_tick_on_empty_registry() {
    let mut peer = PeerState::new(42, "127.0.0.1:5000");
    let mut process = Poisson::new([7u8; 32]);

    // An empty registry means no selection and no fault, and the
    // scheduler simply waits again: a later tick behaves the same.
    assert_eq!(process.tick(&mut peer), TickOutcome::Idle);
    assert_eq!(peer.value, 42);
    assert_eq!(process.tick(&mut peer), TickOutcome::Idle);
    assert_eq!(peer.value, 42);
}

#[test]
fn tick_queues_the_local_value() {
    let mut peer = PeerState::new(42, "127.0.0.1:5000");
    let addr = String::from("127.0.0.1:6000");
    peer.connections.register(addr.clone(), PeerQueue::new());
    let mut process = Poisson::new([7u8; 32]);

    assert_eq!(process.tick(&mut peer), TickOutcome::Sent(0));
    {
        let q = peer.connections.lookup(&addr).expect("peer is registered");
        assert_eq!(q.items, vec![42]);
    }

    // The slot is still occupied, so the next tick reports the saturated
    // queue instead of dropping a value.
    assert_eq!(
        process.tick(&mut peer),
        TickOutcome::Rejected(0, SendError::QueueFull)
    );
}

#[test]
fn exponential_waits_are_nonnegative() {
    let mut process = Poisson::new([3u8; 32]);
    let rate = 2.0_f64;
    for _ in 0..1000 {
        let bits = process.next_event_bits();
        // The embedding turns the 64 raw bits into a uniform sample of
        // [0, 1) and inverts the exponential distribution's CDF.
        let u = (bits >> 11) as f64 / (1u64 << 53) as f64;
        assert!(0.0 <= u && u < 1.0);
        let wait = -(1.0 - u).ln() / rate;
        assert!(wait >= 0.0);
    }
}

#[test]
fn send_error_descriptions() {
    assert_eq!(
        SendError::UnknownPeer.describe(),
        "Couldn't find the peer with the address given"
    );
    assert_eq!(SendError::QueueFull.describe(), "The peer's queue is full");
    assert_eq!(SendError::QueueClosed.describe(), "The peer's queue is closed");
}

#[test]
fn normalize_address_fills_in_scheme() {
    assert_eq!(normalize_address("http://127.0.0.1:5000"), "http://127.0.0.1:5000");
    assert_eq!(normalize_address("https://example"), "https://example");
    assert_eq!(normalize_address("127.0.0.1:5000"), "http://127.0.0.1:5000");
}
