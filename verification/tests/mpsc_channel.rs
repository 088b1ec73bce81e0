use sync_toolkit::channel::{Channel, RecvAttempt, SendAttempt};

#[test]
fn values_are_received_in_acceptance_order() {
    let mut c = Channel::unbounded();
    assert!(matches!(c.try_send(1), SendAttempt::Accepted));
    assert!(matches!(c.try_send(2), SendAttempt::Accepted));
    assert!(matches!(c.try_send(3), SendAttempt::Accepted));
    assert!(matches!(c.try_recv(), RecvAttempt::Received(1)));
    assert!(matches!(c.try_recv(), RecvAttempt::Received(2)));
    assert!(matches!(c.try_recv(), RecvAttempt::Received(3)));
    assert!(matches!(c.try_recv(), RecvAttempt::Empty));
}

#[test]
fn recv_reports_closed_once_senders_are_gone_and_buffer_drained() {
    let mut c = Channel::unbounded();
    assert!(matches!(c.try_send(10), SendAttempt::Accepted));
    c.drop_sender();
    // The buffered value is still delivered; only then is the channel closed.
    assert!(matches!(c.try_recv(), RecvAttempt::Received(10)));
    assert!(matches!(c.try_recv(), RecvAttempt::Closed));
    assert!(matches!(c.try_recv(), RecvAttempt::Closed));
}

#[test]
fn cloned_senders_keep_the_channel_open() {
    let mut c = Channel::<u64>::unbounded();
    c.clone_sender();
    c.clone_sender();
    c.drop_sender();
    c.drop_sender();
    assert!(matches!(c.try_recv(), RecvAttempt::Empty));
    c.drop_sender();
    assert!(matches!(c.try_recv(), RecvAttempt::Closed));
}

#[test]
fn send_reports_closed_once_receiver_is_dropped() {
    let mut c = Channel::unbounded();
    c.drop_receiver();
    match c.try_send(String::from("late")) {
        SendAttempt::Closed(v) => assert_eq!(v, "late"),
        _ => panic!("a send to a dropped receiver must report closure"),
    }
}

#[test]
fn bounded_channel_fills_at_capacity_and_drains_in_order() {
    let mut c = Channel::bounded(1);
    assert!(matches!(c.try_send(1), SendAttempt::Accepted));
    // A second concurrent send waits until the first value is received.
    match c.try_send(2) {
        SendAttempt::Full(v) => assert_eq!(v, 2),
        _ => panic!("a full bounded buffer must reject the send for retry"),
    }
    assert!(matches!(c.try_recv(), RecvAttempt::Received(1)));
    assert!(matches!(c.try_send(2), SendAttempt::Accepted));
    assert!(matches!(c.try_recv(), RecvAttempt::Received(2)));
}

#[test]
fn rendezvous_send_completes_only_into_a_waiting_receive() {
    let mut c = Channel::bounded(0);
    // No receiver is waiting yet: the handoff cannot complete.
    match c.try_send(5) {
        SendAttempt::Full(v) => assert_eq!(v, 5),
        _ => panic!("a rendezvous send needs a waiting receiver"),
    }
    // The receiver parks; now one handoff completes, and only one.
    assert!(matches!(c.try_recv(), RecvAttempt::Empty));
    assert!(matches!(c.try_send(5), SendAttempt::Accepted));
    match c.try_send(6) {
        SendAttempt::Full(v) => assert_eq!(v, 6),
        _ => panic!("the handoff slot holds a single value"),
    }
    assert!(matches!(c.try_recv(), RecvAttempt::Received(5)));
}

#[test]
fn bounded_capacity_two_admits_two_pending_values() {
    let mut c = Channel::bounded(2);
    assert!(matches!(c.try_send('a'), SendAttempt::Accepted));
    assert!(matches!(c.try_send('b'), SendAttempt::Accepted));
    assert!(matches!(c.try_send('c'), SendAttempt::Full('c')));
    assert!(matches!(c.try_recv(), RecvAttempt::Received('a')));
    assert!(matches!(c.try_send('c'), SendAttempt::Accepted));
    assert!(matches!(c.try_recv(), RecvAttempt::Received('b')));
    assert!(matches!(c.try_recv(), RecvAttempt::Received('c')));
}

#[test]
fn interleaved_producers_share_one_acceptance_order() {
    let mut c = Channel::unbounded();
    c.clone_sender();
    // Two producers race; whatever the interleaving, delivery follows the
    // order in which the buffer accepted the values.
    assert!(matches!(c.try_send(100), SendAttempt::Accepted));
    assert!(matches!(c.try_send(200), SendAttempt::Accepted));
    assert!(matches!(c.try_send(101), SendAttempt::Accepted));
    assert!(matches!(c.try_recv(), RecvAttempt::Received(100)));
    assert!(matches!(c.try_recv(), RecvAttempt::Received(200)));
    assert!(matches!(c.try_recv(), RecvAttempt::Received(101)));
}
