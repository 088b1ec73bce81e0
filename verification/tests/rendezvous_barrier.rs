use sync_toolkit::barrier::{Arrival, RendezvousBarrier};

#[test]
fn nobody_passes_until_all_parties_arrive() {
    let mut b = RendezvousBarrier::create(3);
    let a1 = b.arrive();
    assert!(matches!(a1, Arrival::Pending(0)));
    assert!(!b.passed(0));
    let a2 = b.arrive();
    assert!(matches!(a2, Arrival::Pending(0)));
    assert!(!b.passed(0));
    let a3 = b.arrive();
    assert!(matches!(a3, Arrival::Leader));
    assert!(b.passed(0));
}

#[test]
fn barrier_is_reusable_for_a_second_round() {
    let mut b = RendezvousBarrier::create(3);
    assert!(matches!(b.arrive(), Arrival::Pending(0)));
    assert!(matches!(b.arrive(), Arrival::Pending(0)));
    assert!(matches!(b.arrive(), Arrival::Leader));

    // Second round, same barrier: fresh generation, nobody released early.
    assert!(matches!(b.arrive(), Arrival::Pending(1)));
    assert!(!b.passed(1));
    assert!(matches!(b.arrive(), Arrival::Pending(1)));
    assert!(!b.passed(1));
    assert!(matches!(b.arrive(), Arrival::Leader));
    assert!(b.passed(1));
}

#[test]
fn generation_tag_keeps_rounds_apart() {
    let mut b = RendezvousBarrier::create(2);
    assert!(matches!(b.arrive(), Arrival::Pending(0)));
    assert!(matches!(b.arrive(), Arrival::Leader));
    // A ticket of round zero is released, one of round one is not, even
    // though the arrival count has been reset to the same value as before.
    assert!(b.passed(0));
    assert!(matches!(b.arrive(), Arrival::Pending(1)));
    assert!(b.passed(0));
    assert!(!b.passed(1));
}

#[test]
fn single_party_barrier_releases_immediately() {
    let mut b = RendezvousBarrier::create(1);
    assert!(matches!(b.arrive(), Arrival::Leader));
    assert!(matches!(b.arrive(), Arrival::Leader));
    assert!(b.passed(1));
}

#[test]
fn exactly_one_leader_per_round() {
    let mut b = RendezvousBarrier::create(4);
    for round in 0..2u64 {
        let mut leaders: u32 = 0;
        for _ in 0..4 {
            match b.arrive() {
                Arrival::Leader => leaders += 1,
                Arrival::Pending(g) => assert_eq!(g, round),
            }
        }
        assert_eq!(leaders, 1);
    }
}
