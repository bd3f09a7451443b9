use pinned_sync::{Arrival, Barrier, BarrierWaitResult, Ticket};

fn ticket(arrival: Arrival) -> Ticket {
    match arrival {
        Arrival::Parked(ticket) => ticket,
        Arrival::Released(result) => panic!("left the barrier: {:?}", result),
    }
}

fn result(arrival: Arrival) -> BarrierWaitResult {
    match arrival {
        Arrival::Released(result) => result,
        Arrival::Parked(_) => panic!("still asleep at the barrier"),
    }
}

#[test]
fn barrier_of_one_always_leads() {
    let mut b = Barrier::boxed(1);
    for _ in 0..5 {
        assert!(result(b.wait()).is_leader());
        assert_eq!(b.arrived(), 0);
    }
}

#[test]
fn barrier_of_none_always_leads() {
    let mut b = Barrier::boxed(0);
    assert!(result(b.wait()).is_leader());
    assert_eq!(b.arrived(), 0);
}

#[test]
fn barrier_uninit_then_init() {
    let mut b = Barrier::uninit(3);
    assert!(b.is_uninit());
    assert!(!b.is_ready());
    b.init();
    assert!(!b.is_uninit());
    assert!(b.is_ready());
    let shared = Barrier::arc(3);
    assert!(shared.is_ready());
    assert_eq!(shared.arrived(), 0);
}

#[test]
fn test_barrier() {
    const N: usize = 10;

    let mut barrier = Barrier::boxed(N);

    // N - 1 threads arrive and sleep: none of them gets through.
    let mut sleepers = Vec::new();
    for i in 0..N - 1 {
        sleepers.push(ticket(barrier.wait()));
        assert_eq!(barrier.arrived(), i + 1);
    }
    // A wake-up for no reason changes nothing.
    let sleepers: Vec<Ticket> = sleepers.into_iter().map(|t| ticket(barrier.resume(t))).collect();
    assert_eq!(barrier.arrived(), N - 1);

    // The last arrival leads and resets the count.
    let mut leader_found = result(barrier.wait()).is_leader();
    assert!(leader_found);
    assert_eq!(barrier.arrived(), 0);

    // Now the others leave, and none of them is the leader.
    for t in sleepers {
        if result(barrier.resume(t)).is_leader() {
            assert!(!leader_found);
            leader_found = true;
        }
    }
    assert!(leader_found);
}

#[test]
fn barrier_thousand_rounds() {
    const N: usize = 4;
    let mut barrier = Barrier::boxed(N);
    for _ in 0..1000 {
        let mut leaders = 0;
        let mut sleepers = Vec::new();
        for _ in 0..N {
            match barrier.wait() {
                Arrival::Released(r) => {
                    if r.is_leader() {
                        leaders += 1;
                    }
                }
                Arrival::Parked(t) => sleepers.push(t),
            }
        }
        assert_eq!(sleepers.len(), N - 1);
        for t in sleepers {
            if result(barrier.resume(t)).is_leader() {
                leaders += 1;
            }
        }
        assert_eq!(leaders, 1);
        assert_eq!(barrier.arrived(), 0);
        assert!(barrier.is_ready());
    }
}

#[test]
fn late_sleeper_does_not_join_the_next_round() {
    let mut b = Barrier::boxed(2);
    let first = ticket(b.wait());
    assert!(result(b.wait()).is_leader());
    // Before the first sleeper has woken, the next round begins.
    let second = ticket(b.wait());
    assert_eq!(b.arrived(), 1);
    // The sleeper of the round that is over leaves; the new one sleeps on.
    assert_eq!(result(b.resume(first)), BarrierWaitResult(false));
    let second = ticket(b.resume(second));
    assert!(result(b.wait()).is_leader());
    assert_eq!(result(b.resume(second)), BarrierWaitResult(false));
}
