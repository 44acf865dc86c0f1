use chess_bot::pool::{AcquireOutcome, HandleOutcome, ProcessPool, RecycleEffect};

#[test]
fn grants_up_to_capacity_then_queues_then_refuses() {
    let mut pool = ProcessPool::new(2, 1);
    let a = pool.acquire();
    assert_eq!(a, AcquireOutcome::Granted { id: 0, fresh: true });
    let b = pool.acquire();
    assert_eq!(b, AcquireOutcome::Granted { id: 1, fresh: true });
    // capacity reached: the third caller queues, the fourth is refused
    let c = pool.acquire();
    assert_eq!(c, AcquireOutcome::Queued { ticket: 0 });
    let d = pool.acquire();
    assert_eq!(d, AcquireOutcome::Exhausted);
}

#[test]
fn mutual_exclusion_under_excess_demand() {
    let n = 4usize;
    let k = 3usize;
    let mut pool = ProcessPool::new(n, 8);
    let mut granted = 0usize;
    let mut ids: Vec<u64> = Vec::new();
    for _ in 0..(n + k) {
        match pool.acquire() {
            AcquireOutcome::Granted { id, .. } => {
                granted += 1;
                assert!(!ids.contains(&id), "a handle was granted twice");
                ids.push(id);
            }
            AcquireOutcome::Queued { .. } | AcquireOutcome::Exhausted => {}
            AcquireOutcome::Closed => panic!("pool is not closed"),
        }
    }
    assert_eq!(granted, n);
}

#[test]
fn good_recycle_returns_handle_to_idle_set() {
    let mut pool = ProcessPool::new(1, 0);
    let a = pool.acquire();
    assert_eq!(a, AcquireOutcome::Granted { id: 0, fresh: true });
    let eff = pool.recycle(0, HandleOutcome::Good);
    assert_eq!(eff, RecycleEffect::Idled);
    // the same handle comes back, no fresh process needed
    let b = pool.acquire();
    assert_eq!(b, AcquireOutcome::Granted { id: 0, fresh: false });
}

#[test]
fn broken_handle_is_destroyed_and_replaced_lazily() {
    let mut pool = ProcessPool::new(1, 0);
    let a = pool.acquire();
    assert_eq!(a, AcquireOutcome::Granted { id: 0, fresh: true });
    // the handle crashed mid-search: destroy it
    let eff = pool.recycle(0, HandleOutcome::Broken);
    assert_eq!(eff, RecycleEffect::Destroyed);
    // recovery: the next acquire succeeds with a fresh replacement
    let b = pool.acquire();
    assert_eq!(b, AcquireOutcome::Granted { id: 1, fresh: true });
}

#[test]
fn waiters_wake_in_arrival_order() {
    let mut pool = ProcessPool::new(1, 2);
    assert_eq!(pool.acquire(), AcquireOutcome::Granted { id: 0, fresh: true });
    assert_eq!(pool.acquire(), AcquireOutcome::Queued { ticket: 0 });
    assert_eq!(pool.acquire(), AcquireOutcome::Queued { ticket: 1 });
    assert_eq!(pool.dequeue_waiter(), 0);
    assert_eq!(pool.dequeue_waiter(), 1);
}

#[test]
fn closed_pool_refuses_and_destroys() {
    let mut pool = ProcessPool::new(2, 2);
    assert_eq!(pool.acquire(), AcquireOutcome::Granted { id: 0, fresh: true });
    let eff = pool.recycle(0, HandleOutcome::Good);
    assert_eq!(eff, RecycleEffect::Idled);
    assert_eq!(pool.acquire(), AcquireOutcome::Granted { id: 0, fresh: false });
    let drained = pool.close();
    assert_eq!(drained, Vec::<u64>::new());
    assert_eq!(pool.acquire(), AcquireOutcome::Closed);
    // a handle still checked out at shutdown is destroyed, even when good
    let eff = pool.recycle(0, HandleOutcome::Good);
    assert_eq!(eff, RecycleEffect::Destroyed);
}

#[test]
fn zero_capacity_pool_never_grants() {
    let mut pool = ProcessPool::new(0, 1);
    assert_eq!(pool.acquire(), AcquireOutcome::Queued { ticket: 0 });
    assert_eq!(pool.acquire(), AcquireOutcome::Exhausted);
    let mut pool = ProcessPool::new(0, 0);
    assert_eq!(pool.acquire(), AcquireOutcome::Exhausted);
}

#[test]
fn close_drains_idle_handles() {
    let mut pool = ProcessPool::new(2, 0);
    assert_eq!(pool.acquire(), AcquireOutcome::Granted { id: 0, fresh: true });
    assert_eq!(pool.acquire(), AcquireOutcome::Granted { id: 1, fresh: true });
    pool.recycle(0, HandleOutcome::Good);
    pool.recycle(1, HandleOutcome::Good);
    let drained = pool.close();
    assert_eq!(drained, vec![0, 1]);
}
