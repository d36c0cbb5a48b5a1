use accord::{AcquireOutcome, HandlePool, ReleaseOutcome, TransportHandle};

fn must_grant(outcome: AcquireOutcome) -> TransportHandle {
    match outcome {
        AcquireOutcome::Granted(h) => h,
        AcquireOutcome::MustWait => panic!("expected a granted handle"),
    }
}

fn check_counts(pool: &HandlePool, idle: usize, busy: usize) {
    assert_eq!(pool.idle_count(), idle);
    assert_eq!(pool.busy_count(), busy);
    assert!(pool.idle_count() + pool.busy_count() <= pool.capacity());
}

#[test]
fn pool_grows_lazily_to_capacity() {
    let mut pool = HandlePool::new(2);
    check_counts(&pool, 0, 0);

    let a = must_grant(pool.acquire(1));
    check_counts(&pool, 0, 1);
    let b = must_grant(pool.acquire(2));
    check_counts(&pool, 0, 2);
    assert_ne!(a.id(), b.id());

    match pool.acquire(3) {
        AcquireOutcome::MustWait => {}
        AcquireOutcome::Granted(_) => panic!("an exhausted pool must queue the caller"),
    }
    assert_eq!(pool.waiting_count(), 1);
}

#[test]
fn pool_invariant_through_interleavings() {
    let mut pool = HandlePool::new(3);
    let a = must_grant(pool.acquire(1));
    check_counts(&pool, 0, 1);
    let b = must_grant(pool.acquire(2));
    check_counts(&pool, 0, 2);
    assert_ne!(a.id(), b.id());

    match pool.release(a) {
        ReleaseOutcome::Idled => {}
        ReleaseOutcome::HandedOff(..) => panic!("nobody was waiting"),
    }
    check_counts(&pool, 1, 1);

    // The reused handle is never one still held by another caller.
    let c = must_grant(pool.acquire(3));
    check_counts(&pool, 0, 2);
    assert_ne!(c.id(), b.id());

    let d = must_grant(pool.acquire(4));
    check_counts(&pool, 0, 3);
    assert_ne!(d.id(), b.id());
    assert_ne!(d.id(), c.id());

    for h in [b, c, d] {
        match pool.release(h) {
            ReleaseOutcome::Idled => {}
            ReleaseOutcome::HandedOff(..) => panic!("nobody was waiting"),
        }
    }
    check_counts(&pool, 3, 0);
}

#[test]
fn waiters_are_served_in_arrival_order() {
    let mut pool = HandlePool::new(1);
    let held = must_grant(pool.acquire(10));

    // A, B, C queue in this order against the exhausted pool.
    for caller in [11, 12, 13] {
        match pool.acquire(caller) {
            AcquireOutcome::MustWait => {}
            AcquireOutcome::Granted(_) => panic!("capacity 1 pool cannot grant twice"),
        }
    }
    assert_eq!(pool.waiting_count(), 3);

    // Each release serves exactly the earliest remaining waiter.
    let first = match pool.release(held) {
        ReleaseOutcome::HandedOff(who, h) => {
            assert_eq!(who, 11);
            h
        }
        ReleaseOutcome::Idled => panic!("a waiter was queued"),
    };
    let second = match pool.release(first) {
        ReleaseOutcome::HandedOff(who, h) => {
            assert_eq!(who, 12);
            h
        }
        ReleaseOutcome::Idled => panic!("a waiter was queued"),
    };
    let third = match pool.release(second) {
        ReleaseOutcome::HandedOff(who, h) => {
            assert_eq!(who, 13);
            h
        }
        ReleaseOutcome::Idled => panic!("a waiter was queued"),
    };
    match pool.release(third) {
        ReleaseOutcome::Idled => {}
        ReleaseOutcome::HandedOff(..) => panic!("the queue was drained"),
    }
    assert_eq!(pool.waiting_count(), 0);
    check_counts(&pool, 1, 0);
}

#[test]
fn cancelled_waiter_is_skipped() {
    let mut pool = HandlePool::new(1);
    let held = must_grant(pool.acquire(10));
    for caller in [11, 12] {
        match pool.acquire(caller) {
            AcquireOutcome::MustWait => {}
            AcquireOutcome::Granted(_) => panic!("capacity 1 pool cannot grant twice"),
        }
    }

    assert!(pool.cancel_wait(11));
    assert!(!pool.cancel_wait(11));
    assert_eq!(pool.waiting_count(), 1);

    // The handle is not lost: it goes to the next waiter.
    match pool.release(held) {
        ReleaseOutcome::HandedOff(who, _) => assert_eq!(who, 12),
        ReleaseOutcome::Idled => panic!("a waiter was still queued"),
    }
}
