use batch_kernel::spin::{LockError, SpinGuard, SpinLock};

#[test]
fn lock_unlock_cycles_repeat() {
    let mut l: SpinLock<u32> = SpinLock::new(5);
    for i in 0..100u32 {
        assert!(!l.is_poisoned());
        let mut g = l.lock();
        assert_eq!(g.value, 5 + i);
        g.value += 1;
        l.unlock(g);
    }
    let g = l.lock();
    assert_eq!(g.value, 105);
    l.unlock(g);
    assert!(!l.is_poisoned());
}

#[test]
fn held_lock_blocks_second_acquisition() {
    let mut l: SpinLock<i32> = SpinLock::new(7);
    let g = l.try_lock().expect("fresh lock must be free");
    match l.try_lock() {
        Err(LockError::Locked) => {}
        _ => panic!("a held lock must refuse a second acquisition"),
    }
    l.unlock(g);
    let g2 = l.try_lock().expect("released lock must be free again");
    assert_eq!(g2.value, 7);
    l.unlock(g2);
}

#[test]
fn release_in_unexpected_state_poisons() {
    let mut l: SpinLock<i32> = SpinLock::new(1);
    assert!(!l.is_poisoned());
    // A release that observes the lock unheld trips the poison flag.
    l.unlock(SpinGuard::new(9));
    assert!(l.is_poisoned());
    // The stored value is untouched by the trip-wire.
    l.clear_poison();
    let g = l.lock();
    assert_eq!(g.value, 1);
    l.unlock(g);
}

#[test]
fn poisoned_lock_refuses_until_cleared() {
    let mut l: SpinLock<i32> = SpinLock::new(3);
    l.unlock(SpinGuard::new(0));
    assert!(l.is_poisoned());
    for _ in 0..3 {
        match l.try_lock() {
            Err(LockError::Poisoned) => {}
            _ => panic!("a poisoned lock must refuse acquisition"),
        }
    }
    assert!(l.is_poisoned());
    l.clear_poison();
    assert!(!l.is_poisoned());
    let g = l.try_lock().expect("acquisition must succeed after the poison is cleared");
    l.unlock(g);
}

#[test]
fn lock_errors_describe_themselves() {
    assert_eq!(LockError::Locked.describe(), "The SpinLock is on locked.");
    assert_eq!(
        LockError::Poisoned.describe(),
        "The SpinLock is poisoned by a panicked thread."
    );
}

#[test]
fn replace_swaps_value_without_locking() {
    let mut l: SpinLock<i32> = SpinLock::new(4);
    let prev = l.replace(11);
    assert_eq!(prev, 4);
    assert!(!l.is_poisoned());
    let g = l.lock();
    assert_eq!(g.value, 11);
    l.unlock(g);
}

#[test]
fn scoped_runs_closure_and_releases() {
    let mut l: SpinLock<u32> = SpinLock::new(10);
    let doubled = l.scoped(|mut g: SpinGuard<u32>| {
        g.value *= 2;
        let v = g.value;
        (g, v)
    });
    assert_eq!(doubled, 20);
    let g = l.lock();
    assert_eq!(g.value, 20);
    l.unlock(g);
}

#[test]
fn try_scoped_refuses_on_held_or_poisoned_lock() {
    let mut l: SpinLock<u32> = SpinLock::new(1);
    let ok = l.try_scoped(|g: SpinGuard<u32>| {
        let v = g.value;
        (g, v)
    });
    assert_eq!(ok.ok(), Some(1));

    l.unlock(SpinGuard::new(0));
    assert!(l.is_poisoned());
    let refused = l.try_scoped(|g: SpinGuard<u32>| {
        let v = g.value;
        (g, v)
    });
    assert!(refused.is_err());
}
