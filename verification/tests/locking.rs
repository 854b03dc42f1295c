use hdf5_rs::lock::{LockState, Released};

#[test]
fn new_lock_is_free() {
    let lock = LockState::new();
    assert_eq!(lock.owner(), None);
    assert_eq!(lock.depth(), 0);
}

#[test]
fn free_lock_admits_anyone() {
    let mut lock = LockState::new();
    assert!(lock.try_acquire(7));
    assert_eq!(lock.owner(), Some(7));
    assert_eq!(lock.depth(), 1);
}

#[test]
fn held_lock_refuses_others_and_stays() {
    let mut lock = LockState::new();
    assert!(lock.try_acquire(1));
    assert!(!lock.try_acquire(2));
    assert_eq!(lock.owner(), Some(1));
    assert_eq!(lock.depth(), 1);
}

#[test]
fn holder_reenters_and_leaves_in_steps() {
    let mut lock = LockState::new();
    assert!(lock.try_acquire(1));
    assert!(lock.try_acquire(1));
    assert!(lock.try_acquire(1));
    assert_eq!(lock.depth(), 3);
    assert_eq!(lock.release(1), Released::StillHeld);
    assert_eq!(lock.depth(), 2);
    assert_eq!(lock.release(1), Released::StillHeld);
    assert_eq!(lock.owner(), Some(1));
    assert_eq!(lock.release(1), Released::Freed);
    assert_eq!(lock, LockState::new());
}

#[test]
fn release_by_another_context_changes_nothing() {
    let mut lock = LockState::new();
    assert_eq!(lock.release(1), Released::NotHeld);
    assert_eq!(lock, LockState::new());
    assert!(lock.try_acquire(1));
    assert_eq!(lock.release(2), Released::NotHeld);
    assert_eq!(lock.owner(), Some(1));
    assert_eq!(lock.depth(), 1);
}

#[test]
fn freed_lock_admits_the_one_who_waited() {
    let mut lock = LockState::new();
    assert!(lock.try_acquire(1));
    assert!(!lock.try_acquire(2));
    assert_eq!(lock.release(1), Released::Freed);
    assert!(lock.try_acquire(2));
    assert_eq!(lock.owner(), Some(2));
}
