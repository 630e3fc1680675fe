use poor_locker::{
    DeleteOutcome, LockKey, LockStore, Locker, LockerError, LockerResult, MemoryLockStore,
    MemoryLocker, Precondition, PutOutcome, Scoped, Wait, FIRST_CLAIM, SECOND_CLAIM,
};

fn key(name: &str) -> LockKey {
    LockKey::new(name.to_string()).unwrap()
}

fn create_cli() -> MemoryLocker {
    MemoryLocker::new(MemoryLockStore::new(), 10)
}

#[test]
fn test_lock() {
    let mut cli = create_cli();
    let lock_key = key("ab12CD34ef56");

    let re = cli.lock(lock_key.clone());
    assert!(re.is_ok(), "{:?}", re);

    let re = cli.lock(lock_key.clone());
    assert!(re.is_err(), "{:?}", re);

    let re = cli.unlock(lock_key.clone());
    assert!(re.is_ok(), "{:?}", re);

    let re = cli.lock(lock_key.clone());
    assert!(re.is_ok(), "{:?}", re);

    let re = cli.unlock(lock_key.clone());
    assert!(re.is_ok(), "{:?}", re);

    let re = cli.unlock(lock_key.clone());
    assert!(re.is_err(), "{:?}", re);
}

#[test]
fn a_free_key_is_locked_once() {
    let mut store = MemoryLockStore::new();
    assert_eq!(store.lock(key("k")), Ok(()));
    assert_eq!(store.status(&key("k")), Some(1));
    assert_eq!(store.lock(key("k")), Err(LockerError::AlreadyLocked(key("k"))));
    assert_eq!(store.status(&key("k")), Some(1));
}

#[test]
fn keys_do_not_touch_each_other() {
    let mut store = MemoryLockStore::new();
    assert_eq!(store.lock(key("a")), Ok(()));
    assert_eq!(store.lock(key("b")), Ok(()));
    assert_eq!(store.unlock(key("a")), Ok(()));
    assert_eq!(store.status(&key("a")), None);
    assert_eq!(store.status(&key("b")), Some(1));
    assert_eq!(store.lock(key("b")), Err(LockerError::AlreadyLocked(key("b"))));
}

#[test]
fn unlocking_a_free_key_is_reported() {
    let mut store = MemoryLockStore::new();
    assert_eq!(store.unlock(key("k")), Err(LockerError::AlreadyUnlocked(key("k"))));
    assert_eq!(store.lock(key("k")), Ok(()));
    assert_eq!(store.unlock(key("k")), Ok(()));
    assert_eq!(store.unlock(key("k")), Err(LockerError::AlreadyUnlocked(key("k"))));
}

#[test]
fn lock_unlock_lock_succeeds() {
    let mut store = MemoryLockStore::new();
    assert_eq!(store.lock(key("k")), Ok(()));
    assert_eq!(store.unlock(key("k")), Ok(()));
    assert_eq!(store.status(&key("k")), None);
    assert_eq!(store.lock(key("k")), Ok(()));
}

fn race(first: &str, second: &str) -> Vec<(String, LockerResult<()>)> {
    let mut store = MemoryLockStore::new();
    let mut replies = Vec::new();
    replies.push((first.to_string(), store.lock(key("shared"))));
    replies.push((second.to_string(), store.lock(key("shared"))));
    replies
}

#[test]
fn of_two_racing_callers_one_wins() {
    for replies in vec![race("A", "B"), race("B", "A")] {
        let winners: Vec<_> = replies.iter().filter(|(_, r)| r.is_ok()).collect();
        let losers: Vec<_> = replies.iter().filter(|(_, r)| r.is_err()).collect();
        assert_eq!(winners.len(), 1);
        assert_eq!(losers.len(), 1);
        assert_eq!(losers[0].1, Err(LockerError::AlreadyLocked(key("shared"))));
    }
}

#[test]
fn a_second_claim_needs_a_first_one() {
    let mut store = MemoryLockStore::new();
    assert_eq!(store.lock_if_locked(key("k")), Err(LockerError::AlreadyLocked(key("k"))));
    assert_eq!(store.status(&key("k")), None);

    assert_eq!(store.lock(key("k")), Ok(()));
    assert_eq!(store.status(&key("k")), Some(1));
    assert_eq!(store.lock_if_locked(key("k")), Ok(()));
    assert_eq!(store.status(&key("k")), Some(2));

    assert_eq!(store.lock_if_locked(key("k")), Err(LockerError::AlreadyLocked(key("k"))));
    assert_eq!(store.lock(key("k")), Err(LockerError::AlreadyLocked(key("k"))));
    assert_eq!(store.unlock(key("k")), Ok(()));
    assert_eq!(store.status(&key("k")), None);
}

#[test]
fn claim_statuses_are_one_and_two() {
    assert_eq!(FIRST_CLAIM, 1);
    assert_eq!(SECOND_CLAIM, 2);
}

#[test]
fn a_conditional_put_writes_only_if_its_condition_holds() {
    let mut store = MemoryLockStore::new();
    let k = key("k");
    assert!(matches!(
        store.conditional_put(&k, 7, Precondition::StatusEquals(7)),
        PutOutcome::ConditionalCheckFailed
    ));
    assert_eq!(store.status(&k), None);
    assert!(matches!(
        store.conditional_put(&k, 7, Precondition::StatusAbsent),
        PutOutcome::Written
    ));
    assert_eq!(store.status(&k), Some(7));
    assert!(matches!(
        store.conditional_put(&k, 8, Precondition::StatusAbsent),
        PutOutcome::ConditionalCheckFailed
    ));
    assert!(matches!(
        store.conditional_put(&k, 8, Precondition::StatusEquals(6)),
        PutOutcome::ConditionalCheckFailed
    ));
    assert_eq!(store.status(&k), Some(7));
    assert!(matches!(
        store.conditional_put(&k, 8, Precondition::StatusEquals(7)),
        PutOutcome::Written
    ));
    assert_eq!(store.status(&k), Some(8));
}

#[test]
fn a_conditional_delete_hands_back_the_old_status() {
    let mut store = MemoryLockStore::new();
    let k = key("k");
    assert!(matches!(store.conditional_delete(&k), DeleteOutcome::Deleted(None)));
    assert!(matches!(
        store.conditional_put(&k, 3, Precondition::StatusAbsent),
        PutOutcome::Written
    ));
    assert!(matches!(store.conditional_delete(&k), DeleteOutcome::Deleted(Some(3))));
    assert_eq!(store.status(&k), None);
    assert!(matches!(store.conditional_delete(&k), DeleteOutcome::Deleted(None)));
}

#[test]
fn a_locker_hands_each_call_to_its_store() {
    let mut cli = create_cli();
    assert_eq!(cli.delay(), 10);
    assert_eq!(cli.allow_only_first_comer(key("k")), Ok(()));
    assert_eq!(cli.store().status(&key("k")), Some(1));
    assert_eq!(
        cli.allow_only_first_comer(key("k")),
        Err(LockerError::AlreadyLocked(key("k")))
    );
    assert_eq!(cli.lock(key("k")), Err(LockerError::AlreadyLocked(key("k"))));
    assert_eq!(cli.unlock(key("k")), Ok(()));
    assert_eq!(cli.store().status(&key("k")), None);
    assert_eq!(cli.unlock(key("k")), Err(LockerError::AlreadyUnlocked(key("k"))));
}

#[test]
fn a_locker_keeps_its_delay() {
    let mut cli = MemoryLocker::new(MemoryLockStore::new(), 25);
    assert_eq!(cli.delay(), 25);
    cli.lock(key("k")).unwrap();
    cli.allow_only_first_comer(key("k")).unwrap_err();
    cli.store().lock(key("other")).unwrap();
    cli.unlock(key("k")).unwrap();
    assert_eq!(cli.delay(), 25);
    let store = cli.into_store();
    assert_eq!(store.status(&key("k")), None);
    assert_eq!(store.status(&key("other")), Some(1));
}

#[test]
fn a_locker_begins_its_waits_with_its_delay() {
    let cli = create_cli();
    assert_eq!(cli.wait(100), Wait { rest: 100, delay: 10 });
    assert_eq!(cli.wait(0), Wait { rest: 0, delay: 10 });
    let (run, wait) = cli.work_with_wait_lock::<u8>(35);
    assert!(matches!(run, Scoped::Waiting));
    assert_eq!(wait, Wait { rest: 35, delay: 10 });
}
