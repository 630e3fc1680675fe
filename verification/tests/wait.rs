use poor_locker::{
    LockKey, LockStore, LockerError, LockerResult, MemoryLockStore, Scoped, ScopedAction,
    ScopedEvent, Wait, WaitAction, WorkEnd,
};

fn key(name: &str) -> LockKey {
    LockKey::new(name.to_string()).unwrap()
}

/// A clock that only sleeps move.
struct Clock {
    now: u64,
    sleeps: Vec<u64>,
    attempts: usize,
}

impl Clock {
    fn at(now: u64) -> Clock {
        Clock { now, sleeps: Vec::new(), attempts: 0 }
    }
}

/// Runs a bounded wait on `store`. Before each attempt, `world` may change
/// the store as others would have done by that time.
fn run_wait<S: LockStore>(
    store: &mut S,
    key: &LockKey,
    mut wait: Wait,
    clock: &mut Clock,
    world: &mut dyn FnMut(u64, &mut S),
) -> LockerResult<()> {
    loop {
        world(clock.now, store);
        clock.attempts += 1;
        match wait.step(store.lock(key.clone())) {
            WaitAction::Finish(result) => return result,
            WaitAction::Sleep(ms) => {
                clock.sleeps.push(ms);
                clock.now += ms;
            }
        }
    }
}

fn wait<S: LockStore>(
    store: &mut S,
    key: &LockKey,
    ms: u64,
    delay: u64,
    clock: &mut Clock,
    world: &mut dyn FnMut(u64, &mut S),
) -> LockerResult<()> {
    run_wait(store, key, Wait::new(ms, delay), clock, world)
}

/// How a scoped run came back to its caller.
#[derive(Debug, PartialEq)]
enum Outcome<R> {
    Returned(LockerResult<R>),
    Resumed,
}

/// Runs work under the lock: performs what `Scoped::step` answers, and
/// notes each answer in `done`.
fn work_with_wait_lock<S: LockStore, R>(
    store: &mut S,
    key: &LockKey,
    ms: u64,
    delay: u64,
    clock: &mut Clock,
    world: &mut dyn FnMut(u64, &mut S),
    work: &mut dyn FnMut(&mut Clock) -> WorkEnd<R>,
    done: &mut Vec<&'static str>,
) -> Outcome<R> {
    let (mut run, wait) = Scoped::begin(ms, delay);
    let mut event = ScopedEvent::Waited(run_wait(store, key, wait, clock, world));
    loop {
        let (next, action) = run.step(event);
        run = next;
        event = match action {
            ScopedAction::Work => {
                done.push("work");
                ScopedEvent::Worked(work(clock))
            }
            ScopedAction::Release => {
                done.push("release");
                ScopedEvent::Released(store.unlock(key.clone()))
            }
            ScopedAction::Return(result) => {
                done.push("return");
                return Outcome::Returned(result);
            }
            ScopedAction::Resume => {
                done.push("resume");
                return Outcome::Resumed;
            }
            ScopedAction::Ignore => panic!("the run ignored an event that it had asked for"),
        };
    }
}

fn nothing_happens(_now: u64, _store: &mut MemoryLockStore) {}

fn held(name: &str) -> MemoryLockStore {
    let mut store = MemoryLockStore::new();
    store.lock(key(name)).unwrap();
    store
}

#[test]
fn a_step_after_success_finishes_with_ok() {
    let mut wait = Wait::new(100, 10);
    assert!(matches!(wait.step(Ok(())), WaitAction::Finish(Ok(()))));
    assert_eq!(wait, Wait { rest: 100, delay: 10 });
}

#[test]
fn a_step_after_a_refusal_sleeps_for_the_poll_delay() {
    let mut wait = Wait::new(25, 10);
    assert!(matches!(
        wait.step(Err(LockerError::AlreadyLocked(key("k")))),
        WaitAction::Sleep(10)
    ));
    assert_eq!(wait, Wait { rest: 15, delay: 10 });
    assert!(matches!(
        wait.step(Err(LockerError::AlreadyLocked(key("k")))),
        WaitAction::Sleep(10)
    ));
    assert_eq!(wait, Wait { rest: 5, delay: 10 });
}

#[test]
fn the_last_sleep_is_what_is_left_of_the_budget() {
    let mut wait = Wait { rest: 5, delay: 10 };
    assert!(matches!(
        wait.step(Err(LockerError::AlreadyLocked(key("k")))),
        WaitAction::Sleep(5)
    ));
    assert_eq!(wait, Wait { rest: 0, delay: 10 });
    let action = wait.step(Err(LockerError::AlreadyLocked(key("k"))));
    assert!(matches!(action, WaitAction::Finish(Err(LockerError::Timeout))));
    assert_eq!(wait, Wait { rest: 0, delay: 10 });
}

#[test]
fn a_budget_equal_to_the_delay_is_slept_in_one_piece() {
    let mut wait = Wait::new(10, 10);
    assert!(matches!(
        wait.step(Err(LockerError::AlreadyLocked(key("k")))),
        WaitAction::Sleep(10)
    ));
    assert_eq!(wait.rest, 0);
}

#[test]
fn an_access_error_ends_the_wait_at_once() {
    let mut wait = Wait::new(100, 10);
    let action = wait.step(Err(LockerError::AccessError("unreachable".to_string())));
    match action {
        WaitAction::Finish(Err(LockerError::AccessError(message))) => {
            assert_eq!(message, "unreachable")
        }
        other => panic!("{:?}", other),
    }
    assert_eq!(wait, Wait { rest: 100, delay: 10 });
}

#[test]
fn any_other_error_counts_as_a_refusal() {
    let mut wait = Wait::new(30, 10);
    assert!(matches!(
        wait.step(Err(LockerError::AlreadyUnlocked(key("k")))),
        WaitAction::Sleep(10)
    ));
    assert!(matches!(
        wait.step(Err(LockerError::MaybeAlreadyUnlocked(key("k")))),
        WaitAction::Sleep(10)
    ));
    assert!(matches!(wait.step(Err(LockerError::Timeout)), WaitAction::Sleep(10)));
    assert!(matches!(
        wait.step(Err(LockerError::AlreadyUnlocked(key("k")))),
        WaitAction::Finish(Err(LockerError::Timeout))
    ));
}

#[test]
fn a_poll_delay_of_zero_sleeps_for_nothing() {
    let mut wait = Wait::new(30, 0);
    assert!(matches!(
        wait.step(Err(LockerError::AlreadyLocked(key("k")))),
        WaitAction::Sleep(0)
    ));
    assert_eq!(wait, Wait { rest: 30, delay: 0 });
}

#[test]
fn no_budget_still_gets_one_attempt_at_a_held_key() {
    let mut store = held("k");
    let mut clock = Clock::at(0);
    let re = wait(&mut store, &key("k"), 0, 10, &mut clock, &mut nothing_happens);
    assert_eq!(re, Err(LockerError::Timeout));
    assert_eq!(clock.attempts, 1);
    assert_eq!(clock.sleeps, Vec::<u64>::new());
    assert_eq!(clock.now, 0);
}

#[test]
fn no_budget_still_gets_one_attempt_at_a_free_key() {
    let mut store = MemoryLockStore::new();
    let mut clock = Clock::at(0);
    let re = wait(&mut store, &key("k"), 0, 10, &mut clock, &mut nothing_happens);
    assert_eq!(re, Ok(()));
    assert_eq!(clock.attempts, 1);
    assert_eq!(clock.sleeps, Vec::<u64>::new());
    assert_eq!(store.status(&key("k")), Some(1));
}

#[test]
fn a_free_key_is_acquired_without_sleeping() {
    let mut store = MemoryLockStore::new();
    let mut clock = Clock::at(7);
    let re = wait(&mut store, &key("k"), 100, 10, &mut clock, &mut nothing_happens);
    assert_eq!(re, Ok(()));
    assert_eq!(clock.attempts, 1);
    assert_eq!(clock.now, 7);
}

#[test]
fn a_wait_that_never_succeeds_sleeps_its_whole_budget() {
    let mut store = held("k");
    let mut clock = Clock::at(0);
    let re = wait(&mut store, &key("k"), 25, 10, &mut clock, &mut nothing_happens);
    assert_eq!(re, Err(LockerError::Timeout));
    assert_eq!(clock.sleeps, vec![10, 10, 5]);
    assert_eq!(clock.now, 25);
    assert_eq!(clock.attempts, 4);

    let mut clock = Clock::at(0);
    let re = wait(&mut store, &key("k"), 30, 10, &mut clock, &mut nothing_happens);
    assert_eq!(re, Err(LockerError::Timeout));
    assert_eq!(clock.sleeps, vec![10, 10, 10]);
    assert_eq!(clock.attempts, 4);

    let mut clock = Clock::at(0);
    let re = wait(&mut store, &key("k"), 5, 10, &mut clock, &mut nothing_happens);
    assert_eq!(re, Err(LockerError::Timeout));
    assert_eq!(clock.sleeps, vec![5]);
    assert_eq!(clock.attempts, 2);
    assert_eq!(store.status(&key("k")), Some(1));
}

fn released_at(release: u64) -> impl FnMut(u64, &mut MemoryLockStore) {
    let mut done = false;
    move |now: u64, store: &mut MemoryLockStore| {
        if !done && now >= release {
            store.unlock(key("k")).unwrap();
            done = true;
        }
    }
}

#[test]
fn a_waiter_acquires_at_the_first_poll_after_the_release() {
    let mut store = held("k");
    let mut clock = Clock::at(0);
    let re = wait(&mut store, &key("k"), 100, 10, &mut clock, &mut released_at(11));
    assert_eq!(re, Ok(()));
    assert_eq!(clock.now, 20);
    assert_eq!(clock.sleeps, vec![10, 10]);
    assert_eq!(clock.attempts, 3);
    assert_eq!(store.status(&key("k")), Some(1));
}

#[test]
fn a_release_on_a_poll_is_seen_by_that_poll() {
    let mut store = held("k");
    let mut clock = Clock::at(0);
    let re = wait(&mut store, &key("k"), 100, 10, &mut clock, &mut released_at(90));
    assert_eq!(re, Ok(()));
    assert_eq!(clock.now, 90);
}

#[test]
fn a_release_after_the_last_full_poll_is_seen_when_the_budget_ends() {
    let mut store = held("k");
    let mut clock = Clock::at(0);
    let re = wait(&mut store, &key("k"), 100, 10, &mut clock, &mut released_at(95));
    assert_eq!(re, Ok(()));
    assert_eq!(clock.now, 100);

    let mut store = held("k");
    let mut clock = Clock::at(0);
    let re = wait(&mut store, &key("k"), 25, 10, &mut clock, &mut released_at(21));
    assert_eq!(re, Ok(()));
    assert_eq!(clock.now, 25);
    assert_eq!(clock.sleeps, vec![10, 10, 5]);
}

#[test]
fn test_wait() {
    let mut store = held("ab12CD34ef56");
    let lock_key = key("ab12CD34ef56");
    let mut a: Vec<usize> = Vec::new();

    let mut released = false;
    let mut clock = Clock::at(0);
    let re = {
        let a = &mut a;
        let holder_key = lock_key.clone();
        wait(
            &mut store,
            &lock_key,
            100,
            10,
            &mut clock,
            &mut |now: u64, store: &mut MemoryLockStore| {
                if !released && now >= 11 {
                    a.push(11);
                    store.unlock(holder_key.clone()).unwrap();
                    released = true;
                }
            },
        )
    };
    re.unwrap();
    a.push(24);

    assert_eq!(a, vec![11, 24]);
    assert!(clock.now - 11 < 20);
    assert_eq!(clock.now, 20);
}

#[test]
fn test_wait_abort() {
    let mut store = held("ab12CD34ef56");
    let lock_key = key("ab12CD34ef56");
    let mut a: Vec<usize> = Vec::new();

    let mut clock = Clock::at(0);
    let re = wait(&mut store, &lock_key, 1, 10, &mut clock, &mut nothing_happens);
    if re.is_ok() {
        a.push(24);
    }

    assert_eq!(re, Err(LockerError::Timeout));
    assert_eq!(clock.sleeps, vec![1]);
    assert_eq!(a, Vec::<usize>::new());
}

#[test]
fn test_wait_work() {
    let mut store = MemoryLockStore::new();
    let lock_key = key("ab12CD34ef56");
    let mut a: Vec<usize> = Vec::new();

    // The first worker gets the lock at once and works for 20 ms.
    let mut clock_a = Clock::at(0);
    let (run_a, wait_a) = Scoped::<()>::begin(10, 10);
    let waited = run_wait(&mut store, &lock_key, wait_a, &mut clock_a, &mut nothing_happens);
    let (run_a, action) = run_a.step(ScopedEvent::Waited(waited));
    assert!(matches!(action, ScopedAction::Work));
    let done_at = clock_a.now + 20;

    // The second worker starts 10 ms later and waits for the first one,
    // which ends its work and releases the lock when its time has come.
    let mut clock_b = Clock::at(10);
    let mut first_run = Some(run_a);
    let mut first_result: Option<LockerResult<()>> = None;
    let mut done = Vec::new();
    let re = {
        let a = std::cell::RefCell::new(&mut a);
        let first_result = &mut first_result;
        let first_key = lock_key.clone();
        work_with_wait_lock(
            &mut store,
            &lock_key,
            100,
            10,
            &mut clock_b,
            &mut |now: u64, store: &mut MemoryLockStore| {
                if now >= done_at {
                    if let Some(run) = first_run.take() {
                        a.borrow_mut().push(11);
                        let (run, action) = run.step(ScopedEvent::Worked(WorkEnd::Returned(())));
                        assert!(matches!(action, ScopedAction::Release));
                        let released = store.unlock(first_key.clone());
                        match run.step(ScopedEvent::Released(released)) {
                            (Scoped::Done, ScopedAction::Return(result)) => {
                                *first_result = Some(result)
                            }
                            other => panic!("{:?}", other),
                        }
                    }
                }
            },
            &mut |_clock: &mut Clock| {
                a.borrow_mut().push(24);
                WorkEnd::Returned(())
            },
            &mut done,
        )
    };

    assert_eq!(first_result, Some(Ok(())));
    assert_eq!(re, Outcome::Returned(Ok(())));
    assert_eq!(a, vec![11, 24]);
    assert_eq!(clock_b.now, 20);
    assert_eq!(done, vec!["work", "release", "return"]);
    assert_eq!(store.status(&lock_key), None);
}

#[test]
fn work_that_returns_is_returned_after_the_release() {
    let mut store = MemoryLockStore::new();
    let mut clock = Clock::at(0);
    let mut done = Vec::new();
    let re: Outcome<u8> = work_with_wait_lock(
        &mut store,
        &key("k"),
        50,
        10,
        &mut clock,
        &mut nothing_happens,
        &mut |_clock: &mut Clock| WorkEnd::Returned(24),
        &mut done,
    );
    assert_eq!(re, Outcome::Returned(Ok(24)));
    assert_eq!(done, vec!["work", "release", "return"]);
    assert_eq!(store.status(&key("k")), None);
}

#[test]
fn work_that_fails_still_releases_the_lock() {
    let mut store = MemoryLockStore::new();
    let mut clock = Clock::at(0);
    let mut done = Vec::new();
    let re: Outcome<Result<u8, String>> = work_with_wait_lock(
        &mut store,
        &key("k"),
        50,
        10,
        &mut clock,
        &mut nothing_happens,
        &mut |_clock: &mut Clock| WorkEnd::Returned(Err("work failed".to_string())),
        &mut done,
    );
    assert_eq!(re, Outcome::Returned(Ok(Err("work failed".to_string()))));
    assert_eq!(done, vec!["work", "release", "return"]);
    assert_eq!(store.status(&key("k")), None);
    assert_eq!(store.lock(key("k")), Ok(()));
}

#[test]
fn work_that_panics_still_releases_the_lock() {
    let mut store = MemoryLockStore::new();
    let mut clock = Clock::at(0);
    let mut done = Vec::new();
    let re: Outcome<u8> = work_with_wait_lock(
        &mut store,
        &key("k"),
        50,
        10,
        &mut clock,
        &mut nothing_happens,
        &mut |_clock: &mut Clock| WorkEnd::Panicked,
        &mut done,
    );
    assert_eq!(re, Outcome::Resumed);
    assert_eq!(done, vec!["work", "release", "resume"]);
    assert_eq!(store.status(&key("k")), None);
    assert_eq!(store.lock(key("k")), Ok(()));
}

#[test]
fn work_does_not_run_if_the_wait_fails() {
    let mut store = held("k");
    let mut clock = Clock::at(0);
    let mut ran = false;
    let mut done = Vec::new();
    let re: Outcome<u8> = work_with_wait_lock(
        &mut store,
        &key("k"),
        20,
        10,
        &mut clock,
        &mut nothing_happens,
        &mut |_clock: &mut Clock| {
            ran = true;
            WorkEnd::Returned(1)
        },
        &mut done,
    );
    assert_eq!(re, Outcome::Returned(Err(LockerError::Timeout)));
    assert!(!ran);
    assert_eq!(done, vec!["return"]);
    assert_eq!(clock.sleeps, vec![10, 10]);
    assert_eq!(store.status(&key("k")), Some(1));
}

#[test]
fn a_scoped_run_waits_with_its_whole_budget() {
    let (run, wait) = Scoped::<u8>::begin(100, 10);
    assert!(matches!(run, Scoped::Waiting));
    assert_eq!(wait, Wait { rest: 100, delay: 10 });
    let (run, wait) = Scoped::<u8>::begin(0, 7);
    assert!(matches!(run, Scoped::Waiting));
    assert_eq!(wait, Wait { rest: 0, delay: 7 });
}

#[test]
fn a_wait_that_succeeded_is_followed_by_the_work() {
    let (run, action) = Scoped::<u8>::Waiting.step(ScopedEvent::Waited(Ok(())));
    assert!(matches!(run, Scoped::Working));
    assert!(matches!(action, ScopedAction::Work));
}

#[test]
fn a_wait_that_failed_is_returned() {
    let (run, action) = Scoped::<u8>::Waiting.step(ScopedEvent::Waited(Err(LockerError::Timeout)));
    assert!(matches!(run, Scoped::Done));
    assert!(matches!(action, ScopedAction::Return(Err(LockerError::Timeout))));

    let refused = LockerError::AccessError("unreachable".to_string());
    let (run, action) = Scoped::<u8>::Waiting.step(ScopedEvent::Waited(Err(refused.clone())));
    assert!(matches!(run, Scoped::Done));
    match action {
        ScopedAction::Return(result) => assert_eq!(result, Err(refused)),
        other => panic!("{:?}", other),
    }
}

#[test]
fn every_end_of_the_work_is_followed_by_the_release() {
    let (run, action) = Scoped::Working.step(ScopedEvent::Worked(WorkEnd::Returned(5u8)));
    assert!(matches!(run, Scoped::Releasing(WorkEnd::Returned(5))));
    assert!(matches!(action, ScopedAction::Release));

    let (run, action) = Scoped::<u8>::Working.step(ScopedEvent::Worked(WorkEnd::Panicked));
    assert!(matches!(run, Scoped::Releasing(WorkEnd::Panicked)));
    assert!(matches!(action, ScopedAction::Release));
}

#[test]
fn the_release_s_answer_decides_what_returned_work_comes_to() {
    let (run, action) =
        Scoped::Releasing(WorkEnd::Returned(5u8)).step(ScopedEvent::Released(Ok(())));
    assert!(matches!(run, Scoped::Done));
    assert!(matches!(action, ScopedAction::Return(Ok(5))));

    let gone = LockerError::AlreadyUnlocked(key("k"));
    let (run, action) =
        Scoped::Releasing(WorkEnd::Returned(5u8)).step(ScopedEvent::Released(Err(gone.clone())));
    assert!(matches!(run, Scoped::Done));
    match action {
        ScopedAction::Return(result) => assert_eq!(result, Err(gone)),
        other => panic!("{:?}", other),
    }
}

#[test]
fn a_panic_goes_on_whatever_the_release_answers() {
    let (run, action) =
        Scoped::<u8>::Releasing(WorkEnd::Panicked).step(ScopedEvent::Released(Ok(())));
    assert!(matches!(run, Scoped::Done));
    assert!(matches!(action, ScopedAction::Resume));

    let failed = LockerError::AccessError("gone".to_string());
    let (run, action) =
        Scoped::<u8>::Releasing(WorkEnd::Panicked).step(ScopedEvent::Released(Err(failed)));
    assert!(matches!(run, Scoped::Done));
    assert!(matches!(action, ScopedAction::Resume));
}

#[test]
fn an_event_that_is_not_awaited_is_ignored() {
    let (run, action) = Scoped::<u8>::Waiting.step(ScopedEvent::Worked(WorkEnd::Returned(1)));
    assert!(matches!((run, action), (Scoped::Waiting, ScopedAction::Ignore)));
    let (run, action) = Scoped::<u8>::Waiting.step(ScopedEvent::Released(Ok(())));
    assert!(matches!((run, action), (Scoped::Waiting, ScopedAction::Ignore)));
    let (run, action) = Scoped::<u8>::Working.step(ScopedEvent::Waited(Ok(())));
    assert!(matches!((run, action), (Scoped::Working, ScopedAction::Ignore)));
    let (run, action) = Scoped::<u8>::Working.step(ScopedEvent::Released(Ok(())));
    assert!(matches!((run, action), (Scoped::Working, ScopedAction::Ignore)));
    let (run, action) =
        Scoped::Releasing(WorkEnd::Returned(3u8)).step(ScopedEvent::Waited(Ok(())));
    assert!(matches!(
        (run, action),
        (Scoped::Releasing(WorkEnd::Returned(3)), ScopedAction::Ignore)
    ));
    let (run, action) = Scoped::<u8>::Releasing(WorkEnd::Panicked)
        .step(ScopedEvent::Worked(WorkEnd::Returned(1)));
    assert!(matches!((run, action), (Scoped::Releasing(WorkEnd::Panicked), ScopedAction::Ignore)));
    let (run, action) = Scoped::<u8>::Done.step(ScopedEvent::Waited(Ok(())));
    assert!(matches!((run, action), (Scoped::Done, ScopedAction::Ignore)));
    let (run, action) = Scoped::<u8>::Done.step(ScopedEvent::Worked(WorkEnd::Panicked));
    assert!(matches!((run, action), (Scoped::Done, ScopedAction::Ignore)));
    let (run, action) = Scoped::<u8>::Done.step(ScopedEvent::Released(Ok(())));
    assert!(matches!((run, action), (Scoped::Done, ScopedAction::Ignore)));
}

#[test]
fn a_failed_release_after_the_work_is_returned() {
    let (run, action) = Scoped::Working.step(ScopedEvent::Worked(WorkEnd::Returned(9u8)));
    assert!(matches!(action, ScopedAction::Release));
    let released = Err(LockerError::AccessError("connection refused".to_string()));
    match run.step(ScopedEvent::Released(released)) {
        (Scoped::Done, ScopedAction::Return(result)) => {
            assert_eq!(result, Err(LockerError::AccessError("connection refused".to_string())))
        }
        other => panic!("{:?}", other),
    }
}

/// Runs a bounded wait on the replies of a store, one for each attempt, and
/// tells the result, the attempts made and the sleeps asked for.
fn wait_on(ms: u64, delay: u64, replies: Vec<LockerResult<()>>) -> (LockerResult<()>, usize, Vec<u64>) {
    let mut wait = Wait::new(ms, delay);
    let mut sleeps = Vec::new();
    let mut attempts = 0;
    for reply in replies {
        attempts += 1;
        match wait.step(reply) {
            WaitAction::Finish(result) => return (result, attempts, sleeps),
            WaitAction::Sleep(ms) => sleeps.push(ms),
        }
    }
    panic!("the wait asked for more attempts than there are replies")
}

#[test]
fn a_wait_does_not_retry_an_access_error() {
    let unreachable = || Err(LockerError::AccessError("connection refused".to_string()));
    let (re, attempts, sleeps) = wait_on(100, 10, vec![unreachable(), unreachable()]);
    assert_eq!(re, Err(LockerError::AccessError("connection refused".to_string())));
    assert_eq!(attempts, 1);
    assert_eq!(sleeps, Vec::<u64>::new());

    let refused = || Err(LockerError::AlreadyLocked(key("k")));
    let (re, attempts, sleeps) = wait_on(100, 10, vec![refused(), refused(), unreachable(), Ok(())]);
    assert_eq!(re, Err(LockerError::AccessError("connection refused".to_string())));
    assert_eq!(attempts, 3);
    assert_eq!(sleeps, vec![10, 10]);
}
