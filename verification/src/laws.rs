//! What holds of the lock protocol, whatever the keys, the records and the
//! budgets.

use crate::client::memory_client::{
    lock_answer, lock_records, second_lock_answer, second_lock_records, unlock_answer,
    unlock_records, Records,
};
use crate::error::{LockerError, LockerErrorView};
use crate::locker::{reply_view, Wait, WaitActionView, WaitEnd};
use crate::scoped::{Scoped, ScopedAction, ScopedEvent, WorkEnd};
use crate::LockerResult;
use vstd::arithmetic::div_mod::{
    lemma_fundamental_div_mod, lemma_mod_add_multiples_vanish, lemma_mod_multiples_vanish,
};
use vstd::prelude::*;

verus! {

/// A free key is acquired once: the first claim succeeds and writes a
/// record, and a claim that follows it at once is refused with
/// `AlreadyLocked` and changes nothing.
pub proof fn lemma_lock_succeeds_once(records: Records, key: Seq<char>)
    requires
        !records.contains_key(key),
    ensures
        lock_answer(records, key) == Ok::<(), LockerErrorView>(()),
        lock_records(records, key).contains_key(key),
        lock_answer(lock_records(records, key), key) == Err::<(), LockerErrorView>(
            LockerErrorView::AlreadyLocked(key),
        ),
        lock_records(lock_records(records, key), key) == lock_records(records, key),
{
}

/// Of two claims of one key that reach the store one after the other,
/// whichever comes first, exactly one succeeds: a claim succeeds exactly
/// when the key is free, and the key is held after any claim.
pub proof fn lemma_one_claim_wins(records: Records, key: Seq<char>)
    ensures
        lock_answer(records, key) is Ok <==> !records.contains_key(key),
        lock_answer(lock_records(records, key), key) == Err::<(), LockerErrorView>(
            LockerErrorView::AlreadyLocked(key),
        ),
{
}

/// A release of a key that is not held is refused with `AlreadyUnlocked`
/// and changes nothing; a release that follows a successful claim succeeds,
/// and a second release after it is refused.
pub proof fn lemma_unlock(records: Records, key: Seq<char>)
    ensures
        !records.contains_key(key) ==> unlock_answer(records, key) == Err::<(), LockerErrorView>(
            LockerErrorView::AlreadyUnlocked(key),
        ) && unlock_records(records, key) == records,
        lock_answer(records, key) is Ok ==> unlock_answer(lock_records(records, key), key) == Ok::<
            (),
            LockerErrorView,
        >(()),
        unlock_answer(unlock_records(records, key), key) == Err::<(), LockerErrorView>(
            LockerErrorView::AlreadyUnlocked(key),
        ),
{
    if !records.contains_key(key) {
        assert(unlock_records(records, key) =~= records);
    }
}

/// A claim, a release and a second claim of a free key all succeed, and
/// the release gives back the records that were there before the claim.
pub proof fn lemma_lock_unlock_round_trip(records: Records, key: Seq<char>)
    requires
        !records.contains_key(key),
    ensures
        lock_answer(records, key) is Ok,
        unlock_answer(lock_records(records, key), key) is Ok,
        unlock_records(lock_records(records, key), key) == records,
        lock_answer(unlock_records(lock_records(records, key), key), key) is Ok,
{
    assert(unlock_records(lock_records(records, key), key) =~= records);
}

/// A second claim of a free key is refused with `AlreadyLocked`; after a
/// first claim has succeeded, the second claim succeeds and takes the
/// status from 1 to 2.
pub proof fn lemma_second_claim_follows_first(records: Records, key: Seq<char>)
    requires
        !records.contains_key(key),
    ensures
        second_lock_answer(records, key) == Err::<(), LockerErrorView>(
            LockerErrorView::AlreadyLocked(key),
        ),
        second_lock_records(records, key) == records,
        lock_answer(records, key) is Ok,
        lock_records(records, key)[key] == 1,
        second_lock_answer(lock_records(records, key), key) is Ok,
        second_lock_records(lock_records(records, key), key)[key] == 2,
{
}

/// Whether the store refuses the lock without failing: any error but an
/// access error.
pub open spec fn refused(reply: Result<(), LockerErrorView>) -> bool {
    reply matches Err(e) && !(e is AccessError)
}

/// A wait with no budget makes exactly one attempt and does not sleep: it
/// returns at the time at which it began, with `Timeout` if the key is held
/// and with `Ok` if the key is free.
pub proof fn lemma_zero_budget_attempts_once(
    records: Records,
    key: Seq<char>,
    delay: u64,
    now: nat,
    reply_at: spec_fn(nat) -> Result<(), LockerErrorView>,
)
    requires
        reply_at(now) == lock_answer(records, key),
    ensures
        ({
            let end = (Wait { rest: 0, delay }).run(now, reply_at);
            &&& end.attempts == 1
            &&& end.at == now
            &&& records.contains_key(key) ==> end.result == Err::<(), LockerErrorView>(
                LockerErrorView::Timeout,
            )
            &&& !records.contains_key(key) ==> end.result == Ok::<(), LockerErrorView>(())
        }),
{
}

/// A wait for a free key returns `Ok` at once, after one attempt, whatever
/// its budget and its poll delay.
pub proof fn lemma_free_key_is_acquired_at_once(
    records: Records,
    key: Seq<char>,
    wait: Wait,
    now: nat,
    reply_at: spec_fn(nat) -> Result<(), LockerErrorView>,
)
    requires
        !records.contains_key(key),
        reply_at(now) == lock_answer(records, key),
    ensures
        wait.run(now, reply_at) == (WaitEnd {
            result: Ok::<(), LockerErrorView>(()),
            at: now,
            attempts: 1,
        }),
{
}

/// How many attempts a wait makes that is refused every time: one at the
/// start and one after each sleep, the last sleep being what the others
/// left of the budget.
pub open spec fn attempts_until_timeout(budget: nat, delay: nat) -> nat
    recommends
        delay > 0,
{
    ((budget + delay - 1) / (delay as int) + 1) as nat
}

/// A refused wait without budget makes one attempt; with a budget of at
/// most one poll delay it makes two; and each whole poll delay of budget
/// beyond that adds one. The count never falls as the budget grows.
proof fn lemma_attempts_by_budget(budget: nat, delay: nat)
    requires
        delay > 0,
    ensures
        attempts_until_timeout(0, delay) == 1,
        0 < budget <= delay ==> attempts_until_timeout(budget, delay) == 2,
        budget >= delay ==> attempts_until_timeout(budget, delay) == attempts_until_timeout(
            (budget - delay) as nat,
            delay,
        ) + 1,
        attempts_until_timeout(budget, delay) >= 1,
{
    let b = budget as int;
    let d = delay as int;
    assert((0 + d - 1) / d == 0) by (nonlinear_arith)
        requires
            d > 0,
    ;
    assert((b + d - 1) / d >= 0) by (nonlinear_arith)
        requires
            d > 0,
            b >= 0,
    ;
    if 0 < b <= d {
        assert((b + d - 1) / d == 1) by (nonlinear_arith)
            requires
                0 < b <= d,
        ;
    }
    if b >= d {
        assert((b + d - 1) / d == (b - d + d - 1) / d + 1) by (nonlinear_arith)
            requires
                d > 0,
        ;
    }
}

/// A wait never sleeps beyond its budget and never times out before the
/// budget is used up, whatever the store answers. However it ends, it has
/// made one attempt at its start and one after each sleep, which is as many
/// as a refused wait makes in the time that it took, and so no more than a
/// wait that is refused every time.
pub proof fn lemma_wait_keeps_its_budget(
    wait: Wait,
    now: nat,
    reply_at: spec_fn(nat) -> Result<(), LockerErrorView>,
)
    requires
        wait.delay > 0,
    ensures
        now <= wait.run(now, reply_at).at <= now + wait.rest,
        wait.run(now, reply_at).result == Err::<(), LockerErrorView>(LockerErrorView::Timeout)
            ==> wait.run(now, reply_at).at == now + wait.rest,
        wait.run(now, reply_at).attempts == attempts_until_timeout(
            (wait.run(now, reply_at).at - now) as nat,
            wait.delay as nat,
        ),
        1 <= wait.run(now, reply_at).attempts <= attempts_until_timeout(
            wait.rest as nat,
            wait.delay as nat,
        ),
    decreases wait.rest,
{
    let delay = wait.delay as nat;
    lemma_attempts_by_budget(wait.rest as nat, delay);
    match wait.action(reply_at(now)) {
        WaitActionView::Finish(result) => {},
        WaitActionView::Sleep(ms) => {
            lemma_wait_keeps_its_budget(wait.slept(), (now + ms) as nat, reply_at);
            let took = (wait.run(now, reply_at).at - now) as nat;
            lemma_attempts_by_budget(took, delay);
        },
    }
}

/// A wait that the store refuses every time returns `Timeout` exactly when
/// its budget is used up: not before, and so less than one poll delay
/// after.
pub proof fn lemma_refused_wait_times_out(
    wait: Wait,
    now: nat,
    reply_at: spec_fn(nat) -> Result<(), LockerErrorView>,
)
    requires
        wait.delay > 0,
        forall|t: nat| refused(#[trigger] reply_at(t)),
    ensures
        wait.run(now, reply_at).result == Err::<(), LockerErrorView>(LockerErrorView::Timeout),
        wait.run(now, reply_at).at == now + wait.rest,
        wait.run(now, reply_at).attempts == attempts_until_timeout(
            wait.rest as nat,
            wait.delay as nat,
        ),
    decreases wait.rest,
{
    assert(refused(reply_at(now)));
    lemma_wait_keeps_its_budget(wait, now, reply_at);
    match wait.action(reply_at(now)) {
        WaitActionView::Finish(result) => {},
        WaitActionView::Sleep(ms) => {
            lemma_refused_wait_times_out(wait.slept(), (now + ms) as nat, reply_at);
        },
    }
}

/// What the store answers to a claim of `key` at each time, where the
/// records are `records` until a holder releases `key` at the time
/// `release`, and nobody else claims it.
pub open spec fn held_until(records: Records, key: Seq<char>, release: nat) -> spec_fn(nat)
    -> Result<(), LockerErrorView> {
    |t: nat|
        if t >= release {
            lock_answer(unlock_records(records, key), key)
        } else {
            lock_answer(records, key)
        }
}

/// The first multiple of `delay` that is not before `t`.
pub open spec fn next_poll(t: nat, delay: nat) -> nat
    recommends
        delay > 0,
{
    if t % delay == 0 {
        t
    } else {
        (t - t % delay + delay) as nat
    }
}

proof fn lemma_next_poll_after(now: nat, t: nat, delay: nat)
    requires
        delay > 0,
        now % delay == 0,
        now < t <= now + delay,
    ensures
        next_poll(t, delay) == now + delay,
{
    let d = delay as int;
    let k = t - now;
    let n = now as int;
    assert((n + k) % d == k % d) by {
        lemma_fundamental_div_mod(n, d);
        lemma_mod_multiples_vanish(n / d, k, d);
    }
    if k == d {
        assert(k % d == 0) by (nonlinear_arith)
            requires
                k == d,
                d > 0,
        ;
    } else {
        assert(k % d == k) by (nonlinear_arith)
            requires
                0 < k < d,
        ;
    }
}

proof fn lemma_wait_from_poll(wait: Wait, now: nat, records: Records, key: Seq<char>, release: nat)
    requires
        wait.delay > 0,
        records.contains_key(key),
        now % (wait.delay as nat) == 0,
        release <= now + wait.rest,
    ensures
        wait.run(now, held_until(records, key, release)).result == Ok::<(), LockerErrorView>(()),
        wait.run(now, held_until(records, key, release)).at == (if now >= release {
            now
        } else if next_poll(release, wait.delay as nat) <= now + wait.rest {
            next_poll(release, wait.delay as nat)
        } else {
            (now + wait.rest) as nat
        }),
    decreases wait.rest,
{
    let reply_at = held_until(records, key, release);
    let delay = wait.delay as nat;
    if now < release {
        assert(reply_at(now) == lock_answer(records, key));
        let ms = wait.pause();
        let then = (now + ms) as nat;
        assert(wait.action(reply_at(now)) == WaitActionView::Sleep(ms));
        if ms == wait.delay {
            assert(then % delay == 0) by {
                lemma_mod_add_multiples_vanish(now as int, delay as int);
            }
            lemma_wait_from_poll(wait.slept(), then, records, key, release);
            assert(wait.run(now, reply_at).at == wait.slept().run(then, reply_at).at);
            if then >= release {
                lemma_next_poll_after(now, release, delay);
            }
        } else {
            assert(then >= release);
            assert(reply_at(then) == lock_answer(unlock_records(records, key), key));
            assert(wait.slept().action(reply_at(then)) == WaitActionView::Finish(
                Ok::<(), LockerErrorView>(()),
            ));
            assert(wait.slept().run(then, reply_at).at == then);
            assert(wait.run(now, reply_at).at == then);
            lemma_next_poll_after(now, release, delay);
        }
    } else {
        assert(reply_at(now) == lock_answer(unlock_records(records, key), key));
    }
}

/// A wait for a key that its holder releases within the budget acquires the
/// key at the first poll that is not before the release: at the next
/// multiple of the poll delay, or at the end of the budget if that comes
/// first. So it waits less than one poll delay beyond the release and never
/// beyond the budget, and it returns before the budget is used up wherever
/// a poll falls between the release and the end of the budget.
pub proof fn lemma_wait_acquires_after_release(
    records: Records,
    key: Seq<char>,
    budget: u64,
    delay: u64,
    release: nat,
)
    requires
        delay > 0,
        records.contains_key(key),
        release <= budget,
    ensures
        ({
            let end = (Wait { rest: budget, delay }).run(0, held_until(records, key, release));
            let poll = next_poll(release, delay as nat);
            &&& end.result == Ok::<(), LockerErrorView>(())
            &&& end.at == (if poll <= budget {
                poll
            } else {
                budget as nat
            })
            &&& release <= end.at < release + delay
            &&& end.at <= budget
            &&& poll < budget ==> end.at < budget
        }),
{
    let wait = Wait { rest: budget, delay };
    let d = delay as nat;
    assert(0nat % d == 0) by (nonlinear_arith)
        requires
            d > 0,
    ;
    lemma_wait_from_poll(wait, 0, records, key, release);
    assert(release <= next_poll(release, d) < release + d) by {
        assert(0 <= release % d < d) by (nonlinear_arith)
            requires
                d > 0,
        ;
    }
    if release == 0 {
        assert(next_poll(release, d) == 0);
    }
}

/// A wait that failed ends the scoped run with the wait's error: the work
/// is not done, the lock is not released, and nothing follows.
pub proof fn lemma_failed_wait_ends_the_run<R>(wait_error: LockerError, later: ScopedEvent<R>)
    ensures
        Scoped::<R>::Waiting.action(ScopedEvent::Waited(Err(wait_error))) == ScopedAction::<
            R,
        >::Return(Err(wait_error)),
        Scoped::<R>::Waiting.after(ScopedEvent::Waited(Err(wait_error))) == Scoped::<R>::Done,
        Scoped::<R>::Done.action(later) == ScopedAction::<R>::Ignore,
        Scoped::<R>::Done.after(later) == Scoped::<R>::Done,
{
}

/// Every end of the work is followed by the release of the lock, whether
/// the work returned or panicked. What the caller then sees is the work's
/// own end: what the work returned, unchanged, if the release succeeded;
/// the release's error if the work returned and the release failed; the
/// panic if the work panicked.
pub proof fn lemma_work_is_followed_by_release<R>(end: WorkEnd<R>, release: LockerResult<()>)
    ensures
        Scoped::<R>::Working.action(ScopedEvent::Worked(end)) == ScopedAction::<R>::Release,
        Scoped::<R>::Working.after(ScopedEvent::Worked(end)) == Scoped::Releasing(end),
        Scoped::Releasing(end).after(ScopedEvent::Released(release)) == Scoped::<R>::Done,
        Scoped::Releasing(end).action(ScopedEvent::Released(release)) == (match (end, release) {
            (WorkEnd::Returned(r), Ok(())) => ScopedAction::Return(Ok(r)),
            (WorkEnd::Returned(_), Err(e)) => ScopedAction::Return(Err(e)),
            (WorkEnd::Panicked, _) => ScopedAction::Resume,
        }),
{
}

/// The work lies wholly inside the time in which the lock is held. The run
/// asks for the work only on a wait that succeeded, and holds the lock from
/// then on; it asks for the release only on the end of the work; it gives
/// the lock up only on the release's answer; and it returns or resumes only
/// where it does not hold the lock.
pub proof fn lemma_scoped_steps_in_order<R>(run: Scoped<R>, event: ScopedEvent<R>)
    ensures
        run.action(event) is Work <==> run is Waiting && event matches ScopedEvent::Waited(Ok(_)),
        run.action(event) is Release <==> run is Working && event is Worked,
        !run.holds_lock() && run.after(event).holds_lock() <==> run.action(event) is Work,
        run.holds_lock() && !run.after(event).holds_lock() <==> run is Releasing
            && event is Released,
        run.action(event) is Return || run.action(event) is Resume ==> run.after(event)
            is Done,
        run.action(event) is Ignore ==> run.after(event) == run,
{
}

/// A scoped run on a free key leaves the key free, however the work ends.
/// The wait acquires the key at its first attempt, the work is done, the
/// release that follows finds the record and succeeds, and the store's
/// records are what they were, so that the next claim of the key succeeds.
/// The caller sees what the work returned, a failure value included and
/// unchanged, or the work's panic.
pub proof fn lemma_scoped_run_leaves_the_key_free<R>(
    records: Records,
    key: Seq<char>,
    waited: LockerResult<()>,
    end: WorkEnd<R>,
    release: LockerResult<()>,
)
    requires
        !records.contains_key(key),
        reply_view(waited) == lock_answer(records, key),
        reply_view(release) == unlock_answer(lock_records(records, key), key),
    ensures
        ({
            let working = Scoped::<R>::Waiting.after(ScopedEvent::Waited(waited));
            let releasing = working.after(ScopedEvent::Worked(end));
            &&& Scoped::<R>::Waiting.action(ScopedEvent::Waited(waited)) == ScopedAction::<
                R,
            >::Work
            &&& working.action(ScopedEvent::Worked(end)) == ScopedAction::<R>::Release
            &&& releasing.action(ScopedEvent::Released(release)) == (match end {
                WorkEnd::Returned(r) => ScopedAction::Return(Ok(r)),
                WorkEnd::Panicked => ScopedAction::Resume,
            })
            &&& releasing.after(ScopedEvent::Released(release)) == Scoped::<R>::Done
        }),
        unlock_records(lock_records(records, key), key) == records,
        lock_answer(unlock_records(lock_records(records, key), key), key) is Ok,
{
    assert(unlock_records(lock_records(records, key), key) =~= records);
}

} // verus!
