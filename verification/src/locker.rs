use crate::data::LockKey;
use crate::error::{LockerError, LockerErrorView};
use crate::scoped::Scoped;
use crate::LockerResult;
use vstd::prelude::*;

verus! {

/// What an acquisition may answer for `key`: success, `AlreadyLocked` with
/// that key, or an access error.
pub open spec fn lock_reply(key: Seq<char>, reply: LockerResult<()>) -> bool {
    reply matches Err(e) ==> e@ == LockerErrorView::AlreadyLocked(key)
        || e@ is AccessError
}

/// What a release may answer for `key`: success, `AlreadyUnlocked` with that
/// key, or an access error.
pub open spec fn unlock_reply(key: Seq<char>, reply: LockerResult<()>) -> bool {
    reply matches Err(e) ==> e@ == LockerErrorView::AlreadyUnlocked(key)
        || e@ is AccessError
}

/// How the backing store answered a conditional write of a lock record.
#[derive(Debug)]
pub enum PutOutcome {
    /// The precondition held and the record was written.
    Written,
    /// The precondition did not hold; nothing was written.
    ConditionalCheckFailed,
    /// The store could not be reached or failed otherwise; its message.
    Failed(String),
}

/// How the backing store answered the deletion of a lock record that asked
/// for the record's previous attributes. `P` is whatever the store hands
/// back as those attributes; only their presence is read.
#[derive(Debug)]
pub enum DeleteOutcome<P> {
    /// The request went through; the attributes that the record had, if
    /// there was a record.
    Deleted(Option<P>),
    /// The store could not be reached or failed otherwise; its message.
    Failed(String),
}

/// The reply to an acquisition of `key` that the store answered with
/// `outcome`.
pub open spec fn acquired(key: Seq<char>, outcome: PutOutcome) -> Result<(), LockerErrorView> {
    match outcome {
        PutOutcome::Written => Ok(()),
        PutOutcome::ConditionalCheckFailed => Err(LockerErrorView::AlreadyLocked(key)),
        PutOutcome::Failed(message) => Err(LockerErrorView::AccessError(message@)),
    }
}

/// The reply to a release of `key` that the store answered with `outcome`.
pub open spec fn released<P>(key: Seq<char>, outcome: DeleteOutcome<P>) -> Result<
    (),
    LockerErrorView,
> {
    match outcome {
        DeleteOutcome::Deleted(Some(_)) => Ok(()),
        DeleteOutcome::Deleted(None) => Err(LockerErrorView::AlreadyUnlocked(key)),
        DeleteOutcome::Failed(message) => Err(LockerErrorView::AccessError(message@)),
    }
}

/// The two atomic operations that a backing store offers on lock records.
///
/// An implementation makes one attempt per call and never retries by itself.
pub trait LockStore: Sized {
    /// Whether this store, asked to lock `key`, may answer `reply` and be
    /// `after` from then on. Each store says which answers those are.
    spec fn locks(
        &self,
        key: Seq<char>,
        reply: Result<(), LockerErrorView>,
        after: &Self,
    ) -> bool;

    /// Whether this store, asked to unlock `key`, may answer `reply` and be
    /// `after` from then on. Each store says which answers those are.
    spec fn unlocks(
        &self,
        key: Seq<char>,
        reply: Result<(), LockerErrorView>,
        after: &Self,
    ) -> bool;

    /// Writes the lock record of `key` if the resource is free. Its answer,
    /// and the store that it leaves, are among those that `locks` admits.
    fn lock(&mut self, key: LockKey) -> (reply: LockerResult<()>)
        ensures
            lock_reply(key@, reply),
            old(self).locks(key@, reply_view(reply), final(self)),
    ;

    /// Deletes the lock record of `key` if there is one. Its answer, and
    /// the store that it leaves, are among those that `unlocks` admits.
    fn unlock(&mut self, key: LockKey) -> (reply: LockerResult<()>)
        ensures
            unlock_reply(key@, reply),
            old(self).unlocks(key@, reply_view(reply), final(self)),
    ;
}

/// A store together with the delay between two attempts of a bounded wait.
/// The delay is fixed when the locker is made: no operation changes it.
pub trait Locker: Sized {
    /// The kind of store that the locker works on.
    type LockerStore: LockStore;

    /// The store that the locker works on, as it stands.
    spec fn store_view(&self) -> Self::LockerStore;

    /// The poll delay that the locker was made with, in milliseconds.
    spec fn poll_delay(&self) -> u64;

    /// The store that the locker works on, to be changed in place: what
    /// becomes of it is what becomes of the locker's store.
    fn store(&mut self) -> (store: &mut Self::LockerStore)
        ensures
            *store == old(self).store_view(),
            final(self).store_view() == *final(store),
            final(self).poll_delay() == old(self).poll_delay(),
    ;

    /// The poll delay, in milliseconds.
    fn delay(&self) -> (ms: u64)
        ensures
            ms == self.poll_delay(),
    ;

    /// One attempt to acquire `key`, without waiting.
    fn lock(&mut self, key: LockKey) -> (reply: LockerResult<()>)
        ensures
            store_locks(old(self).store_view(), key@, reply, final(self).store_view()),
            final(self).poll_delay() == old(self).poll_delay(),
    {
        self.store().lock(key)
    }

    /// One attempt to release `key`.
    fn unlock(&mut self, key: LockKey) -> (reply: LockerResult<()>)
        ensures
            store_unlocks(old(self).store_view(), key@, reply, final(self).store_view()),
            final(self).poll_delay() == old(self).poll_delay(),
    {
        self.store().unlock(key)
    }

    /// Just an alias to `lock`.
    fn allow_only_first_comer(&mut self, key: LockKey) -> (reply: LockerResult<()>)
        ensures
            store_locks(old(self).store_view(), key@, reply, final(self).store_view()),
            final(self).poll_delay() == old(self).poll_delay(),
    {
        self.lock(key)
    }

    /// Begins a bounded wait of `ms` milliseconds at this locker's poll
    /// delay. Whoever runs the wait makes the attempts and sleeps as
    /// `Wait::step` says.
    fn wait(&self, ms: u64) -> (wait: Wait)
        ensures
            wait == (Wait { rest: ms, delay: self.poll_delay() }),
    {
        Wait::new(ms, self.delay())
    }

    /// Begins a scoped run: work under the lock after a wait of at most
    /// `ms` milliseconds at this locker's poll delay. Whoever runs it
    /// performs the wait first and then does what `Scoped::step` says.
    fn work_with_wait_lock<R>(&self, ms: u64) -> (run: (Scoped<R>, Wait))
        ensures
            run.0 == Scoped::<R>::Waiting,
            run.1 == (Wait { rest: ms, delay: self.poll_delay() }),
    {
        Scoped::begin(ms, self.delay())
    }
}

/// What a locker's attempt to acquire `key` comes to, its store being
/// `before`: the store is asked once to lock `key`, the store's answer is
/// the `reply`, and `after` is the store as that one call left it.
pub open spec fn store_locks<S: LockStore>(
    before: S,
    key: Seq<char>,
    reply: LockerResult<()>,
    after: S,
) -> bool {
    &&& lock_reply(key, reply)
    &&& before.locks(key, reply_view(reply), &after)
}

/// What a locker's attempt to release `key` comes to, its store being
/// `before`: the store is asked once to unlock `key`, the store's answer is
/// the `reply`, and `after` is the store as that one call left it.
pub open spec fn store_unlocks<S: LockStore>(
    before: S,
    key: Seq<char>,
    reply: LockerResult<()>,
    after: S,
) -> bool {
    &&& unlock_reply(key, reply)
    &&& before.unlocks(key, reply_view(reply), &after)
}

/// The status of a record that a first claimant wrote.
pub const FIRST_CLAIM: usize = 1;

/// The status of a record that a second claimant wrote.
pub const SECOND_CLAIM: usize = 2;

/// Reads the store's answer to a conditional write as the reply to an
/// acquisition: a failed precondition means that the lock is held, which is
/// an expected outcome; any other failure is an access error that keeps the
/// store's message.
pub fn lock_result(key: LockKey, outcome: PutOutcome) -> (reply: LockerResult<()>)
    ensures
        reply_view(reply) == acquired(key@, outcome),
        lock_reply(key@, reply),
{
    match outcome {
        PutOutcome::Written => Ok(()),
        PutOutcome::ConditionalCheckFailed => Err(LockerError::AlreadyLocked(key)),
        PutOutcome::Failed(message) => Err(LockerError::AccessError(message)),
    }
}

/// Reads the store's answer to a deletion as the reply to a release: a
/// deletion that found no record means that the lock was not held; a failure
/// is an access error that keeps the store's message.
pub fn unlock_result<P>(key: LockKey, outcome: DeleteOutcome<P>) -> (reply: LockerResult<()>)
    ensures
        reply_view(reply) == released(key@, outcome),
        unlock_reply(key@, reply),
{
    match outcome {
        DeleteOutcome::Deleted(Some(_)) => Ok(()),
        DeleteOutcome::Deleted(None) => Err(LockerError::AlreadyUnlocked(key)),
        DeleteOutcome::Failed(message) => Err(LockerError::AccessError(message)),
    }
}

/// A bounded wait for a lock, between two attempts.
///
/// The wait itself neither calls the store nor sleeps. Whoever runs it makes
/// one acquisition attempt, hands the store's reply to `step`, and does what
/// `step` answers: stop with a result, or sleep and attempt again.
#[derive(Clone, Copy, Debug, PartialEq, Eq, Structural)]
pub struct Wait {
    /// What is left of the time budget, in milliseconds.
    pub rest: u64,
    /// The configured delay between two attempts, in milliseconds.
    pub delay: u64,
}

/// What to do after an acquisition attempt of a bounded wait.
#[derive(Debug)]
pub enum WaitAction {
    /// The wait is over, with this result.
    Finish(LockerResult<()>),
    /// Sleep for so many milliseconds, then attempt again.
    Sleep(u64),
}

/// A `WaitAction`, with strings as sequences of characters.
pub enum WaitActionView {
    Finish(Result<(), LockerErrorView>),
    Sleep(u64),
}

/// A reply of the store, with strings as sequences of characters.
pub open spec fn reply_view(reply: LockerResult<()>) -> Result<(), LockerErrorView> {
    match reply {
        Ok(()) => Ok(()),
        Err(e) => Err(e@),
    }
}

impl View for WaitAction {
    type V = WaitActionView;

    open spec fn view(&self) -> WaitActionView {
        match self {
            WaitAction::Finish(result) => WaitActionView::Finish(reply_view(*result)),
            WaitAction::Sleep(ms) => WaitActionView::Sleep(*ms),
        }
    }
}

impl Wait {
    /// The sleep before the next attempt: the poll delay, but never more
    /// than what is left of the budget.
    pub open spec fn pause(self) -> u64 {
        if self.rest <= self.delay {
            self.rest
        } else {
            self.delay
        }
    }

    /// The wait after the sleep that `pause` gives.
    pub open spec fn slept(self) -> Wait {
        Wait { rest: (self.rest - self.pause()) as u64, delay: self.delay }
    }

    /// What follows an attempt that the store answered with `reply`:
    /// - success ends the wait with `Ok`;
    /// - an access error ends it with that error, unretried;
    /// - any other refusal ends it with `Timeout` if the budget is used up,
    ///   and asks for a sleep of `pause` milliseconds otherwise.
    pub open spec fn action(self, reply: Result<(), LockerErrorView>) -> WaitActionView {
        match reply {
            Ok(()) => WaitActionView::Finish(Ok(())),
            Err(LockerErrorView::AccessError(message)) => WaitActionView::Finish(
                Err(LockerErrorView::AccessError(message)),
            ),
            Err(_) => if self.rest == 0 {
                WaitActionView::Finish(Err(LockerErrorView::Timeout))
            } else {
                WaitActionView::Sleep(self.pause())
            },
        }
    }

    /// The wait after an attempt that the store answered with `reply`: the
    /// budget loses the sleep that `action` asks for, if it asks for one.
    pub open spec fn after(self, reply: Result<(), LockerErrorView>) -> Wait {
        if self.action(reply) is Sleep {
            self.slept()
        } else {
            self
        }
    }

    /// A wait with a budget of `ms` milliseconds that polls every `delay`
    /// milliseconds.
    pub fn new(ms: u64, delay: u64) -> (wait: Wait)
        ensures
            wait == (Wait { rest: ms, delay }),
    {
        Wait { rest: ms, delay }
    }

    /// Decides what follows an acquisition attempt. Call it once after each
    /// attempt, the first included: a budget of zero still gets its one
    /// attempt before it can time out.
    ///
    /// With a poll delay of zero and budget left, a refusal is answered
    /// with a sleep of zero milliseconds that leaves the budget as it is:
    /// such a wait polls without pause for as long as it is refused.
    pub fn step(&mut self, reply: LockerResult<()>) -> (action: WaitAction)
        ensures
            action@ == old(self).action(reply_view(reply)),
            *final(self) == old(self).after(reply_view(reply)),
    {
        match reply {
            Ok(()) => WaitAction::Finish(Ok(())),
            Err(LockerError::AccessError(message)) => WaitAction::Finish(
                Err(LockerError::AccessError(message)),
            ),
            Err(_) => {
                if self.rest == 0 {
                    WaitAction::Finish(Err(LockerError::Timeout))
                } else {
                    let pause: u64 = if self.rest <= self.delay {
                        self.rest
                    } else {
                        self.delay
                    };
                    self.rest = self.rest - pause;
                    WaitAction::Sleep(pause)
                }
            },
        }
    }
}

/// How a bounded wait ended.
pub struct WaitEnd {
    /// What the wait returned.
    pub result: Result<(), LockerErrorView>,
    /// The time at which it returned, in milliseconds on the clock that the
    /// wait started on.
    pub at: nat,
    /// How many acquisition attempts it made.
    pub attempts: nat,
}

impl Wait {
    /// The end of this wait when it is run from the time `now` against a
    /// store that answers an attempt made at the time `t` with
    /// `reply_at(t)`. An attempt takes no time, and a sleep takes what was
    /// asked for.
    ///
    /// A sleep of zero milliseconds happens only where the poll delay is
    /// zero and the budget is not used up. Such a wait has no end while
    /// the lock is refused, and nothing is said of it.
    pub open spec fn run(self, now: nat, reply_at: spec_fn(nat) -> Result<(), LockerErrorView>)
        -> WaitEnd
        decreases self.rest,
    {
        match self.action(reply_at(now)) {
            WaitActionView::Finish(result) => WaitEnd { result, at: now, attempts: 1 },
            WaitActionView::Sleep(ms) => if ms == 0 {
                arbitrary()
            } else {
                let end = self.slept().run((now + ms) as nat, reply_at);
                WaitEnd { result: end.result, at: end.at, attempts: end.attempts + 1 }
            },
        }
    }
}

/// The result of a scoped run, once the work has ended with `work` and the
/// release that follows it has answered `release`: the work's result if the
/// release succeeded, the release's error if it did not.
pub fn work_result<R>(work: R, release: LockerResult<()>) -> (result: LockerResult<R>)
    ensures
        release is Ok ==> result == Ok::<R, LockerError>(work),
        release matches Err(e) ==> result == Err::<R, LockerError>(e),
{
    match release {
        Ok(()) => Ok(work),
        Err(e) => Err(e),
    }
}

} // verus!
