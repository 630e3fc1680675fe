use crate::locker::{work_result, Wait};
use crate::LockerResult;
use vstd::prelude::*;

verus! {

/// How the protected work ended.
#[derive(Debug)]
pub enum WorkEnd<R> {
    /// The work ran to its end and returned this, which may itself tell of
    /// a failure.
    Returned(R),
    /// The work panicked.
    Panicked,
}

/// Where a scoped run stands: wait for the lock, do the work, release the
/// lock, return.
#[derive(Debug)]
pub enum Scoped<R> {
    /// The wait for the lock has not answered yet; the lock is not held.
    Waiting,
    /// The lock is held and the work has not ended yet.
    Working,
    /// The work has ended, as told here, and the release has not answered
    /// yet.
    Releasing(WorkEnd<R>),
    /// The run is over.
    Done,
}

/// What happened in a scoped run.
#[derive(Debug)]
pub enum ScopedEvent<R> {
    /// The wait for the lock answered.
    Waited(LockerResult<()>),
    /// The work ended.
    Worked(WorkEnd<R>),
    /// The release of the lock answered.
    Released(LockerResult<()>),
}

/// What to do next in a scoped run.
#[derive(Debug)]
pub enum ScopedAction<R> {
    /// Do the work, then tell how it ended.
    Work,
    /// Release the lock, then tell what the release answered.
    Release,
    /// Return this to the caller.
    Return(LockerResult<R>),
    /// Let the work's panic go on to the caller.
    Resume,
    /// Nothing: the run does not await this event where it stands.
    Ignore,
}

impl<R> Scoped<R> {
    /// What follows an event.
    /// - The work is done only after a wait that succeeded; a wait that
    ///   failed ends the run with its error, without work and without
    ///   release.
    /// - Every end of the work is followed by the release.
    /// - After the release, work that returned is returned if the release
    ///   succeeded, and gives way to the release's error if it did not;
    ///   work that panicked goes on panicking, whatever the release
    ///   answered.
    /// - An event that the run does not await where it stands is ignored.
    pub open spec fn action(self, event: ScopedEvent<R>) -> ScopedAction<R> {
        match (self, event) {
            (Scoped::Waiting, ScopedEvent::Waited(Ok(()))) => ScopedAction::Work,
            (Scoped::Waiting, ScopedEvent::Waited(Err(e))) => ScopedAction::Return(Err(e)),
            (Scoped::Working, ScopedEvent::Worked(_)) => ScopedAction::Release,
            (Scoped::Releasing(WorkEnd::Returned(r)), ScopedEvent::Released(Ok(()))) => {
                ScopedAction::Return(Ok(r))
            },
            (Scoped::Releasing(WorkEnd::Returned(_)), ScopedEvent::Released(Err(e))) => {
                ScopedAction::Return(Err(e))
            },
            (Scoped::Releasing(WorkEnd::Panicked), ScopedEvent::Released(_)) => {
                ScopedAction::Resume
            },
            _ => ScopedAction::Ignore,
        }
    }

    /// Where the run stands after an event. An event that the run does not
    /// await leaves it where it stood.
    pub open spec fn after(self, event: ScopedEvent<R>) -> Scoped<R> {
        match (self, event) {
            (Scoped::Waiting, ScopedEvent::Waited(Ok(()))) => Scoped::Working,
            (Scoped::Waiting, ScopedEvent::Waited(Err(_))) => Scoped::Done,
            (Scoped::Working, ScopedEvent::Worked(end)) => Scoped::Releasing(end),
            (Scoped::Releasing(_), ScopedEvent::Released(_)) => Scoped::Done,
            _ => self,
        }
    }

    /// Whether the lock is held where the run stands: from the wait that
    /// succeeded until the release has answered.
    pub open spec fn holds_lock(self) -> bool {
        self is Working || self is Releasing
    }

    /// Begins a scoped run with a budget of `ms` milliseconds for the wait
    /// and a poll delay of `delay` milliseconds: the run, which awaits the
    /// wait's answer, and the wait to run first, with the whole budget.
    pub fn begin(ms: u64, delay: u64) -> (run: (Scoped<R>, Wait))
        ensures
            run.0 == Scoped::<R>::Waiting,
            run.1 == (Wait { rest: ms, delay }),
    {
        (Scoped::Waiting, Wait::new(ms, delay))
    }

    /// Takes an event and decides what to do next. Whoever runs the work
    /// under the lock does what the answer says, and nothing else.
    pub fn step(self, event: ScopedEvent<R>) -> (next: (Scoped<R>, ScopedAction<R>))
        ensures
            next.0 == self.after(event),
            next.1 == self.action(event),
    {
        match (self, event) {
            (Scoped::Waiting, ScopedEvent::Waited(Ok(()))) => (Scoped::Working, ScopedAction::Work),
            (Scoped::Waiting, ScopedEvent::Waited(Err(e))) => (
                Scoped::Done,
                ScopedAction::Return(Err(e)),
            ),
            (Scoped::Working, ScopedEvent::Worked(end)) => (
                Scoped::Releasing(end),
                ScopedAction::Release,
            ),
            (Scoped::Releasing(WorkEnd::Returned(r)), ScopedEvent::Released(reply)) => (
                Scoped::Done,
                ScopedAction::Return(work_result(r, reply)),
            ),
            (Scoped::Releasing(WorkEnd::Panicked), ScopedEvent::Released(_)) => (
                Scoped::Done,
                ScopedAction::Resume,
            ),
            (state, _) => (state, ScopedAction::Ignore),
        }
    }
}

} // verus!
