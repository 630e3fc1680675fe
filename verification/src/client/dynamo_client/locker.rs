use crate::client::dynamo_client::lock_store::DynamoLockStoreClient;
use crate::locker::Wait;
use crate::scoped::Scoped;
use vstd::prelude::*;

verus! {

/// A lock protocol client together with the delay between two attempts of a
/// bounded wait. Neither changes once the locker is made.
#[derive(Debug)]
pub struct DynamoLockerClient {
    store: DynamoLockStoreClient,
    delay: u64,
}

impl Clone for DynamoLockerClient {
    fn clone(&self) -> (copy: DynamoLockerClient)
        ensures
            copy == *self,
    {
        DynamoLockerClient { store: self.store.clone(), delay: self.delay }
    }
}

impl DynamoLockerClient {
    /// The protocol client that the locker was made with.
    pub closed spec fn store_of(&self) -> DynamoLockStoreClient {
        self.store
    }

    /// The poll delay that the locker was made with, in milliseconds.
    pub closed spec fn delay_of(&self) -> u64 {
        self.delay
    }

    /// A locker on `store` that polls every `delay` milliseconds.
    pub fn new(store: DynamoLockStoreClient, delay: u64) -> (locker: DynamoLockerClient)
        ensures
            locker.store_of() == store,
            locker.delay_of() == delay,
    {
        DynamoLockerClient { store, delay }
    }

    /// The protocol client.
    pub fn store(&self) -> (store: &DynamoLockStoreClient)
        ensures
            *store == self.store_of(),
    {
        &self.store
    }

    /// The poll delay, in milliseconds.
    pub fn delay(&self) -> (ms: u64)
        ensures
            ms == self.delay_of(),
    {
        self.delay
    }

    /// Begins a bounded wait of `ms` milliseconds at this locker's poll
    /// delay. Whoever runs the wait makes the attempts and sleeps as
    /// `Wait::step` says.
    pub fn wait(&self, ms: u64) -> (wait: Wait)
        ensures
            wait == (Wait { rest: ms, delay: self.delay_of() }),
    {
        Wait::new(ms, self.delay())
    }

    /// Begins a scoped run: work under the lock after a wait of at most
    /// `ms` milliseconds at this locker's poll delay. Whoever runs it
    /// performs the wait first and then does what `Scoped::step` says.
    pub fn work_with_wait_lock<R>(&self, ms: u64) -> (run: (Scoped<R>, Wait))
        ensures
            run.0 == Scoped::<R>::Waiting,
            run.1 == (Wait { rest: ms, delay: self.delay_of() }),
    {
        Scoped::begin(ms, self.delay())
    }
}

} // verus!
