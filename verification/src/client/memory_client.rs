use crate::data::LockKey;
use crate::error::LockerErrorView;
use crate::locker::{
    acquired, lock_result, released, reply_view, unlock_result, DeleteOutcome, LockStore, Locker,
    PutOutcome, FIRST_CLAIM, SECOND_CLAIM,
};
use crate::LockerResult;
use vstd::hash_map::StringHashMap;
use vstd::prelude::*;

verus! {

/// What a conditional write asks of the record that is there.
#[derive(Clone, Copy, Debug, PartialEq, Eq, Structural)]
pub enum Precondition {
    /// The record has no status: there is no record.
    StatusAbsent,
    /// The record's status is this value.
    StatusEquals(usize),
}

/// The lock records of a store: the status of each key that has a record.
/// A key without a record is free.
pub type Records = Map<Seq<char>, usize>;

/// Whether `precondition` holds of the record of `key`.
pub open spec fn condition_holds(records: Records, key: Seq<char>, precondition: Precondition)
    -> bool {
    match precondition {
        Precondition::StatusAbsent => !records.contains_key(key),
        Precondition::StatusEquals(status) => records.contains_key(key) && records[key]
            == status,
    }
}

/// The answer to a conditional write for `key`.
pub open spec fn put_outcome(records: Records, key: Seq<char>, precondition: Precondition)
    -> PutOutcome {
    if condition_holds(records, key, precondition) {
        PutOutcome::Written
    } else {
        PutOutcome::ConditionalCheckFailed
    }
}

/// The records after a conditional write of `status` for `key`: the write
/// lands if the precondition holds, and changes nothing otherwise.
pub open spec fn put_records(
    records: Records,
    key: Seq<char>,
    status: usize,
    precondition: Precondition,
) -> Records {
    if condition_holds(records, key, precondition) {
        records.insert(key, status)
    } else {
        records
    }
}

/// The answer to a deletion for `key`: the status that the record had, if
/// there was one.
pub open spec fn delete_outcome(records: Records, key: Seq<char>) -> DeleteOutcome<usize> {
    if records.contains_key(key) {
        DeleteOutcome::Deleted(Some(records[key]))
    } else {
        DeleteOutcome::Deleted(None)
    }
}

/// The reply to a first claim of `key`.
pub open spec fn lock_answer(records: Records, key: Seq<char>) -> Result<(), LockerErrorView> {
    acquired(key, put_outcome(records, key, Precondition::StatusAbsent))
}

/// The records after a first claim of `key`.
pub open spec fn lock_records(records: Records, key: Seq<char>) -> Records {
    put_records(records, key, FIRST_CLAIM, Precondition::StatusAbsent)
}

/// The reply to a second claim of `key`.
pub open spec fn second_lock_answer(records: Records, key: Seq<char>) -> Result<
    (),
    LockerErrorView,
> {
    acquired(key, put_outcome(records, key, Precondition::StatusEquals(FIRST_CLAIM)))
}

/// The records after a second claim of `key`.
pub open spec fn second_lock_records(records: Records, key: Seq<char>) -> Records {
    put_records(records, key, SECOND_CLAIM, Precondition::StatusEquals(FIRST_CLAIM))
}

/// The reply to a release of `key`.
pub open spec fn unlock_answer(records: Records, key: Seq<char>) -> Result<(), LockerErrorView> {
    released(key, delete_outcome(records, key))
}

/// The records after a release of `key`.
pub open spec fn unlock_records(records: Records, key: Seq<char>) -> Records {
    records.remove(key)
}

/// A backing store in memory: lock records with atomic conditional writes,
/// for one process. It never fails to answer.
pub struct MemoryLockStore {
    records: StringHashMap<usize>,
}

impl View for MemoryLockStore {
    type V = Records;

    closed spec fn view(&self) -> Records {
        self.records@
    }
}

impl MemoryLockStore {
    /// A store without records: every key is free.
    pub fn new() -> (store: MemoryLockStore)
        ensures
            store@ == Records::empty(),
    {
        MemoryLockStore { records: StringHashMap::new() }
    }

    /// The status of the record of `key`, if there is a record.
    pub fn status(&self, key: &LockKey) -> (status: Option<usize>)
        ensures
            status is Some <==> self@.contains_key(key@),
            status matches Some(n) ==> n == self@[key@],
    {
        match self.records.get(key.as_str()) {
            Some(n) => Some(*n),
            None => None,
        }
    }

    /// Writes `status` as the record of `key` if `precondition` holds of
    /// the record that is there, in one step.
    pub fn conditional_put(&mut self, key: &LockKey, status: usize, precondition: Precondition)
        -> (outcome: PutOutcome)
        ensures
            outcome == put_outcome(old(self)@, key@, precondition),
            final(self)@ == put_records(old(self)@, key@, status, precondition),
    {
        let found = self.status(key);
        let holds = match precondition {
            Precondition::StatusAbsent => found.is_none(),
            Precondition::StatusEquals(expected) => match found {
                Some(n) => n == expected,
                None => false,
            },
        };
        if holds {
            self.records.insert(key.clone().into_string(), status);
            PutOutcome::Written
        } else {
            PutOutcome::ConditionalCheckFailed
        }
    }

    /// Deletes the record of `key` and hands back the status that it had,
    /// in one step.
    pub fn conditional_delete(&mut self, key: &LockKey) -> (outcome: DeleteOutcome<usize>)
        ensures
            outcome == delete_outcome(old(self)@, key@),
            final(self)@ == unlock_records(old(self)@, key@),
    {
        let found = self.status(key);
        self.records.remove(key.as_str());
        DeleteOutcome::Deleted(found)
    }

    /// A second claim of `key`: it succeeds on a record that a first claim
    /// wrote, whose status it takes from 1 to 2.
    pub fn lock_if_locked(&mut self, key: LockKey) -> (reply: LockerResult<()>)
        ensures
            reply_view(reply) == second_lock_answer(old(self)@, key@),
            final(self)@ == second_lock_records(old(self)@, key@),
    {
        let outcome = self.conditional_put(
            &key,
            SECOND_CLAIM,
            Precondition::StatusEquals(FIRST_CLAIM),
        );
        lock_result(key, outcome)
    }
}

impl LockStore for MemoryLockStore {
    /// The one answer to a first claim of `key`, and the records after it.
    open spec fn locks(
        &self,
        key: Seq<char>,
        reply: Result<(), LockerErrorView>,
        after: &MemoryLockStore,
    ) -> bool {
        reply == lock_answer(self@, key) && after@ == lock_records(self@, key)
    }

    /// The one answer to a release of `key`, and the records after it.
    open spec fn unlocks(
        &self,
        key: Seq<char>,
        reply: Result<(), LockerErrorView>,
        after: &MemoryLockStore,
    ) -> bool {
        reply == unlock_answer(self@, key) && after@ == unlock_records(self@, key)
    }

    /// A first claim of `key`: it succeeds if `key` has no record, and
    /// writes one of status 1.
    fn lock(&mut self, key: LockKey) -> (reply: LockerResult<()>)
        ensures
            reply_view(reply) == lock_answer(old(self)@, key@),
            final(self)@ == lock_records(old(self)@, key@),
    {
        let outcome = self.conditional_put(&key, FIRST_CLAIM, Precondition::StatusAbsent);
        lock_result(key, outcome)
    }

    /// A release of `key`: it succeeds if `key` has a record, and deletes
    /// it.
    fn unlock(&mut self, key: LockKey) -> (reply: LockerResult<()>)
        ensures
            reply_view(reply) == unlock_answer(old(self)@, key@),
            final(self)@ == unlock_records(old(self)@, key@),
    {
        let outcome = self.conditional_delete(&key);
        unlock_result(key, outcome)
    }
}

/// A locker in memory: a `MemoryLockStore` and a poll delay.
pub struct MemoryLocker {
    store: MemoryLockStore,
    delay: u64,
}

impl MemoryLocker {
    /// A locker on `store` that polls every `delay` milliseconds.
    pub fn new(store: MemoryLockStore, delay: u64) -> (locker: MemoryLocker)
        ensures
            locker.store_view() == store,
            locker.poll_delay() == delay,
    {
        MemoryLocker { store, delay }
    }

    /// The locker's store, given up by the locker.
    pub fn into_store(self) -> (store: MemoryLockStore)
        ensures
            store == self.store_view(),
    {
        self.store
    }
}

impl Locker for MemoryLocker {
    type LockerStore = MemoryLockStore;

    closed spec fn store_view(&self) -> MemoryLockStore {
        self.store
    }

    closed spec fn poll_delay(&self) -> u64 {
        self.delay
    }

    fn store(&mut self) -> (store: &mut MemoryLockStore) {
        &mut self.store
    }

    fn delay(&self) -> (ms: u64) {
        self.delay
    }
}

} // verus!
