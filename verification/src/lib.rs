//! A best-effort distributed lock over a key-value store with atomic
//! conditional writes.

use vstd::prelude::*;

pub mod client;
mod data;
mod error;
pub mod laws;
mod locker;
mod scoped;

pub use client::dynamo_client::decimal::{
    decimal, decimal_text, signed_decimal, signed_decimal_text,
};
pub use client::dynamo_client::item::{
    attributes_of, distinct_names, entries_view, Attribute, AttributeValue, AttributeValueView,
    Item,
};
pub use client::dynamo_client::lock_store::{
    DeleteItemInput, DeleteItemInputView, DynamoLockStoreClient, PutItemInput, PutItemInputView,
};
pub use client::dynamo_client::locker::DynamoLockerClient;
pub use client::memory_client::{MemoryLockStore, MemoryLocker, Precondition, Records};
pub use data::LockKey;
pub use error::{debug_text, LockerError, LockerErrorView};
pub use locker::{
    acquired, lock_reply, lock_result, released, reply_view, store_locks, store_unlocks,
    unlock_reply, unlock_result, work_result, DeleteOutcome, LockStore, Locker, PutOutcome, Wait,
    WaitAction, WaitActionView, WaitEnd, FIRST_CLAIM, SECOND_CLAIM,
};
pub use scoped::{Scoped, ScopedAction, ScopedEvent, WorkEnd};

verus! {

/// What a lock operation returns.
pub type LockerResult<T> = Result<T, LockerError>;

} // verus!
