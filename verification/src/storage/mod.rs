//! The storage engine of the lock service: the operations that every backend
//! offers, and the backends.

pub mod table;
pub mod memory;
pub mod laws;
pub mod redis;

use vstd::prelude::*;
use crate::clock::Timestamp;
use crate::models::{LockInfo, LockRecord};
use crate::storage::memory::StoreState;

verus! {

/// A backend that could not answer. It is never the same thing as a lock
/// that is not held.
#[derive(Debug)]
pub enum StorageError {
    /// The backend failed; the text says how.
    Backend(String),
}

/// The record that an optional stored value stands for.
pub open spec fn record_of(found: Option<LockInfo>) -> Option<LockRecord> {
    match found {
        Some(lock_info) => Some(lock_info@),
        None => None,
    }
}

/// The operations of a lock store that reads the clock itself.
///
/// A store either always answers, as the in-process store does, or may fail
/// to answer, as a store behind a network may. Of a store that always answers
/// each operation says exactly what it returns and leaves behind, for the
/// instant that it read; of the others only what holds where they answer.
pub trait LockStorage {
    /// What the store holds.
    spec fn content(&self) -> StoreState;

    /// Whether the store always answers.
    spec fn always_answers(&self) -> bool;

    /// Tries to make `lock_info` the holder of its key. Where the store
    /// grants, it then shows a record of the candidate's owner under the
    /// key. A store that always answers grants exactly where no other owner
    /// holds the key live at the instant it read, and is left as the acquire
    /// at that instant leaves it.
    fn try_acquire(&mut self, lock_info: LockInfo) -> (r: Result<bool, StorageError>)
        ensures
            r is Ok && r->Ok_0 ==> {
                let held = final(self).content().shows(lock_info@.lock_key());
                held is Some && held.unwrap().user_id == lock_info@.user_id
            },
            old(self).always_answers() ==> final(self).always_answers(),
            old(self).always_answers() ==> exists|now: Timestamp|
                {
                    &&& r == Ok::<bool, StorageError>(old(self).content().grants(lock_info@, now))
                    &&& final(self).content() == #[trigger] old(self).content().after_acquire(
                        lock_info@,
                        now,
                    )
                },
    ;

    /// The record stored under `lock_key`, expired or not: where the store
    /// answers, it answers with what it shows.
    fn get_lock(&self, lock_key: &String) -> (r: Result<Option<LockInfo>, StorageError>)
        ensures
            r is Ok ==> record_of(r->Ok_0) == self.content().shows(lock_key@),
            self.always_answers() ==> r is Ok,
    ;

    /// Keeps the lock `lock_id` alive: where the store answers, it says
    /// whether the id named the record that its key held. A store that
    /// always answers is left as the heartbeat at the instant it read leaves
    /// it.
    fn update_heartbeat(&mut self, lock_id: &String) -> (r: Result<bool, StorageError>)
        ensures
            r is Ok ==> r->Ok_0 == old(self).content().holds(lock_id@),
            old(self).always_answers() ==> r is Ok && final(self).always_answers(),
            old(self).always_answers() ==> exists|now: Timestamp|
                final(self).content() == #[trigger] old(self).content().after_heartbeat(lock_id@, now),
    ;

    /// Gives up the lock `lock_id`: where the store answers, it says whether
    /// the id named the record that its key held, and it no longer does. A
    /// store that always answers is left as the release leaves it.
    fn release(&mut self, lock_id: &String) -> (r: Result<bool, StorageError>)
        ensures
            r is Ok ==> r->Ok_0 == old(self).content().holds(lock_id@),
            r is Ok ==> !final(self).content().holds(lock_id@),
            old(self).always_answers() ==> r is Ok && final(self).always_answers(),
            old(self).always_answers() ==> final(self).content() == old(self).content().after_release(
                lock_id@,
            ),
    ;

    /// Removes the records that are expired. A store that always answers
    /// is left as the sweep at the instant it read leaves it.
    fn cleanup_expired(&mut self) -> (r: Result<(), StorageError>)
        ensures
            old(self).always_answers() ==> r is Ok && final(self).always_answers(),
            old(self).always_answers() ==> exists|now: Timestamp|
                final(self).content() == #[trigger] old(self).content().after_cleanup(now),
    ;
}

} // verus!
