//! The in-process store: a forward table from lock key to record and a
//! reverse index from lock id to lock key.
//!
//! Order of mutation: on insert the reverse index is written before the
//! forward table; on removal the reverse index is cleared before the forward
//! table.
//!
//! Every operation that changes the store takes it by `&mut`: the contracts
//! below describe one operation at a time, and say nothing of operations
//! that overlap.

use vstd::prelude::*;
use dashmap::DashMap;
use crate::clock::{Timestamp, system_now};
use crate::models::{LockInfo, LockRecord};
use crate::storage::laws::{
    law_restore_keeps_keyed, law_step_keeps_consistent, law_step_keeps_well_filed, Step,
};
use crate::storage::{LockStorage, StorageError};
use crate::storage::table::{
    id_entries, id_index_get, id_index_insert, id_index_new, id_index_remove, lock_entries,
    lock_table_entries, lock_table_get, lock_table_insert, lock_table_new, lock_table_remove,
};

verus! {

/// The content of a store as a mathematical value.
pub struct StoreState {
    /// The forward table: lock key to record.
    pub records: Map<Seq<char>, LockRecord>,
    /// The reverse index: lock id to lock key.
    pub index: Map<Seq<char>, Seq<char>>,
}

impl StoreState {
    /// The store that holds nothing.
    pub open spec fn empty() -> StoreState {
        StoreState { records: Map::empty(), index: Map::empty() }
    }

    /// The store with `record` filed under its key and its id.
    pub open spec fn with_record(self, record: LockRecord) -> StoreState {
        StoreState {
            records: self.records.insert(record.lock_key(), record),
            index: self.index.insert(record.lock_id, record.lock_key()),
        }
    }

    /// The record under `key`, if there is one.
    pub open spec fn shows(self, key: Seq<char>) -> Option<LockRecord> {
        if self.records.contains_key(key) {
            Some(self.records[key])
        } else {
            None
        }
    }

    /// Whether `lock_id` names the record that its key now holds.
    pub open spec fn holds(self, lock_id: Seq<char>) -> bool {
        &&& self.index.contains_key(lock_id)
        &&& self.records.contains_key(self.index[lock_id])
        &&& self.records[self.index[lock_id]].lock_id == lock_id
    }

    /// Every record is filed under its own key.
    pub open spec fn keyed(self) -> bool {
        forall|k: Seq<char>| self.records.contains_key(k) ==> (#[trigger] self.records[k]).lock_key() == k
    }

    /// Every id of the reverse index names the record that its key holds.
    pub open spec fn index_sound(self) -> bool {
        forall|id: Seq<char>| self.index.contains_key(id) ==> #[trigger] self.holds(id)
    }

    /// Every record is under its own key, and every id of the reverse index
    /// names the record that its key holds. Every operation keeps this.
    pub open spec fn well_filed(self) -> bool {
        self.keyed() && self.index_sound()
    }

    /// Every record's id is in the reverse index and resolves to the
    /// record's key.
    pub open spec fn index_complete(self) -> bool {
        forall|k: Seq<char>| self.records.contains_key(k) ==> self.index.contains_pair(
            (#[trigger] self.records[k]).lock_id,
            k,
        )
    }

    /// The two indices agree exactly: an id resolves to a key if and only
    /// if the record under that key bears the id. Operations keep this as
    /// long as no acquire brings an id that the reverse index already knows.
    pub open spec fn consistent(self) -> bool {
        self.well_filed() && self.index_complete()
    }

    /// Whether some owner holds `key` live at `now`.
    pub open spec fn held_live(self, key: Seq<char>, now: Timestamp) -> bool {
        self.records.contains_key(key) && !self.records[key].expired_at(now)
    }

    /// What an attempt to acquire leaves behind.
    pub open spec fn after_acquire(self, candidate: LockRecord, now: Timestamp) -> StoreState {
        let key = candidate.lock_key();
        if !self.records.contains_key(key) {
            self.with_record(candidate)
        } else if self.records[key].expired_at(now) {
            StoreState {
                records: self.records,
                index: self.index.remove(self.records[key].lock_id),
            }.with_record(candidate)
        } else if self.records[key].user_id == candidate.user_id {
            StoreState {
                records: self.records.insert(key, self.records[key].refreshed(now)),
                index: self.index,
            }
        } else {
            self
        }
    }

    /// Whether an attempt to acquire succeeds: unless another owner holds
    /// the key live.
    pub open spec fn grants(self, candidate: LockRecord, now: Timestamp) -> bool {
        let key = candidate.lock_key();
        self.held_live(key, now) ==> self.records[key].user_id == candidate.user_id
    }

    /// What a heartbeat leaves behind.
    pub open spec fn after_heartbeat(self, lock_id: Seq<char>, now: Timestamp) -> StoreState {
        if self.holds(lock_id) {
            let key = self.index[lock_id];
            StoreState {
                records: self.records.insert(key, self.records[key].refreshed(now)),
                index: self.index,
            }
        } else {
            self
        }
    }

    /// What a release leaves behind: the id leaves the reverse index, and
    /// the record leaves the forward table if it still bears that id.
    pub open spec fn after_release(self, lock_id: Seq<char>) -> StoreState {
        if self.holds(lock_id) {
            StoreState {
                records: self.records.remove(self.index[lock_id]),
                index: self.index.remove(lock_id),
            }
        } else {
            StoreState { records: self.records, index: self.index.remove(lock_id) }
        }
    }

    /// The keys whose records are expired at `now`.
    pub open spec fn expired_keys(self, now: Timestamp) -> Set<Seq<char>> {
        Set::new(|k: Seq<char>| self.records.contains_key(k) && self.records[k].expired_at(now))
    }

    /// Whether the record under key `k` is expired at `now` and bears `id`.
    pub open spec fn bears_expired(self, k: Seq<char>, id: Seq<char>, now: Timestamp) -> bool {
        &&& self.records.contains_key(k)
        &&& self.records[k].expired_at(now)
        &&& self.records[k].lock_id == id
    }

    /// The ids that the records expired at `now` bear.
    pub open spec fn expired_ids(self, now: Timestamp) -> Set<Seq<char>> {
        Set::new(|id: Seq<char>| exists|k: Seq<char>| #[trigger] self.bears_expired(k, id, now))
    }

    /// What a sweep leaves behind: every record expired at `now` is gone
    /// from the forward table, and its id from the reverse index.
    pub open spec fn after_cleanup(self, now: Timestamp) -> StoreState {
        StoreState {
            records: self.records.remove_keys(self.expired_keys(now)),
            index: self.index.remove_keys(self.expired_ids(now)),
        }
    }

    /// What restoring from `data` leaves behind: the records are filed one
    /// after the other in the order of `data`, those expired at `now` left out.
    pub open spec fn after_restore(self, data: Seq<LockRecord>, now: Timestamp) -> StoreState
        decreases data.len(),
    {
        if data.len() == 0 {
            self
        } else {
            let rest = self.after_restore(data.drop_last(), now);
            if data.last().expired_at(now) {
                rest
            } else {
                rest.with_record(data.last())
            }
        }
    }

    /// Whether `listed` lists the records of the forward table, each once,
    /// in some order: `keys` names the key of each place.
    pub open spec fn lists_records(self, keys: Seq<Seq<char>>, listed: Seq<LockRecord>) -> bool {
        &&& keys.len() == listed.len()
        &&& keys.no_duplicates()
        &&& forall|i: int| 0 <= i < keys.len() ==> self.records.contains_pair(#[trigger] keys[i], listed[i])
        &&& forall|k: Seq<char>| self.records.contains_key(k) ==> keys.contains(k)
    }
}

/// How many records of `data` are not expired at `now`.
pub open spec fn live_count(data: Seq<LockRecord>, now: Timestamp) -> nat
    decreases data.len(),
{
    if data.len() == 0 {
        0
    } else {
        live_count(data.drop_last(), now) + if data.last().expired_at(now) { 0nat } else { 1nat }
    }
}

/// The records that a sequence of stored values stands for.
pub open spec fn records_of(data: Seq<LockInfo>) -> Seq<LockRecord> {
    data.map_values(|r: LockInfo| r@)
}

/// Whether the record of pair `j` is expired at `now`.
spec fn swept_at(pairs: Seq<(String, LockInfo)>, j: int, now: Timestamp) -> bool {
    pairs[j].1@.expired_at(now)
}

/// The keys of the first `upto` pairs whose records are expired at `now`.
spec fn swept_keys(pairs: Seq<(String, LockInfo)>, upto: int, now: Timestamp) -> Set<Seq<char>> {
    Set::new(|k: Seq<char>| exists|j: int| 0 <= j < upto && #[trigger] swept_at(pairs, j, now) && pairs[j].0@ == k)
}

/// The ids of the first `upto` pairs whose records are expired at `now`.
spec fn swept_ids(pairs: Seq<(String, LockInfo)>, upto: int, now: Timestamp) -> Set<Seq<char>> {
    Set::new(|id: Seq<char>| exists|j: int| 0 <= j < upto && #[trigger] swept_at(pairs, j, now) && pairs[j].1@.lock_id == id)
}

/// The in-process store.
pub struct MemoryStorage {
    locks: DashMap<String, LockInfo>,
    lock_by_id: DashMap<String, String>,
    persist_path: Option<String>,
}

impl View for MemoryStorage {
    type V = StoreState;

    closed spec fn view(&self) -> StoreState {
        StoreState { records: lock_entries(self.locks), index: id_entries(self.lock_by_id) }
    }
}

impl MemoryStorage {
    /// Where snapshots of this store go, if anywhere.
    pub closed spec fn snapshot_path(&self) -> Option<Seq<char>> {
        match self.persist_path {
            Some(p) => Some(p@),
            None => None,
        }
    }

    /// Where snapshots of this store go, if anywhere.
    pub fn persist_path(&self) -> (path: Option<String>)
        ensures
            path.is_some() == self.snapshot_path().is_some(),
            path.is_some() ==> Some(path.unwrap()@) == self.snapshot_path(),
    {
        match &self.persist_path {
            Some(p) => Some(p.clone()),
            None => None,
        }
    }

    /// An empty store that keeps no snapshots.
    pub fn new() -> (s: Self)
        ensures
            s@ == StoreState::empty(),
            s.snapshot_path().is_none(),
    {
        MemoryStorage { locks: lock_table_new(), lock_by_id: id_index_new(), persist_path: None }
    }

    /// An empty store whose snapshots go to `persist_path`.
    pub fn with_persistence(persist_path: String) -> (s: Self)
        ensures
            s@ == StoreState::empty(),
            s.snapshot_path() == Some(persist_path@),
    {
        MemoryStorage {
            locks: lock_table_new(),
            lock_by_id: id_index_new(),
            persist_path: Some(persist_path),
        }
    }

    /// Tries to make `lock_info` the holder of its key at the instant `now`.
    ///
    /// A free key, or one whose record is expired, takes the candidate as it
    /// is. A key held live by the candidate's own owner keeps its record, with
    /// the last heartbeat moved to `now`. A key held live by another owner
    /// refuses, and nothing changes. Indices that agree still agree
    /// afterwards.
    pub fn try_acquire_at(&mut self, lock_info: LockInfo, now: Timestamp) -> (granted: bool)
        ensures
            granted == old(self)@.grants(lock_info@, now),
            final(self)@ == old(self)@.after_acquire(lock_info@, now),
            final(self).snapshot_path() == old(self).snapshot_path(),
            old(self)@.well_filed() ==> final(self)@.well_filed(),
            old(self)@.consistent() && !old(self)@.index.contains_key(lock_info@.lock_id)
                ==> final(self)@.consistent(),
    {
        proof {
            if self@.well_filed() {
                law_step_keeps_well_filed(self@, Step::Acquire { candidate: lock_info@, now });
            }
            if self@.consistent() && !self@.index.contains_key(lock_info@.lock_id) {
                law_step_keeps_consistent(self@, Step::Acquire { candidate: lock_info@, now });
            }
        }
        let lock_key = lock_info.get_lock_key();
        match lock_table_get(&self.locks, &lock_key) {
            Some(existing) => {
                if existing.is_expired_at(now) {
                    id_index_remove(&mut self.lock_by_id, &existing.lock_id);
                    lock_table_remove(&mut self.locks, &lock_key);
                } else if existing.user_id == lock_info.user_id {
                    let mut refreshed = existing;
                    refreshed.last_heartbeat = now;
                    lock_table_insert(&mut self.locks, lock_key, refreshed);
                    return true;
                } else {
                    return false;
                }
            },
            None => {},
        }
        id_index_insert(&mut self.lock_by_id, lock_info.lock_id.clone(), lock_key.clone());
        lock_table_insert(&mut self.locks, lock_key, lock_info);
        proof {
            let key = lock_info@.lock_key();
            let before = old(self)@.records;
            assert(before.remove(key).insert(key, lock_info@) =~= before.insert(key, lock_info@));
        }
        true
    }

    /// Moves the last heartbeat of the lock `lock_id` to `now`, if the id
    /// still names the record that its key holds. Two indices that agree
    /// still agree afterwards.
    pub fn update_heartbeat_at(&mut self, lock_id: &String, now: Timestamp) -> (updated: bool)
        ensures
            updated == old(self)@.holds(lock_id@),
            final(self)@ == old(self)@.after_heartbeat(lock_id@, now),
            final(self).snapshot_path() == old(self).snapshot_path(),
            old(self)@.well_filed() ==> final(self)@.well_filed(),
            old(self)@.consistent() ==> final(self)@.consistent(),
    {
        proof {
            if self@.well_filed() {
                law_step_keeps_well_filed(self@, Step::Heartbeat { lock_id: lock_id@, now });
            }
            if self@.consistent() {
                law_step_keeps_consistent(self@, Step::Heartbeat { lock_id: lock_id@, now });
            }
        }
        let lock_key = match id_index_get(&self.lock_by_id, lock_id) {
            Some(key) => key,
            None => {
                return false;
            },
        };
        match lock_table_get(&self.locks, &lock_key) {
            Some(existing) => {
                if existing.lock_id == *lock_id {
                    let mut refreshed = existing;
                    refreshed.last_heartbeat = now;
                    lock_table_insert(&mut self.locks, lock_key, refreshed);
                    return true;
                }
            },
            None => {},
        }
        false
    }

    /// Sweeps the store at the instant `now`: every record expired then
    /// leaves the forward table, and its id the reverse index. Returns how
    /// many records left. Indices that agree still agree afterwards.
    pub fn cleanup_expired_at(&mut self, now: Timestamp) -> (removed: usize)
        ensures
            final(self)@ == old(self)@.after_cleanup(now),
            final(self).snapshot_path() == old(self).snapshot_path(),
            old(self)@.expired_keys(now).finite(),
            removed == old(self)@.expired_keys(now).len(),
            old(self)@.well_filed() ==> final(self)@.well_filed(),
            old(self)@.consistent() ==> final(self)@.consistent(),
    {
        proof {
            if self@.well_filed() {
                law_step_keeps_well_filed(self@, Step::Sweep { now });
            }
            if self@.consistent() {
                law_step_keeps_consistent(self@, Step::Sweep { now });
            }
        }
        let pairs = lock_table_entries(&self.locks);
        let ghost before = self@;
        let mut removed: usize = 0;
        let mut i: usize = 0;
        proof {
            assert(swept_keys(pairs@, 0, now) =~= Set::<Seq<char>>::empty());
        }
        while i < pairs.len()
            invariant
                0 <= i <= pairs.len(),
                before == old(self)@,
                self.snapshot_path() == old(self).snapshot_path(),
                forall|j: int| 0 <= j < pairs.len() ==> before.records.contains_pair(
                    (#[trigger] pairs[j]).0@,
                    pairs[j].1@,
                ),
                forall|k: Seq<char>| before.records.contains_key(k) ==> exists|j: int|
                    0 <= j < pairs.len() && (#[trigger] pairs[j]).0@ == k,
                forall|j: int, l: int|
                    0 <= j < l < pairs.len() ==> (#[trigger] pairs[j]).0@ != (#[trigger] pairs[l]).0@,
                self@.records =~= before.records.remove_keys(swept_keys(pairs@, i as int, now)),
                self@.index =~= before.index.remove_keys(swept_ids(pairs@, i as int, now)),
                swept_keys(pairs@, i as int, now).finite(),
                removed == swept_keys(pairs@, i as int, now).len(),
                removed <= i,
            decreases pairs.len() - i,
        {
            proof {
                let ghost n = i as int;
                assert(swept_at(pairs@, n, now) == pairs[n].1@.expired_at(now));
                if swept_at(pairs@, n, now) {
                    assert(!swept_keys(pairs@, n, now).contains(pairs[n].0@)) by {
                        if swept_keys(pairs@, n, now).contains(pairs[n].0@) {
                            let j = choose|j: int| 0 <= j < n && #[trigger] swept_at(pairs@, j, now)
                                && pairs[j].0@ == pairs[n].0@;
                            assert(pairs[j].0@ != pairs[n].0@);
                        }
                    }
                    assert(swept_keys(pairs@, n + 1, now) =~= swept_keys(pairs@, n, now).insert(pairs[n].0@));
                    assert(swept_ids(pairs@, n + 1, now) =~= swept_ids(pairs@, n, now).insert(pairs[n].1@.lock_id));
                } else {
                    assert(swept_keys(pairs@, n + 1, now) =~= swept_keys(pairs@, n, now));
                    assert(swept_ids(pairs@, n + 1, now) =~= swept_ids(pairs@, n, now));
                }
            }
            if pairs[i].1.is_expired_at(now) {
                id_index_remove(&mut self.lock_by_id, &pairs[i].1.lock_id);
                lock_table_remove(&mut self.locks, &pairs[i].0);
                removed += 1;
            }
            i += 1;
        }
        proof {
            let n = pairs.len() as int;
            assert forall|k: Seq<char>| before.expired_keys(now).contains(k) implies swept_keys(pairs@, n, now).contains(k) by {
                let j = choose|j: int| 0 <= j < pairs.len() && (#[trigger] pairs[j]).0@ == k;
                assert(swept_at(pairs@, j, now));
            }
            assert(swept_keys(pairs@, n, now) =~= before.expired_keys(now));
            assert forall|id: Seq<char>| before.expired_ids(now).contains(id) implies swept_ids(pairs@, n, now).contains(id) by {
                let k = choose|k: Seq<char>| #[trigger] before.bears_expired(k, id, now);
                let j = choose|j: int| 0 <= j < pairs.len() && (#[trigger] pairs[j]).0@ == k;
                assert(swept_at(pairs@, j, now));
            }
            assert forall|id: Seq<char>| swept_ids(pairs@, n, now).contains(id) implies before.expired_ids(now).contains(id) by {
                let j = choose|j: int| 0 <= j < n && #[trigger] swept_at(pairs@, j, now) && pairs[j].1@.lock_id == id;
                assert(before.bears_expired(pairs[j].0@, id, now));
            }
            assert(swept_ids(pairs@, n, now) =~= before.expired_ids(now));
        }
        removed
    }

    /// Restores the store from the records of a snapshot, at the instant
    /// `now`. `contents` is what the snapshot held, or `None` where there
    /// was no snapshot. A store that keeps no snapshots restores nothing.
    /// Records expired at `now` are left out; the others are filed in
    /// their order. Returns how many were filed. Records that were each
    /// under their own key still are.
    pub fn load_from_disk_at(&mut self, contents: Option<Vec<LockInfo>>, now: Timestamp) -> (loaded: usize)
        ensures
            final(self).snapshot_path() == old(self).snapshot_path(),
            old(self).snapshot_path().is_none() || contents.is_none() ==> loaded == 0 && final(self)@ == old(self)@,
            old(self).snapshot_path().is_some() && contents.is_some() ==> {
                &&& loaded == live_count(records_of(contents.unwrap()@), now)
                &&& final(self)@ == old(self)@.after_restore(records_of(contents.unwrap()@), now)
            },
            old(self)@.keyed() ==> final(self)@.keyed(),
    {
        proof {
            if self@.keyed() && contents.is_some() {
                law_restore_keeps_keyed(self@, records_of(contents.unwrap()@), now);
            }
        }
        if self.persist_path.is_none() {
            return 0;
        }
        let data = match contents {
            Some(data) => data,
            None => {
                return 0;
            },
        };
        let ghost all = records_of(data@);
        let mut loaded: usize = 0;
        let mut i: usize = 0;
        while i < data.len()
            invariant
                0 <= i <= data.len(),
                all == records_of(data@),
                self.snapshot_path() == old(self).snapshot_path(),
                loaded == live_count(all.take(i as int), now),
                loaded <= i,
                self@ == old(self)@.after_restore(all.take(i as int), now),
            decreases data.len() - i,
        {
            proof {
                assert(all.take(i + 1).drop_last() =~= all.take(i as int));
                assert(all.take(i + 1).last() == data[i as int]@);
            }
            if !data[i].is_expired_at(now) {
                let lock_info = data[i].clone();
                let lock_key = lock_info.get_lock_key();
                id_index_insert(&mut self.lock_by_id, lock_info.lock_id.clone(), lock_key.clone());
                lock_table_insert(&mut self.locks, lock_key, lock_info);
                loaded += 1;
            }
            i += 1;
        }
        proof {
            assert(all.take(data.len() as int) =~= all);
        }
        loaded
    }

    /// What a snapshot of the store is made of: where it goes, and the
    /// records of the forward table, each once, expired ones too, in no
    /// stated order. `None` where the store keeps no snapshots.
    pub fn persist_to_disk(&self) -> (snapshot: Option<(String, Vec<LockInfo>)>)
        ensures
            snapshot.is_some() == self.snapshot_path().is_some(),
            snapshot.is_some() ==> {
                &&& Some(snapshot.unwrap().0@) == self.snapshot_path()
                &&& exists|keys: Seq<Seq<char>>| #[trigger] self@.lists_records(keys, records_of(snapshot.unwrap().1@))
            },
    {
        let path = match &self.persist_path {
            Some(p) => p.clone(),
            None => {
                return None;
            },
        };
        let pairs = lock_table_entries(&self.locks);
        let mut records: Vec<LockInfo> = Vec::new();
        let mut i: usize = 0;
        while i < pairs.len()
            invariant
                0 <= i <= pairs.len(),
                records.len() == i,
                forall|j: int| 0 <= j < i ==> (#[trigger] records[j])@ == pairs[j].1@,
                forall|j: int| 0 <= j < pairs.len() ==> self@.records.contains_pair(
                    (#[trigger] pairs[j]).0@,
                    pairs[j].1@,
                ),
                forall|k: Seq<char>| self@.records.contains_key(k) ==> exists|j: int|
                    0 <= j < pairs.len() && (#[trigger] pairs[j]).0@ == k,
                forall|j: int, l: int|
                    0 <= j < l < pairs.len() ==> (#[trigger] pairs[j]).0@ != (#[trigger] pairs[l]).0@,
            decreases pairs.len() - i,
        {
            records.push(pairs[i].1.clone());
            i += 1;
        }
        let snapshot = Some((path, records));
        proof {
            let keys = Seq::new(pairs.len() as nat, |j: int| pairs[j].0@);
            assert forall|k: Seq<char>| self@.records.contains_key(k) implies keys.contains(k) by {
                let j = choose|j: int| 0 <= j < pairs.len() && (#[trigger] pairs[j]).0@ == k;
                assert(keys[j] == k);
            }
            assert(self@.lists_records(keys, records_of(snapshot.unwrap().1@)));
        }
        snapshot
    }
}

impl MemoryStorage {
    /// Restores the store from the records of a snapshot, by the system
    /// clock: what `load_from_disk_at` does at the instant that was read.
    pub fn load_from_disk(&mut self, contents: Option<Vec<LockInfo>>) -> (loaded: usize)
        ensures
            final(self).snapshot_path() == old(self).snapshot_path(),
            old(self).snapshot_path().is_none() || contents.is_none() ==> loaded == 0 && final(self)@ == old(self)@,
            old(self).snapshot_path().is_some() && contents.is_some() ==> exists|now: Timestamp|
                {
                    &&& loaded == live_count(records_of(contents.unwrap()@), now)
                    &&& final(self)@ == #[trigger] old(self)@.after_restore(records_of(contents.unwrap()@), now)
                },
            old(self)@.keyed() ==> final(self)@.keyed(),
    {
        let now = system_now();
        self.load_from_disk_at(contents, now)
    }
}

impl LockStorage for MemoryStorage {
    /// The in-process store always answers.
    open spec fn always_answers(&self) -> bool {
        true
    }

    /// What the two maps hold.
    open spec fn content(&self) -> StoreState {
        self@
    }

    /// What `try_acquire_at` does at the instant that the system clock gave.
    /// The store always answers.
    fn try_acquire(&mut self, lock_info: LockInfo) -> (r: Result<bool, StorageError>)
        ensures
            final(self).snapshot_path() == old(self).snapshot_path(),
            exists|now: Timestamp|
                {
                    &&& r == Ok::<bool, StorageError>(old(self)@.grants(lock_info@, now))
                    &&& final(self)@ == #[trigger] old(self)@.after_acquire(lock_info@, now)
                },
            old(self)@.well_filed() ==> final(self)@.well_filed(),
            old(self)@.consistent() && !old(self)@.index.contains_key(lock_info@.lock_id)
                ==> final(self)@.consistent(),
            r is Ok && !r->Ok_0 ==> {
                let held = old(self)@.shows(lock_info@.lock_key());
                &&& held is Some
                &&& held.unwrap().user_id != lock_info@.user_id
                &&& final(self)@ == old(self)@
            },
    {
        let now = system_now();
        let ghost candidate = lock_info@;
        let granted = self.try_acquire_at(lock_info, now);
        assert(self.content() == old(self).content().after_acquire(candidate, now));
        Ok(granted)
    }

    /// The record stored under `lock_key`, expired or not. The store always
    /// answers.
    fn get_lock(&self, lock_key: &String) -> (r: Result<Option<LockInfo>, StorageError>)
        ensures
            r.is_ok(),
            r.unwrap().is_some() == self@.records.contains_key(lock_key@),
            r.unwrap().is_some() ==> r.unwrap().unwrap()@ == self@.records[lock_key@],
    {
        Ok(lock_table_get(&self.locks, lock_key))
    }

    /// What `update_heartbeat_at` does at the instant that the system clock
    /// gave. The store always answers.
    fn update_heartbeat(&mut self, lock_id: &String) -> (r: Result<bool, StorageError>)
        ensures
            final(self).snapshot_path() == old(self).snapshot_path(),
            r == Ok::<bool, StorageError>(old(self)@.holds(lock_id@)),
            exists|now: Timestamp| final(self)@ == #[trigger] old(self)@.after_heartbeat(lock_id@, now),
            old(self)@.well_filed() ==> final(self)@.well_filed(),
            old(self)@.consistent() ==> final(self)@.consistent(),
    {
        let now = system_now();
        let updated = self.update_heartbeat_at(lock_id, now);
        assert(self.content() == old(self).content().after_heartbeat(lock_id@, now));
        Ok(updated)
    }

    /// Gives up the lock `lock_id`. The id leaves the reverse index in any
    /// case; the record leaves the forward table, and the call succeeds, if
    /// the record still bears that id. The store always answers: an id that
    /// is unknown or superseded gives `Ok(false)`.
    fn release(&mut self, lock_id: &String) -> (r: Result<bool, StorageError>)
        ensures
            final(self).snapshot_path() == old(self).snapshot_path(),
            r == Ok::<bool, StorageError>(old(self)@.holds(lock_id@)),
            final(self)@ == old(self)@.after_release(lock_id@),
            old(self)@.well_filed() ==> final(self)@.well_filed(),
            old(self)@.consistent() ==> final(self)@.consistent(),
    {
        proof {
            if self@.well_filed() {
                law_step_keeps_well_filed(self@, Step::Release { lock_id: lock_id@ });
            }
            if self@.consistent() {
                law_step_keeps_consistent(self@, Step::Release { lock_id: lock_id@ });
            }
        }
        let lock_key = match id_index_remove(&mut self.lock_by_id, lock_id) {
            Some(key) => key,
            None => {
                proof {
                    assert(old(self)@.index.remove(lock_id@) =~= old(self)@.index);
                }
                return Ok(false);
            },
        };
        match lock_table_remove(&mut self.locks, &lock_key) {
            Some(existing) => {
                if existing.lock_id == *lock_id {
                    return Ok(true);
                } else {
                    lock_table_insert(&mut self.locks, lock_key, existing);
                    proof {
                        let before = old(self)@.records;
                        assert(before.remove(lock_key@).insert(lock_key@, existing@) =~= before);
                    }
                }
            },
            None => {
                proof {
                    assert(old(self)@.records.remove(lock_key@) =~= old(self)@.records);
                }
            },
        }
        Ok(false)
    }

    /// What `cleanup_expired_at` does at the instant that the system clock
    /// gave. The store always answers.
    fn cleanup_expired(&mut self) -> (r: Result<(), StorageError>)
        ensures
            r.is_ok(),
            final(self).snapshot_path() == old(self).snapshot_path(),
            exists|now: Timestamp| final(self)@ == #[trigger] old(self)@.after_cleanup(now),
            old(self)@.well_filed() ==> final(self)@.well_filed(),
            old(self)@.consistent() ==> final(self)@.consistent(),
    {
        let now = system_now();
        self.cleanup_expired_at(now);
        assert(self.content() == old(self).content().after_cleanup(now));
        Ok(())
    }
}

} // verus!
