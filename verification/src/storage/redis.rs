//! The remote backend: the key layout of the replicated store and the
//! decisions of the protocol. The round trips themselves are made by the
//! caller, which hands back what it read.
//!
//! Each lock has two keys in the remote store: a data key that holds the
//! record, and an id key that holds the lock key, both with the lock's timeout
//! as their time to live. The two keys are written one after the other, not
//! as one step.

use vstd::prelude::*;
use vstd::string::*;
use crate::clock::Timestamp;
use crate::models::{LockInfo, LockRecord};
use crate::storage::memory::StoreState;
use crate::storage::record_of;

verus! {

/// The remote backend's view of the key space.
#[derive(Debug)]
pub struct RedisStorage {
    /// What every key of the service starts with.
    pub prefix: String,
}

/// What to do in the remote store to carry out an acquire.
#[derive(Debug)]
pub enum AcquirePlan {
    /// Another owner holds the key live: write nothing, answer `false`.
    Deny,
    /// The candidate's owner holds the key live: overwrite the data key with
    /// `record` and a time to live of `ttl` seconds, answer `true`.
    Refresh { data_key: String, record: LockInfo, ttl: u64 },
    /// The key is free: create the data key if it is absent; where that
    /// created it, give it `ttl` seconds to live, store `lock_key` under
    /// `id_key` with the same time to live, and answer `true`; where it did
    /// not, because another acquire came first, answer `false`.
    Create { data_key: String, id_key: String, lock_key: String, record: LockInfo, ttl: u64 },
    /// The key holds an expired record: delete `stale_id_key`, whatever
    /// comes of it; overwrite the data key with `record` and `ttl` seconds
    /// to live, which discards the expired record; store `lock_key` under
    /// `id_key` with the same time to live, and answer `true`.
    Takeover { stale_id_key: String, data_key: String, id_key: String, lock_key: String, record: LockInfo, ttl: u64 },
}

/// What to do in the remote store to carry out a heartbeat.
#[derive(Debug)]
pub enum HeartbeatPlan {
    /// The id is unknown or superseded: write nothing, answer `false`.
    NotFound,
    /// Overwrite the data key with `record` and `ttl` seconds to live, give
    /// the id key `ttl` seconds to live, answer `true`.
    Refresh { data_key: String, id_key: String, record: LockInfo, ttl: u64 },
}

/// What to do in the remote store to carry out a release.
#[derive(Debug)]
pub enum ReleasePlan {
    /// The id key is absent: delete nothing, answer `false`.
    NotFound,
    /// The id key is there, but no record bears the id any more: delete
    /// the stale id key only, answer `false`.
    DropStaleId { id_key: String },
    /// Delete the data key, then the id key, answer `true`.
    Delete { data_key: String, id_key: String },
}

/// The content of the remote store as the service sees it: what the data
/// keys and the id keys hold. A key whose time to live has run out is absent.
pub struct RemoteState {
    /// Data key to record.
    pub data: Map<Seq<char>, LockRecord>,
    /// Id key to lock key.
    pub ids: Map<Seq<char>, Seq<char>>,
}

impl RemoteState {
    /// The record under a data key, if there is one.
    pub open spec fn read(self, data_key: Seq<char>) -> Option<LockRecord> {
        if self.data.contains_key(data_key) {
            Some(self.data[data_key])
        } else {
            None
        }
    }
}

impl AcquirePlan {
    /// The remote store after the plan has been carried out.
    pub open spec fn carried_out(self, before: RemoteState) -> RemoteState {
        match self {
            AcquirePlan::Deny => before,
            AcquirePlan::Refresh { data_key, record, ttl } => RemoteState {
                data: before.data.insert(data_key@, record@),
                ids: before.ids,
            },
            AcquirePlan::Create { data_key, id_key, lock_key, record, ttl } => {
                if before.data.contains_key(data_key@) {
                    before
                } else {
                    RemoteState {
                        data: before.data.insert(data_key@, record@),
                        ids: before.ids.insert(id_key@, lock_key@),
                    }
                }
            },
            AcquirePlan::Takeover { stale_id_key, data_key, id_key, lock_key, record, ttl } => RemoteState {
                data: before.data.insert(data_key@, record@),
                ids: before.ids.remove(stale_id_key@).insert(id_key@, lock_key@),
            },
        }
    }

    /// What the acquire is answered with when the plan is carried out on
    /// `before`.
    pub open spec fn answer_on(self, before: RemoteState) -> bool {
        match self {
            AcquirePlan::Deny => false,
            AcquirePlan::Refresh { .. } => true,
            AcquirePlan::Create { data_key, .. } => !before.data.contains_key(data_key@),
            AcquirePlan::Takeover { .. } => true,
        }
    }

    /// What the acquire is answered with once the plan is carried out:
    /// `created` says whether the data key was absent and has been created,
    /// and matters to a `Create` plan only.
    pub fn answer(&self, created: bool) -> (granted: bool)
        ensures
            granted == match *self {
                AcquirePlan::Deny => false,
                AcquirePlan::Refresh { .. } => true,
                AcquirePlan::Create { .. } => created,
                AcquirePlan::Takeover { .. } => true,
            },
    {
        match self {
            AcquirePlan::Deny => false,
            AcquirePlan::Refresh { .. } => true,
            AcquirePlan::Create { .. } => created,
            AcquirePlan::Takeover { .. } => true,
        }
    }
}

impl HeartbeatPlan {
    /// The remote store after the plan has been carried out.
    pub open spec fn carried_out(self, before: RemoteState) -> RemoteState {
        match self {
            HeartbeatPlan::NotFound => before,
            HeartbeatPlan::Refresh { data_key, id_key, record, ttl } => RemoteState {
                data: before.data.insert(data_key@, record@),
                ids: before.ids,
            },
        }
    }

    /// What the heartbeat is answered with.
    pub fn answer(&self) -> (updated: bool)
        ensures
            updated == (*self is Refresh),
    {
        match self {
            HeartbeatPlan::NotFound => false,
            HeartbeatPlan::Refresh { .. } => true,
        }
    }
}

impl ReleasePlan {
    /// The remote store after the plan has been carried out.
    pub open spec fn carried_out(self, before: RemoteState) -> RemoteState {
        match self {
            ReleasePlan::NotFound => before,
            ReleasePlan::DropStaleId { id_key } => RemoteState {
                data: before.data,
                ids: before.ids.remove(id_key@),
            },
            ReleasePlan::Delete { data_key, id_key } => RemoteState {
                data: before.data.remove(data_key@),
                ids: before.ids.remove(id_key@),
            },
        }
    }

    /// What the release is answered with.
    pub fn answer(&self) -> (released: bool)
        ensures
            released == (*self is Delete),
    {
        match self {
            ReleasePlan::NotFound => false,
            ReleasePlan::DropStaleId { .. } => false,
            ReleasePlan::Delete { .. } => true,
        }
    }
}

impl RedisStorage {
    /// The data key of a lock key: the prefix, `data:`, the lock key.
    pub open spec fn data_key(self, lock_key: Seq<char>) -> Seq<char> {
        self.prefix@ + "data:"@ + lock_key
    }

    /// The id key of a lock id: the prefix, `id:`, the lock id.
    pub open spec fn id_key(self, lock_id: Seq<char>) -> Seq<char> {
        self.prefix@ + "id:"@ + lock_id
    }

    /// The lock store that a remote state stands for: the record of each
    /// lock key is what its data key holds, the key of each lock id what its
    /// id key holds.
    pub open spec fn store_of(self, remote: RemoteState) -> StoreState {
        StoreState {
            records: Map::new(
                |k: Seq<char>| remote.data.contains_key(self.data_key(k)),
                |k: Seq<char>| remote.data[self.data_key(k)],
            ),
            index: Map::new(
                |id: Seq<char>| remote.ids.contains_key(self.id_key(id)),
                |id: Seq<char>| remote.ids[self.id_key(id)],
            ),
        }
    }

    /// Whether `plan` is the plan for an acquire of `candidate` at `now`,
    /// where the data key of the candidate's lock key holds `existing`.
    pub open spec fn plans_acquire(self, existing: Option<LockRecord>, candidate: LockRecord, now: Timestamp, plan: AcquirePlan) -> bool {
        match existing {
            Some(e) if !e.expired_at(now) && e.user_id != candidate.user_id => plan is Deny,
            Some(e) if !e.expired_at(now) => {
                &&& plan is Refresh
                &&& plan->Refresh_data_key@ == self.data_key(candidate.lock_key())
                &&& plan->Refresh_record@ == e.refreshed(now)
                &&& plan->Refresh_ttl == e.timeout
            },
            Some(e) => {
                &&& plan is Takeover
                &&& plan->Takeover_stale_id_key@ == self.id_key(e.lock_id)
                &&& plan->Takeover_data_key@ == self.data_key(candidate.lock_key())
                &&& plan->Takeover_id_key@ == self.id_key(candidate.lock_id)
                &&& plan->Takeover_lock_key@ == candidate.lock_key()
                &&& plan->Takeover_record@ == candidate
                &&& plan->Takeover_ttl == candidate.timeout
            },
            None => {
                &&& plan is Create
                &&& plan->Create_data_key@ == self.data_key(candidate.lock_key())
                &&& plan->Create_id_key@ == self.id_key(candidate.lock_id)
                &&& plan->Create_lock_key@ == candidate.lock_key()
                &&& plan->Create_record@ == candidate
                &&& plan->Create_ttl == candidate.timeout
            },
        }
    }

    /// Whether `plan` is the plan for a heartbeat of `lock_id` at `now`,
    /// where the id key holds `lock_key`, or is absent, and the data key of
    /// that lock key holds `existing`.
    pub open spec fn plans_heartbeat(self, lock_id: Seq<char>, lock_key: Option<Seq<char>>, existing: Option<LockRecord>, now: Timestamp, plan: HeartbeatPlan) -> bool {
        match (lock_key, existing) {
            (Some(k), Some(e)) if e.lock_id == lock_id => {
                &&& plan is Refresh
                &&& plan->Refresh_data_key@ == self.data_key(k)
                &&& plan->Refresh_id_key@ == self.id_key(lock_id)
                &&& plan->Refresh_record@ == e.refreshed(now)
                &&& plan->Refresh_ttl == e.timeout
            },
            _ => plan is NotFound,
        }
    }

    /// Whether `plan` is the plan for a release of `lock_id`, where the id
    /// key holds `lock_key`, or is absent, and the data key of that lock key
    /// holds `existing`.
    pub open spec fn plans_release(self, lock_id: Seq<char>, lock_key: Option<Seq<char>>, existing: Option<LockRecord>, plan: ReleasePlan) -> bool {
        match (lock_key, existing) {
            (None, _) => plan is NotFound,
            (Some(k), Some(e)) if e.lock_id == lock_id => {
                &&& plan is Delete
                &&& plan->Delete_data_key@ == self.data_key(k)
                &&& plan->Delete_id_key@ == self.id_key(lock_id)
            },
            _ => plan is DropStaleId && plan->DropStaleId_id_key@ == self.id_key(lock_id),
        }
    }

    /// What the id key of `lock_id` resolves to in a remote state.
    pub open spec fn resolved(self, remote: RemoteState, lock_id: Seq<char>) -> Option<Seq<char>> {
        if remote.ids.contains_key(self.id_key(lock_id)) {
            Some(remote.ids[self.id_key(lock_id)])
        } else {
            None
        }
    }

    /// What the data key of the lock key that `lock_id` resolves to holds.
    pub open spec fn resolved_record(self, remote: RemoteState, lock_id: Seq<char>) -> Option<LockRecord> {
        match self.resolved(remote, lock_id) {
            Some(k) => remote.read(self.data_key(k)),
            None => None,
        }
    }

    /// The key space of the service: every key starts with `lock:`.
    pub fn new() -> (s: Self)
        ensures
            s.prefix@ == "lock:"@,
    {
        RedisStorage { prefix: String::from_str("lock:") }
    }

    /// The data key of `lock_key`.
    pub fn get_lock_key(&self, lock_key: &String) -> (key: String)
        ensures
            key@ == self.data_key(lock_key@),
    {
        let mut key = self.prefix.clone();
        key.append("data:");
        key.append(lock_key.as_str());
        key
    }

    /// The id key of `lock_id`.
    pub fn get_lock_id_key(&self, lock_id: &String) -> (key: String)
        ensures
            key@ == self.id_key(lock_id@),
    {
        let mut key = self.prefix.clone();
        key.append("id:");
        key.append(lock_id.as_str());
        key
    }

    /// Decides an acquire at the instant `now`, given what the data key of
    /// the candidate's lock key holds: `existing` is the record read there,
    /// `None` where the key is absent or does not hold a record.
    ///
    /// A live record of another owner denies. A live record of the
    /// candidate's owner is refreshed under its own id. An expired record is
    /// discarded and the candidate takes its place. A free key is created.
    pub fn try_acquire(&self, existing: Option<LockInfo>, lock_info: LockInfo, now: Timestamp) -> (plan: AcquirePlan)
        ensures
            self.plans_acquire(record_of(existing), lock_info@, now, plan),
    {
        let lock_key = lock_info.get_lock_key();
        let data_key = self.get_lock_key(&lock_key);
        let id_key = self.get_lock_id_key(&lock_info.lock_id);
        let ttl = lock_info.timeout;
        match existing {
            Some(e) => {
                if e.is_expired_at(now) {
                    let stale_id_key = self.get_lock_id_key(&e.lock_id);
                    AcquirePlan::Takeover { stale_id_key, data_key, id_key, lock_key, record: lock_info, ttl }
                } else if e.user_id == lock_info.user_id {
                    let ttl = e.timeout;
                    let mut record = e;
                    record.last_heartbeat = now;
                    AcquirePlan::Refresh { data_key, record, ttl }
                } else {
                    AcquirePlan::Deny
                }
            },
            None => AcquirePlan::Create { data_key, id_key, lock_key, record: lock_info, ttl },
        }
    }

    /// Decides a heartbeat for `lock_id` at the instant `now`, given the
    /// lock key that its id key holds, `None` where the id key is absent,
    /// and the record that the data key of that lock key holds, if any: a
    /// record that bears the id is refreshed, anything else is not found.
    pub fn update_heartbeat(&self, lock_id: &String, lock_key: Option<String>, existing: Option<LockInfo>, now: Timestamp) -> (plan: HeartbeatPlan)
        ensures
            self.plans_heartbeat(lock_id@, text_of(lock_key), record_of(existing), now, plan),
    {
        match (lock_key, existing) {
            (Some(k), Some(e)) => {
                if e.lock_id == *lock_id {
                    let ttl = e.timeout;
                    let mut record = e;
                    record.last_heartbeat = now;
                    HeartbeatPlan::Refresh {
                        data_key: self.get_lock_key(&k),
                        id_key: self.get_lock_id_key(lock_id),
                        record,
                        ttl,
                    }
                } else {
                    HeartbeatPlan::NotFound
                }
            },
            _ => HeartbeatPlan::NotFound,
        }
    }

    /// Decides a release of `lock_id`, given the lock key that its id key
    /// holds, `None` where the id key is absent, and the record that the
    /// data key of that lock key holds, if any: without an id key nothing is
    /// found; a record that bears the id is deleted with its id key;
    /// otherwise only the id key, which is stale, is dropped.
    pub fn release(&self, lock_id: &String, lock_key: Option<String>, existing: Option<LockInfo>) -> (plan: ReleasePlan)
        ensures
            self.plans_release(lock_id@, text_of(lock_key), record_of(existing), plan),
    {
        match lock_key {
            None => ReleasePlan::NotFound,
            Some(k) => {
                match existing {
                    Some(e) => {
                        if e.lock_id == *lock_id {
                            ReleasePlan::Delete {
                                data_key: self.get_lock_key(&k),
                                id_key: self.get_lock_id_key(lock_id),
                            }
                        } else {
                            ReleasePlan::DropStaleId { id_key: self.get_lock_id_key(lock_id) }
                        }
                    },
                    None => ReleasePlan::DropStaleId { id_key: self.get_lock_id_key(lock_id) },
                }
            },
        }
    }
}

/// The view of an optional text.
pub open spec fn text_of(value: Option<String>) -> Option<Seq<char>> {
    match value {
        Some(s) => Some(s@),
        None => None,
    }
}

/// The key layout keeps locks apart: two lock keys never share a data key,
/// two lock ids never share an id key, and no data key is an id key.
pub proof fn law_remote_keys_are_distinct(keys: RedisStorage, a: Seq<char>, b: Seq<char>)
    ensures
        a != b ==> keys.data_key(a) != keys.data_key(b),
        a != b ==> keys.id_key(a) != keys.id_key(b),
        keys.data_key(a) != keys.id_key(b),
{
    reveal_strlit("data:");
    reveal_strlit("id:");
    let p = keys.prefix@;
    let n = p.len() as int;
    if keys.data_key(a) == keys.data_key(b) {
        assert(a =~= keys.data_key(a).subrange(n + 5, keys.data_key(a).len() as int));
        assert(b =~= keys.data_key(b).subrange(n + 5, keys.data_key(b).len() as int));
    }
    if keys.id_key(a) == keys.id_key(b) {
        assert(a =~= keys.id_key(a).subrange(n + 3, keys.id_key(a).len() as int));
        assert(b =~= keys.id_key(b).subrange(n + 3, keys.id_key(b).len() as int));
    }
    assert(keys.data_key(a)[n] == 'd');
    assert(keys.id_key(b)[n] == 'i');
}

proof fn lemma_keys_injective(keys: RedisStorage)
    ensures
        forall|a: Seq<char>, b: Seq<char>| a != b ==> #[trigger] keys.data_key(a) != #[trigger] keys.data_key(b),
        forall|a: Seq<char>, b: Seq<char>| a != b ==> #[trigger] keys.id_key(a) != #[trigger] keys.id_key(b),
{
    assert forall|a: Seq<char>, b: Seq<char>| a != b implies #[trigger] keys.data_key(a) != #[trigger] keys.data_key(b) by {
        law_remote_keys_are_distinct(keys, a, b);
    }
    assert forall|a: Seq<char>, b: Seq<char>| a != b implies #[trigger] keys.id_key(a) != #[trigger] keys.id_key(b) by {
        law_remote_keys_are_distinct(keys, a, b);
    }
}

/// The remote acquire does what the in-process acquire does: the plan
/// made from what the data key of the candidate's lock key holds, carried
/// out on the remote store, leaves it standing for the store that the
/// in-process acquire leaves, and is answered alike.
pub proof fn law_remote_acquire(keys: RedisStorage, remote: RemoteState, candidate: LockRecord, now: Timestamp, plan: AcquirePlan)
    requires
        keys.plans_acquire(remote.read(keys.data_key(candidate.lock_key())), candidate, now, plan),
    ensures
        plan.answer_on(remote) == keys.store_of(remote).grants(candidate, now),
        keys.store_of(plan.carried_out(remote)) == keys.store_of(remote).after_acquire(candidate, now),
{
    lemma_keys_injective(keys);
    let after = keys.store_of(plan.carried_out(remote));
    let want = keys.store_of(remote).after_acquire(candidate, now);
    assert(after.records =~= want.records);
    assert(after.index =~= want.index);
}

/// Remote takeover: where the data key still holds a record that is expired
/// at `now`, the acquire is granted, the expired record is discarded, the
/// data key holds the candidate, the id key of the expired record is gone
/// and the candidate's id key holds the lock key.
pub proof fn law_remote_takeover(keys: RedisStorage, remote: RemoteState, candidate: LockRecord, now: Timestamp, plan: AcquirePlan)
    requires
        remote.data.contains_key(keys.data_key(candidate.lock_key())),
        remote.data[keys.data_key(candidate.lock_key())].expired_at(now),
        keys.plans_acquire(remote.read(keys.data_key(candidate.lock_key())), candidate, now, plan),
    ensures
        plan.answer_on(remote),
        plan.carried_out(remote).read(keys.data_key(candidate.lock_key())) == Some(candidate),
        plan.carried_out(remote).ids.contains_pair(keys.id_key(candidate.lock_id), candidate.lock_key()),
        remote.data[keys.data_key(candidate.lock_key())].lock_id != candidate.lock_id
            ==> !plan.carried_out(remote).ids.contains_key(
            keys.id_key(remote.data[keys.data_key(candidate.lock_key())].lock_id),
        ),
{
    lemma_keys_injective(keys);
}

/// Remote re-entry: where the data key holds a live record of the
/// candidate's owner, the acquire is granted and only the last heartbeat of
/// that record moves, to `now`; its id and its time of acquisition stay, and
/// no id key is written.
pub proof fn law_remote_reentrant_acquire(keys: RedisStorage, remote: RemoteState, candidate: LockRecord, now: Timestamp, plan: AcquirePlan)
    requires
        remote.data.contains_key(keys.data_key(candidate.lock_key())),
        !remote.data[keys.data_key(candidate.lock_key())].expired_at(now),
        remote.data[keys.data_key(candidate.lock_key())].user_id == candidate.user_id,
        keys.plans_acquire(remote.read(keys.data_key(candidate.lock_key())), candidate, now, plan),
    ensures
        plan.answer_on(remote),
        plan.carried_out(remote).ids == remote.ids,
        plan.carried_out(remote).data == remote.data.insert(
            keys.data_key(candidate.lock_key()),
            remote.data[keys.data_key(candidate.lock_key())].refreshed(now),
        ),
        plan->Refresh_ttl == remote.data[keys.data_key(candidate.lock_key())].timeout,
{
}

/// Remote contention: where the data key holds a live record of another
/// owner, the acquire is refused and the remote store stays as it was.
pub proof fn law_remote_contended_acquire(keys: RedisStorage, remote: RemoteState, candidate: LockRecord, now: Timestamp, plan: AcquirePlan)
    requires
        remote.data.contains_key(keys.data_key(candidate.lock_key())),
        !remote.data[keys.data_key(candidate.lock_key())].expired_at(now),
        remote.data[keys.data_key(candidate.lock_key())].user_id != candidate.user_id,
        keys.plans_acquire(remote.read(keys.data_key(candidate.lock_key())), candidate, now, plan),
    ensures
        plan is Deny,
        !plan.answer_on(remote),
        plan.carried_out(remote) == remote,
{
}

/// The remote heartbeat does what the in-process heartbeat does: the plan
/// made from what the id key of `lock_id` and the data key it resolves to
/// hold, carried out on the remote store, leaves it standing for the store
/// that the in-process heartbeat leaves, and is answered alike.
pub proof fn law_remote_heartbeat(keys: RedisStorage, remote: RemoteState, lock_id: Seq<char>, now: Timestamp, plan: HeartbeatPlan)
    requires
        keys.plans_heartbeat(
            lock_id,
            keys.resolved(remote, lock_id),
            keys.resolved_record(remote, lock_id),
            now,
            plan,
        ),
    ensures
        (plan is Refresh) == keys.store_of(remote).holds(lock_id),
        keys.store_of(plan.carried_out(remote)) == keys.store_of(remote).after_heartbeat(lock_id, now),
{
    lemma_keys_injective(keys);
    let after = keys.store_of(plan.carried_out(remote));
    let want = keys.store_of(remote).after_heartbeat(lock_id, now);
    assert(after.records =~= want.records);
    assert(after.index =~= want.index);
}

/// Remote stale heartbeat: where the record under the lock key that the id
/// resolves to bears another id, or there is none, or the id key is absent,
/// the heartbeat is not found and the remote store stays as it was.
pub proof fn law_remote_stale_heartbeat(keys: RedisStorage, remote: RemoteState, lock_id: Seq<char>, now: Timestamp, plan: HeartbeatPlan)
    requires
        keys.plans_heartbeat(
            lock_id,
            keys.resolved(remote, lock_id),
            keys.resolved_record(remote, lock_id),
            now,
            plan,
        ),
        match keys.resolved_record(remote, lock_id) {
            Some(e) => e.lock_id != lock_id,
            None => true,
        },
    ensures
        plan is NotFound,
        plan.carried_out(remote) == remote,
{
}

/// The remote release does what the in-process release does: the plan made
/// from what the id key of `lock_id` and the data key it resolves to hold,
/// carried out on the remote store, leaves it standing for the store that
/// the in-process release leaves, and is answered alike.
pub proof fn law_remote_release(keys: RedisStorage, remote: RemoteState, lock_id: Seq<char>, plan: ReleasePlan)
    requires
        keys.plans_release(
            lock_id,
            keys.resolved(remote, lock_id),
            keys.resolved_record(remote, lock_id),
            plan,
        ),
    ensures
        (plan is Delete) == keys.store_of(remote).holds(lock_id),
        keys.store_of(plan.carried_out(remote)) == keys.store_of(remote).after_release(lock_id),
{
    lemma_keys_injective(keys);
    let after = keys.store_of(plan.carried_out(remote));
    let want = keys.store_of(remote).after_release(lock_id);
    assert(after.records =~= want.records);
    assert(after.index =~= want.index);
}

/// Remote release of an unknown id: where the id key is absent, because the
/// id was never given, was released or has run out, the release is not
/// found and the remote store stays as it was.
pub proof fn law_remote_release_unknown(keys: RedisStorage, remote: RemoteState, lock_id: Seq<char>, plan: ReleasePlan)
    requires
        !remote.ids.contains_key(keys.id_key(lock_id)),
        keys.plans_release(
            lock_id,
            keys.resolved(remote, lock_id),
            keys.resolved_record(remote, lock_id),
            plan,
        ),
    ensures
        plan is NotFound,
        plan.carried_out(remote) == remote,
{
}

/// Remote release is safe to repeat: once the plan of a release has been
/// carried out, the id key is gone, and the plan of a second release finds
/// nothing and changes nothing.
pub proof fn law_remote_release_twice(keys: RedisStorage, remote: RemoteState, lock_id: Seq<char>, first: ReleasePlan, second: ReleasePlan)
    requires
        keys.plans_release(
            lock_id,
            keys.resolved(remote, lock_id),
            keys.resolved_record(remote, lock_id),
            first,
        ),
        keys.plans_release(
            lock_id,
            keys.resolved(first.carried_out(remote), lock_id),
            keys.resolved_record(first.carried_out(remote), lock_id),
            second,
        ),
    ensures
        !first.carried_out(remote).ids.contains_key(keys.id_key(lock_id)),
        second is NotFound,
        second.carried_out(first.carried_out(remote)) == first.carried_out(remote),
{
}

} // verus!
