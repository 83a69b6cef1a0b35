//! What holds of the in-process store across its operations.

use vstd::prelude::*;
use crate::clock::{Timestamp, elapsed_seconds};
use crate::models::LockRecord;
use crate::storage::memory::StoreState;

verus! {

/// One operation on a store, with the instant at which it is carried out.
pub enum Step {
    Acquire { candidate: LockRecord, now: Timestamp },
    Heartbeat { lock_id: Seq<char>, now: Timestamp },
    Release { lock_id: Seq<char> },
    Sweep { now: Timestamp },
}

/// The store after one operation.
pub open spec fn after_step(s: StoreState, step: Step) -> StoreState {
    match step {
        Step::Acquire { candidate, now } => s.after_acquire(candidate, now),
        Step::Heartbeat { lock_id, now } => s.after_heartbeat(lock_id, now),
        Step::Release { lock_id } => s.after_release(lock_id),
        Step::Sweep { now } => s.after_cleanup(now),
    }
}

/// The store after a sequence of operations, carried out in order.
pub open spec fn after_steps(s: StoreState, steps: Seq<Step>) -> StoreState
    decreases steps.len(),
{
    if steps.len() == 0 {
        s
    } else {
        after_step(after_steps(s, steps.drop_last()), steps.last())
    }
}

/// Every operation keeps each record under its own key and each id of the
/// reverse index naming the record that its key holds.
pub proof fn law_step_keeps_well_filed(s: StoreState, step: Step)
    requires
        s.well_filed(),
    ensures
        after_step(s, step).well_filed(),
{
    let t = after_step(s, step);
    match step {
        Step::Acquire { candidate, now } => {
            let key = candidate.lock_key();
            assert forall|id: Seq<char>| t.index.contains_key(id) implies #[trigger] t.holds(id) by {
                if id != candidate.lock_id || t.index == s.index {
                    assert(s.holds(id));
                }
            }
            assert(t.keyed());
        },
        Step::Heartbeat { lock_id, now } => {
            assert forall|id: Seq<char>| t.index.contains_key(id) implies #[trigger] t.holds(id) by {
                assert(s.holds(id));
            }
            assert(t.keyed());
        },
        Step::Release { lock_id } => {
            assert forall|id: Seq<char>| t.index.contains_key(id) implies #[trigger] t.holds(id) by {
                assert(s.holds(id));
            }
            assert(t.keyed());
        },
        Step::Sweep { now } => {
            assert forall|id: Seq<char>| t.index.contains_key(id) implies #[trigger] t.holds(id) by {
                assert(s.holds(id));
                if s.expired_keys(now).contains(s.index[id]) {
                    assert(s.bears_expired(s.index[id], id, now));
                }
            }
            assert(t.keyed());
        },
    }
}

/// Whatever sequence of operations an empty store has gone through, every
/// id of its reverse index names the record that its key holds.
pub proof fn law_steps_keep_well_filed(steps: Seq<Step>)
    ensures
        after_steps(StoreState::empty(), steps).well_filed(),
    decreases steps.len(),
{
    if steps.len() > 0 {
        law_steps_keep_well_filed(steps.drop_last());
        law_step_keeps_well_filed(after_steps(StoreState::empty(), steps.drop_last()), steps.last());
    }
}

/// Whether a step brings no id that the reverse index already knows: an
/// acquire whose candidate bears a new id, or any other step.
pub open spec fn brings_new_id(s: StoreState, step: Step) -> bool {
    match step {
        Step::Acquire { candidate, now } => !s.index.contains_key(candidate.lock_id),
        _ => true,
    }
}

/// Whether every acquire of a sequence of steps, carried out in order from
/// `s`, brings an id that the reverse index does not know at that point.
pub open spec fn bring_new_ids(s: StoreState, steps: Seq<Step>) -> bool
    decreases steps.len(),
{
    if steps.len() == 0 {
        true
    } else {
        bring_new_ids(s, steps.drop_last()) && brings_new_id(after_steps(s, steps.drop_last()), steps.last())
    }
}

/// Exact agreement is kept: where an id resolves to a key exactly if the
/// record under that key bears it, the same holds after any step that
/// brings no id which the reverse index already knows.
pub proof fn law_step_keeps_consistent(s: StoreState, step: Step)
    requires
        s.consistent(),
        brings_new_id(s, step),
    ensures
        after_step(s, step).consistent(),
{
    law_step_keeps_well_filed(s, step);
    let t = after_step(s, step);
    match step {
        Step::Acquire { candidate, now } => {
            assert forall|k: Seq<char>| t.records.contains_key(k) implies t.index.contains_pair(
                (#[trigger] t.records[k]).lock_id,
                k,
            ) by {
                if k != candidate.lock_key() {
                    assert(s.index.contains_pair(s.records[k].lock_id, k));
                } else if s.records.contains_key(k) {
                    assert(s.index.contains_pair(s.records[k].lock_id, k));
                }
            }
        },
        Step::Heartbeat { lock_id, now } => {
            assert forall|k: Seq<char>| t.records.contains_key(k) implies t.index.contains_pair(
                (#[trigger] t.records[k]).lock_id,
                k,
            ) by {
                assert(s.index.contains_pair(s.records[k].lock_id, k));
            }
        },
        Step::Release { lock_id } => {
            assert forall|k: Seq<char>| t.records.contains_key(k) implies t.index.contains_pair(
                (#[trigger] t.records[k]).lock_id,
                k,
            ) by {
                assert(s.index.contains_pair(s.records[k].lock_id, k));
                if s.index.contains_key(lock_id) {
                    assert(s.holds(lock_id));
                }
            }
        },
        Step::Sweep { now } => {
            assert forall|k: Seq<char>| t.records.contains_key(k) implies t.index.contains_pair(
                (#[trigger] t.records[k]).lock_id,
                k,
            ) by {
                assert(s.index.contains_pair(s.records[k].lock_id, k));
                let id = s.records[k].lock_id;
                if s.expired_ids(now).contains(id) {
                    let k2 = choose|k2: Seq<char>| #[trigger] s.bears_expired(k2, id, now);
                    assert(s.index.contains_pair(s.records[k2].lock_id, k2));
                }
            }
        },
    }
}

/// Whatever sequence of operations an empty store has gone through, its two
/// indices agree exactly, as long as every acquire brought a new id.
pub proof fn law_steps_keep_consistent(steps: Seq<Step>)
    requires
        bring_new_ids(StoreState::empty(), steps),
    ensures
        after_steps(StoreState::empty(), steps).consistent(),
    decreases steps.len(),
{
    if steps.len() > 0 {
        law_steps_keep_consistent(steps.drop_last());
        law_step_keeps_consistent(after_steps(StoreState::empty(), steps.drop_last()), steps.last());
    }
}

/// Mutual exclusion: whatever sequence of acquires, heartbeats, releases and
/// sweeps a store has gone through, a key has at most one holder. Two ids
/// that the store knows for one key are the same id, and the record under
/// that key, with its one owner, bears it.
pub proof fn law_one_holder_per_key(steps: Seq<Step>, id_a: Seq<char>, id_b: Seq<char>)
    requires
        after_steps(StoreState::empty(), steps).index.contains_key(id_a),
        after_steps(StoreState::empty(), steps).index.contains_key(id_b),
        after_steps(StoreState::empty(), steps).index[id_a] == after_steps(StoreState::empty(), steps).index[id_b],
    ensures
        id_a == id_b,
        after_steps(StoreState::empty(), steps).holds(id_a),
{
    let s = after_steps(StoreState::empty(), steps);
    law_steps_keep_well_filed(steps);
    assert(s.holds(id_a));
    assert(s.holds(id_b));
}

/// Re-entry: an owner that acquires a key which it holds live is granted,
/// and the record keeps its id and its time of acquisition; only the last
/// heartbeat moves, to `now`. The reverse index and every other key stay as
/// they were.
pub proof fn law_reentrant_acquire(s: StoreState, candidate: LockRecord, now: Timestamp)
    requires
        s.held_live(candidate.lock_key(), now),
        s.records[candidate.lock_key()].user_id == candidate.user_id,
    ensures
        s.grants(candidate, now),
        s.after_acquire(candidate, now).index == s.index,
        s.after_acquire(candidate, now).records == s.records.insert(
            candidate.lock_key(),
            s.records[candidate.lock_key()].refreshed(now),
        ),
        s.after_acquire(candidate, now).records[candidate.lock_key()].lock_id
            == s.records[candidate.lock_key()].lock_id,
        s.after_acquire(candidate, now).records[candidate.lock_key()].locked_at
            == s.records[candidate.lock_key()].locked_at,
        s.after_acquire(candidate, now).records[candidate.lock_key()].last_heartbeat == now,
{
}

/// Contention: an owner that acquires a key which another owner holds live
/// is refused, and the store stays as it was.
pub proof fn law_contended_acquire(s: StoreState, candidate: LockRecord, now: Timestamp)
    requires
        s.held_live(candidate.lock_key(), now),
        s.records[candidate.lock_key()].user_id != candidate.user_id,
    ensures
        !s.grants(candidate, now),
        s.after_acquire(candidate, now) == s,
{
}

/// Expiry: a key that another owner holds can be acquired exactly from the
/// instant at which the whole seconds since the last heartbeat reach the
/// timeout; the candidate then is the record of the key, under its own id.
pub proof fn law_takeover_at_expiry(s: StoreState, candidate: LockRecord, now: Timestamp)
    requires
        s.records.contains_key(candidate.lock_key()),
        s.records[candidate.lock_key()].user_id != candidate.user_id,
    ensures
        s.grants(candidate, now) <==> elapsed_seconds(now, s.records[candidate.lock_key()].last_heartbeat)
            >= s.records[candidate.lock_key()].timeout,
        s.grants(candidate, now) ==> s.after_acquire(candidate, now).records[candidate.lock_key()]
            == candidate,
        s.grants(candidate, now) ==> s.after_acquire(candidate, now).holds(candidate.lock_id),
{
}

/// Whether place `j` of a listing holds a record under key `k` that is
/// not expired at `now`.
pub open spec fn lists_live(keys: Seq<Seq<char>>, listed: Seq<LockRecord>, j: int, k: Seq<char>, now: Timestamp) -> bool {
    0 <= j < keys.len() && keys[j] == k && !listed[j].expired_at(now)
}

proof fn lemma_restore_prefix(s: StoreState, keys: Seq<Seq<char>>, listed: Seq<LockRecord>, now: Timestamp, n: int)
    requires
        s.keyed(),
        s.lists_records(keys, listed),
        0 <= n <= listed.len(),
    ensures
        forall|k: Seq<char>| #[trigger]
            StoreState::empty().after_restore(listed.take(n), now).records.contains_key(k) <==> exists|j: int|
                j < n && #[trigger] lists_live(keys, listed, j, k, now),
        forall|k: Seq<char>| #[trigger]
            StoreState::empty().after_restore(listed.take(n), now).records.contains_key(k)
                ==> StoreState::empty().after_restore(listed.take(n), now).records[k] == s.records[k],
    decreases n,
{
    if n > 0 {
        lemma_restore_prefix(s, keys, listed, now, n - 1);
        assert(listed.take(n).drop_last() =~= listed.take(n - 1));
        assert(listed.take(n).last() == listed[n - 1]);
        let prev = StoreState::empty().after_restore(listed.take(n - 1), now);
        let cur = StoreState::empty().after_restore(listed.take(n), now);
        assert(s.records.contains_pair(keys[n - 1], listed[n - 1]));
        assert(listed[n - 1].lock_key() == keys[n - 1]);
        assert forall|k: Seq<char>| #[trigger] cur.records.contains_key(k) implies exists|j: int|
            j < n && #[trigger] lists_live(keys, listed, j, k, now) by {
            if prev.records.contains_key(k) {
                let j = choose|j: int| j < n - 1 && #[trigger] lists_live(keys, listed, j, k, now);
                assert(lists_live(keys, listed, j, k, now));
            } else {
                assert(lists_live(keys, listed, n - 1, k, now));
            }
        }
        assert forall|k: Seq<char>| (exists|j: int| j < n && #[trigger] lists_live(keys, listed, j, k, now))
            implies #[trigger] cur.records.contains_key(k) by {
            let j = choose|j: int| j < n && #[trigger] lists_live(keys, listed, j, k, now);
            if j < n - 1 {
                assert(lists_live(keys, listed, j, k, now));
                assert(prev.records.contains_key(k));
            }
        }
    } else {
        assert(listed.take(0) =~= Seq::<LockRecord>::empty());
    }
}

/// Snapshot round trip: a listing of the records of a store, restored into
/// an empty store at `now`, gives the forward table of that store without
/// the records expired at `now`.
pub proof fn law_snapshot_round_trip(s: StoreState, keys: Seq<Seq<char>>, listed: Seq<LockRecord>, now: Timestamp)
    requires
        s.keyed(),
        s.lists_records(keys, listed),
    ensures
        StoreState::empty().after_restore(listed, now).records == s.records.remove_keys(s.expired_keys(now)),
{
    let n = listed.len() as int;
    lemma_restore_prefix(s, keys, listed, now, n);
    assert(listed.take(n) =~= listed);
    let got = StoreState::empty().after_restore(listed, now).records;
    let want = s.records.remove_keys(s.expired_keys(now));
    assert forall|k: Seq<char>| got.contains_key(k) == want.contains_key(k) by {
        if got.contains_key(k) {
            let j = choose|j: int| j < n && #[trigger] lists_live(keys, listed, j, k, now);
            assert(s.records.contains_pair(keys[j], listed[j]));
        }
        if want.contains_key(k) {
            assert(keys.contains(k));
            let j = choose|j: int| 0 <= j < keys.len() && keys[j] == k;
            assert(s.records.contains_pair(keys[j], listed[j]));
            assert(lists_live(keys, listed, j, k, now));
        }
    }
    assert(got =~= want);
}

/// Release is safe to repeat: once an id has been released the store no
/// longer answers to it, so a second release finds nothing; and releasing
/// an id that the store does not know leaves the store as it was.
pub proof fn law_release_twice(s: StoreState, lock_id: Seq<char>)
    ensures
        !s.after_release(lock_id).holds(lock_id),
        !s.after_release(lock_id).index.contains_key(lock_id),
        !s.index.contains_key(lock_id) ==> !s.holds(lock_id) && s.after_release(lock_id) == s,
        s.after_release(lock_id).after_release(lock_id) == s.after_release(lock_id),
{
    assert(s.after_release(lock_id).index.remove(lock_id) =~= s.after_release(lock_id).index);
    if !s.index.contains_key(lock_id) {
        assert(s.index.remove(lock_id) =~= s.index);
    }
}

/// A heartbeat after release finds nothing and changes nothing.
pub proof fn law_heartbeat_after_release(s: StoreState, lock_id: Seq<char>, now: Timestamp)
    ensures
        !s.after_release(lock_id).holds(lock_id),
        s.after_release(lock_id).after_heartbeat(lock_id, now) == s.after_release(lock_id),
{
}

/// A heartbeat after takeover finds nothing: once the record that bore
/// `stale_id` has expired and another candidate has acquired its key under
/// another id, the store no longer answers to `stale_id`, and a heartbeat
/// for it changes nothing.
pub proof fn law_heartbeat_after_takeover(s: StoreState, stale_id: Seq<char>, candidate: LockRecord, now: Timestamp, later: Timestamp)
    requires
        s.holds(stale_id),
        s.index[stale_id] == candidate.lock_key(),
        s.records[candidate.lock_key()].expired_at(now),
        candidate.lock_id != stale_id,
    ensures
        s.grants(candidate, now),
        !s.after_acquire(candidate, now).holds(stale_id),
        s.after_acquire(candidate, now).after_heartbeat(stale_id, later) == s.after_acquire(candidate, now),
{
}

proof fn lemma_restore_prefix_well_filed(s: StoreState, keys: Seq<Seq<char>>, listed: Seq<LockRecord>, now: Timestamp, n: int)
    requires
        s.keyed(),
        s.lists_records(keys, listed),
        0 <= n <= listed.len(),
    ensures
        StoreState::empty().after_restore(listed.take(n), now).well_filed(),
    decreases n,
{
    if n > 0 {
        lemma_restore_prefix_well_filed(s, keys, listed, now, n - 1);
        lemma_restore_prefix(s, keys, listed, now, n - 1);
        assert(listed.take(n).drop_last() =~= listed.take(n - 1));
        assert(listed.take(n).last() == listed[n - 1]);
        let prev = StoreState::empty().after_restore(listed.take(n - 1), now);
        assert(s.records.contains_pair(keys[n - 1], listed[n - 1]));
        if prev.records.contains_key(keys[n - 1]) {
            let j = choose|j: int| j < n - 1 && #[trigger] lists_live(keys, listed, j, keys[n - 1], now);
            assert(keys[j] == keys[n - 1]);
        }
        if !listed[n - 1].expired_at(now) {
            law_step_keeps_well_filed(prev, Step::Acquire { candidate: listed[n - 1], now });
        }
    } else {
        assert(listed.take(0) =~= Seq::<LockRecord>::empty());
    }
}

/// A snapshot restores to a store whose two indices agree: a listing of the
/// records of a store, restored into an empty store, leaves every id of the
/// reverse index naming the record that its key holds.
pub proof fn law_restore_is_well_filed(s: StoreState, keys: Seq<Seq<char>>, listed: Seq<LockRecord>, now: Timestamp)
    requires
        s.keyed(),
        s.lists_records(keys, listed),
    ensures
        StoreState::empty().after_restore(listed, now).well_filed(),
{
    lemma_restore_prefix_well_filed(s, keys, listed, now, listed.len() as int);
    assert(listed.take(listed.len() as int) =~= listed);
}

proof fn lemma_restore_prefix_consistent(s: StoreState, keys: Seq<Seq<char>>, listed: Seq<LockRecord>, now: Timestamp, n: int)
    requires
        s.consistent(),
        s.lists_records(keys, listed),
        0 <= n <= listed.len(),
    ensures
        StoreState::empty().after_restore(listed.take(n), now).consistent(),
    decreases n,
{
    if n > 0 {
        lemma_restore_prefix_consistent(s, keys, listed, now, n - 1);
        lemma_restore_prefix(s, keys, listed, now, n - 1);
        assert(listed.take(n).drop_last() =~= listed.take(n - 1));
        assert(listed.take(n).last() == listed[n - 1]);
        let prev = StoreState::empty().after_restore(listed.take(n - 1), now);
        let last = listed[n - 1];
        assert(s.records.contains_pair(keys[n - 1], last));
        if prev.records.contains_key(keys[n - 1]) {
            let j = choose|j: int| j < n - 1 && #[trigger] lists_live(keys, listed, j, keys[n - 1], now);
            assert(keys[j] == keys[n - 1]);
        }
        if prev.index.contains_key(last.lock_id) {
            assert(prev.holds(last.lock_id));
            let k = prev.index[last.lock_id];
            assert(prev.records[k] == s.records[k]);
            let j = choose|j: int| j < n - 1 && #[trigger] lists_live(keys, listed, j, k, now);
            assert(s.records.contains_pair(keys[j], listed[j]));
            assert(s.index.contains_pair(s.records[k].lock_id, k));
            assert(s.index.contains_pair(s.records[keys[n - 1]].lock_id, keys[n - 1]));
        }
        if !last.expired_at(now) {
            law_step_keeps_consistent(prev, Step::Acquire { candidate: last, now });
        }
    } else {
        assert(listed.take(0) =~= Seq::<LockRecord>::empty());
    }
}

/// A snapshot of a store whose indices agree exactly restores to a store
/// whose indices agree exactly.
pub proof fn law_restore_is_consistent(s: StoreState, keys: Seq<Seq<char>>, listed: Seq<LockRecord>, now: Timestamp)
    requires
        s.consistent(),
        s.lists_records(keys, listed),
    ensures
        StoreState::empty().after_restore(listed, now).consistent(),
{
    lemma_restore_prefix_consistent(s, keys, listed, now, listed.len() as int);
    assert(listed.take(listed.len() as int) =~= listed);
}

/// Restoring keeps every record under its own key.
pub proof fn law_restore_keeps_keyed(s: StoreState, data: Seq<LockRecord>, now: Timestamp)
    requires
        s.keyed(),
    ensures
        s.after_restore(data, now).keyed(),
    decreases data.len(),
{
    if data.len() > 0 {
        law_restore_keeps_keyed(s, data.drop_last(), now);
    }
}

/// The instant of expiry: a record with a timeout of at least one second is
/// expired at `now` exactly if `now` lies at least that many seconds, to the
/// nanosecond, after its last heartbeat.
pub proof fn law_expiry_instant(record: LockRecord, now: Timestamp)
    requires
        record.timeout > 0,
    ensures
        record.expired_at(now) <==> now.nanos_since_epoch() - record.last_heartbeat.nanos_since_epoch()
            >= record.timeout * 1_000_000_000,
{
}

} // verus!
