//! The three requests of the service, mapped onto a lock store, and the
//! answers they are given.

use vstd::prelude::*;
use vstd::string::*;
use crate::models::{
    lock_key_of, AcquireLockRequest, AcquireLockSuccess, ApiResponse, HeartbeatRequest, LockInfo,
    LockRecord, ReleaseLockRequest,
};
use crate::clock::Timestamp;
use crate::storage::memory::{MemoryStorage, StoreState};
use crate::storage::{LockStorage, StorageError};

verus! {

/// The description of the service's interface.
#[derive(Debug)]
pub struct ApiDoc;

/// What a heartbeat that found its lock is answered with.
#[derive(Debug)]
pub struct HeartbeatAck {
    pub updated: bool,
}

/// What a release that found its lock is answered with.
#[derive(Debug)]
pub struct ReleaseAck {
    pub released: bool,
}

/// How an attempt to acquire went, with what the store said of the key
/// afterwards.
#[derive(Debug)]
pub enum AcquireOutcome {
    /// The store could not answer the attempt.
    Failed { error: String },
    /// The store granted the lock; `current` is the record that it then
    /// showed for the key, if it showed one.
    Granted { current: Option<LockInfo> },
    /// The store refused the lock; `current` is the record that it then
    /// showed for the key, if it showed one.
    Denied { current: Option<LockInfo> },
    /// The store refused the lock and could not say who holds it.
    DeniedUnknown { error: String },
}

/// The text of a backend failure.
pub fn error_text(e: StorageError) -> (text: String)
    ensures
        text == e->Backend_0,
{
    match e {
        StorageError::Backend(text) => text,
    }
}

/// The answer to an attempt to acquire.
///
/// A granted lock is answered with the id of the record that the store
/// shows for the key, which on re-entry is the id held before; where the
/// store shows none, with the candidate's id. A refused lock is answered
/// with code 1001 and the holder's name, or with 1002 where the store shows
/// no holder, or with 1003 where the store could not say. An attempt that
/// the store could not answer gets 1004.
pub fn acquire_response(candidate: LockInfo, outcome: AcquireOutcome) -> (r: ApiResponse<AcquireLockSuccess>)
    ensures
        match outcome {
            AcquireOutcome::Granted { current: Some(held) } => {
                &&& r.success && r.code == 0 && r.message@ == "success"@
                &&& r.data.is_some() && r.data.unwrap().lock_id@ == held@.lock_id
            },
            AcquireOutcome::Granted { current: None } => {
                &&& r.success && r.code == 0 && r.message@ == "success"@
                &&& r.data.is_some() && r.data.unwrap().lock_id@ == candidate@.lock_id
            },
            AcquireOutcome::Denied { current: Some(held) } => {
                &&& !r.success && r.code == 1001 && r.data.is_none()
                &&& r.message@ == "Lock already held by "@ + held@.user_name
            },
            AcquireOutcome::Denied { current: None } => {
                &&& !r.success && r.code == 1002 && r.data.is_none()
                &&& r.message@ == "Lock acquisition failed"@
            },
            AcquireOutcome::DeniedUnknown { error } => {
                &&& !r.success && r.code == 1003 && r.data.is_none()
                &&& r.message@ == "Failed to get lock info: "@ + error@
            },
            AcquireOutcome::Failed { error } => {
                &&& !r.success && r.code == 1004 && r.data.is_none()
                &&& r.message@ == "Failed to acquire lock: "@ + error@
            },
        },
{
    match outcome {
        AcquireOutcome::Granted { current } => {
            match current {
                Some(held) => ApiResponse::success(AcquireLockSuccess { lock_id: held.lock_id }),
                None => ApiResponse::success(AcquireLockSuccess { lock_id: candidate.lock_id }),
            }
        },
        AcquireOutcome::Denied { current } => {
            match current {
                Some(held) => ApiResponse::error(
                    1001,
                    String::from_str("Lock already held by ").concat(held.user_name.as_str()),
                ),
                None => ApiResponse::error(1002, String::from_str("Lock acquisition failed")),
            }
        },
        AcquireOutcome::DeniedUnknown { error } => ApiResponse::error(
            1003,
            String::from_str("Failed to get lock info: ").concat(error.as_str()),
        ),
        AcquireOutcome::Failed { error } => ApiResponse::error(
            1004,
            String::from_str("Failed to acquire lock: ").concat(error.as_str()),
        ),
    }
}

/// The answer to a heartbeat: an acknowledgement where the lock was found,
/// code 2001 where it was not, code 2002 where the store could not answer.
pub fn heartbeat_response(result: Result<bool, String>) -> (r: ApiResponse<HeartbeatAck>)
    ensures
        match result {
            Ok(true) => r.success && r.code == 0 && r.message@ == "success"@ && r.data == Some(
                HeartbeatAck { updated: true },
            ),
            Ok(false) => !r.success && r.code == 2001 && r.data.is_none() && r.message@
                == "Lock not found or expired"@,
            Err(error) => !r.success && r.code == 2002 && r.data.is_none() && r.message@
                == "Failed to update heartbeat: "@ + error@,
        },
{
    match result {
        Ok(updated) => {
            if updated {
                ApiResponse::success(HeartbeatAck { updated: true })
            } else {
                ApiResponse::error(2001, String::from_str("Lock not found or expired"))
            }
        },
        Err(error) => ApiResponse::error(
            2002,
            String::from_str("Failed to update heartbeat: ").concat(error.as_str()),
        ),
    }
}

/// The answer to a release: an acknowledgement where the lock was found and
/// given up, code 3001 where it was not found, code 3002 where the store
/// could not answer.
pub fn release_response(result: Result<bool, String>) -> (r: ApiResponse<ReleaseAck>)
    ensures
        match result {
            Ok(true) => r.success && r.code == 0 && r.message@ == "success"@ && r.data == Some(
                ReleaseAck { released: true },
            ),
            Ok(false) => !r.success && r.code == 3001 && r.data.is_none() && r.message@
                == "Lock not found or not owned"@,
            Err(error) => !r.success && r.code == 3002 && r.data.is_none() && r.message@
                == "Failed to release lock: "@ + error@,
        },
{
    match result {
        Ok(released) => {
            if released {
                ApiResponse::success(ReleaseAck { released: true })
            } else {
                ApiResponse::error(3001, String::from_str("Lock not found or not owned"))
            }
        },
        Err(error) => ApiResponse::error(
            3002,
            String::from_str("Failed to release lock: ").concat(error.as_str()),
        ),
    }
}

/// Whether an answer is one of those that `acquire_response` gives.
pub open spec fn is_acquire_answer(r: ApiResponse<AcquireLockSuccess>) -> bool {
    if r.success {
        r.code == 0 && r.data.is_some()
    } else {
        1001 <= r.code <= 1004 && r.data.is_none()
    }
}

/// The outcome of an attempt that the store answered: `acquired` is what it
/// said of the attempt, `lookup` what it said when the key was read back.
/// A read that fails after a grant counts as a grant with no record shown.
pub fn acquire_outcome(acquired: bool, lookup: Result<Option<LockInfo>, StorageError>) -> (outcome: AcquireOutcome)
    ensures
        outcome == match (acquired, lookup) {
            (true, Ok(current)) => (AcquireOutcome::Granted { current }),
            (true, Err(_)) => (AcquireOutcome::Granted { current: None }),
            (false, Ok(current)) => (AcquireOutcome::Denied { current }),
            (false, Err(e)) => (AcquireOutcome::DeniedUnknown { error: e->Backend_0 }),
        },
{
    match lookup {
        Ok(current) => {
            if acquired {
                AcquireOutcome::Granted { current }
            } else {
                AcquireOutcome::Denied { current }
            }
        },
        Err(e) => {
            if acquired {
                AcquireOutcome::Granted { current: None }
            } else {
                AcquireOutcome::DeniedUnknown { error: error_text(e) }
            }
        },
    }
}

/// The outcome of an attempt that the store could not answer.
pub fn acquire_failure(e: StorageError) -> (outcome: AcquireOutcome)
    ensures
        outcome == (AcquireOutcome::Failed { error: e->Backend_0 }),
{
    AcquireOutcome::Failed { error: error_text(e) }
}

/// Whether `r` is the answer to an acquire of `candidate` at `now` on a
/// store that held `before` and answered: a success that carries the id of
/// the record then under the key where no other owner held the key live,
/// code 1001 with the holder's name where one did.
pub open spec fn answers_acquire(before: StoreState, candidate: LockRecord, now: Timestamp, r: ApiResponse<AcquireLockSuccess>) -> bool {
    let key = candidate.lock_key();
    if before.grants(candidate, now) {
        &&& r.success && r.code == 0 && r.message@ == "success"@ && r.data.is_some()
        &&& before.after_acquire(candidate, now).records.contains_key(key)
        &&& r.data.unwrap().lock_id@ == before.after_acquire(candidate, now).records[key].lock_id
    } else {
        &&& !r.success && r.code == 1001 && r.data.is_none()
        &&& r.message@ == "Lock already held by "@ + before.records[key].user_name
    }
}

/// Serves an attempt to acquire for a given candidate from `storage`: tries
/// to acquire, reads the key back, and answers as `acquire_response` says
/// of the outcome that `acquire_outcome` gives.
///
/// What the store does is its own. A lock is granted only where the store
/// then shows the candidate's owner as the holder of the key. Where the
/// store always answers, a grant carries the id of the record shown, which
/// on re-entry is not the candidate's, and no answer is a backend failure.
/// An answer that names a holder names the one that the store shows, and
/// "no holder found" is answered only where the store shows none.
///
/// A store that always answers is left as the acquire leaves it at the
/// instant that the store read, and the answer is the one for that instant:
/// a grant exactly where no other owner held the key live.
pub fn serve_acquire<S: LockStorage>(storage: &mut S, candidate: LockInfo) -> (r: ApiResponse<AcquireLockSuccess>)
    ensures
        is_acquire_answer(r),
        r.success ==> {
            let held = final(storage).content().shows(candidate@.lock_key());
            &&& held is Some
            &&& held.unwrap().user_id == candidate@.user_id
            &&& final(storage).always_answers() ==> r.data.unwrap().lock_id@ == held.unwrap().lock_id
            &&& r.data.unwrap().lock_id@ == held.unwrap().lock_id || r.data.unwrap().lock_id@
                == candidate@.lock_id
        },
        r.code == 1001 ==> {
            let held = final(storage).content().shows(candidate@.lock_key());
            held is Some && r.message@ == "Lock already held by "@ + held.unwrap().user_name
        },
        r.code == 1002 ==> final(storage).content().shows(candidate@.lock_key()) is None,
        old(storage).always_answers() ==> final(storage).always_answers(),
        old(storage).always_answers() ==> exists|now: Timestamp|
            {
                &&& final(storage).content() == #[trigger] old(storage).content().after_acquire(
                    candidate@,
                    now,
                )
                &&& answers_acquire(old(storage).content(), candidate@, now, r)
            },
{
    let lock_key = candidate.get_lock_key();
    match storage.try_acquire(candidate.clone()) {
        Ok(acquired) => {
            let lookup = storage.get_lock(&lock_key);
            acquire_response(candidate, acquire_outcome(acquired, lookup))
        },
        Err(e) => acquire_response(candidate, acquire_failure(e)),
    }
}

/// Serves a request for a lock from `storage`: makes the candidate, with a
/// fresh id and the present instant, and serves it as `serve_acquire` does.
///
/// A store that always answers is left as the acquire of the request under
/// some id leaves it, and the answer is the one for that acquire: a grant
/// exactly where no other owner held the key live.
pub fn acquire_lock<S: LockStorage>(storage: &mut S, req: &AcquireLockRequest) -> (r: ApiResponse<AcquireLockSuccess>)
    ensures
        is_acquire_answer(r),
        r.success ==> {
            let held = final(storage).content().shows(lock_key_of(req.namespace@, req.business_id@));
            &&& held is Some
            &&& held.unwrap().user_id == req.user_id@
            &&& final(storage).always_answers() ==> r.data.unwrap().lock_id@ == held.unwrap().lock_id
        },
        r.code == 1001 ==> {
            let held = final(storage).content().shows(lock_key_of(req.namespace@, req.business_id@));
            held is Some && r.message@ == "Lock already held by "@ + held.unwrap().user_name
        },
        r.code == 1002 ==> final(storage).content().shows(lock_key_of(req.namespace@, req.business_id@)) is None,
        old(storage).always_answers() ==> final(storage).always_answers(),
        old(storage).always_answers() ==> exists|lock_id: Seq<char>, at: Timestamp, now: Timestamp|
            {
                &&& final(storage).content() == #[trigger] old(storage).content().after_acquire(
                    LockRecord::of_request(req, lock_id, at),
                    now,
                )
                &&& answers_acquire(old(storage).content(), LockRecord::of_request(req, lock_id, at), now, r)
            },
{
    let candidate = LockInfo::new(req);
    let ghost made = candidate@;
    let r = serve_acquire(storage, candidate);
    proof {
        if old(storage).always_answers() {
            let now = choose|now: Timestamp|
                {
                    &&& storage.content() == #[trigger] old(storage).content().after_acquire(made, now)
                    &&& answers_acquire(old(storage).content(), made, now, r)
                };
            assert(made == LockRecord::of_request(req, made.lock_id, made.locked_at));
            assert(storage.content() == old(storage).content().after_acquire(
                LockRecord::of_request(req, made.lock_id, made.locked_at),
                now,
            ));
        }
    }
    r
}

/// Serves a request for a lock from the in-process store, under a given id
/// at a given instant.
///
/// The store is left as an acquire of the candidate leaves it. Where the
/// store grants (the key is free, its record is expired, or the requester
/// holds it), the answer is a success that carries the id of the record then
/// under the key: the given id, or on re-entry the id held before. Where it
/// refuses, the answer has code 1001 and names the holder.
pub fn acquire_lock_at(storage: &mut MemoryStorage, req: &AcquireLockRequest, lock_id: String, now: Timestamp) -> (r: ApiResponse<AcquireLockSuccess>)
    ensures
        final(storage)@ == old(storage)@.after_acquire(LockRecord::of_request(req, lock_id@, now), now),
        final(storage).snapshot_path() == old(storage).snapshot_path(),
        old(storage)@.grants(LockRecord::of_request(req, lock_id@, now), now) ==> {
            &&& r.success && r.code == 0 && r.message@ == "success"@ && r.data.is_some()
            &&& final(storage)@.records.contains_key(lock_key_of(req.namespace@, req.business_id@))
            &&& r.data.unwrap().lock_id@ == final(storage)@.records[lock_key_of(
                req.namespace@,
                req.business_id@,
            )].lock_id
        },
        !old(storage)@.grants(LockRecord::of_request(req, lock_id@, now), now) ==> {
            &&& !r.success && r.code == 1001 && r.data.is_none()
            &&& r.message@ == "Lock already held by "@ + old(storage)@.records[lock_key_of(
                req.namespace@,
                req.business_id@,
            )].user_name
        },
{
    let candidate = LockInfo::with_id_at(req, lock_id, now);
    let lock_key = candidate.get_lock_key();
    let acquired = storage.try_acquire_at(candidate.clone(), now);
    let lookup = storage.get_lock(&lock_key);
    acquire_response(candidate, acquire_outcome(acquired, lookup))
}

/// Serves a heartbeat from the in-process store at a given instant: the
/// store is left as the heartbeat leaves it, and the answer is an
/// acknowledgement exactly where the store answered to the id, "not found"
/// with code 2001 otherwise.
pub fn heartbeat_at(storage: &mut MemoryStorage, req: &HeartbeatRequest, now: Timestamp) -> (r: ApiResponse<HeartbeatAck>)
    ensures
        final(storage)@ == old(storage)@.after_heartbeat(req.lock_id@, now),
        final(storage).snapshot_path() == old(storage).snapshot_path(),
        old(storage)@.holds(req.lock_id@) ==> r.success && r.code == 0 && r.message@ == "success"@
            && r.data == Some(HeartbeatAck { updated: true }),
        !old(storage)@.holds(req.lock_id@) ==> !r.success && r.code == 2001 && r.data.is_none()
            && r.message@ == "Lock not found or expired"@,
{
    let updated = storage.update_heartbeat_at(&req.lock_id, now);
    heartbeat_response(Ok(updated))
}

/// Serves a release from the in-process store: the store is left as the
/// release leaves it, and the answer is an acknowledgement exactly where the
/// store answered to the id, "not found" with code 3001 otherwise.
pub fn release_lock_local(storage: &mut MemoryStorage, req: &ReleaseLockRequest) -> (r: ApiResponse<ReleaseAck>)
    ensures
        final(storage)@ == old(storage)@.after_release(req.lock_id@),
        final(storage).snapshot_path() == old(storage).snapshot_path(),
        old(storage)@.holds(req.lock_id@) ==> r.success && r.code == 0 && r.message@ == "success"@
            && r.data == Some(ReleaseAck { released: true }),
        !old(storage)@.holds(req.lock_id@) ==> !r.success && r.code == 3001 && r.data.is_none()
            && r.message@ == "Lock not found or not owned"@,
{
    match storage.release(&req.lock_id) {
        Ok(released) => release_response(Ok(released)),
        Err(e) => release_response(Err(error_text(e))),
    }
}

/// Serves a heartbeat from `storage`, and answers as `heartbeat_response`
/// says: with an acknowledgement if the store answered to the id, with
/// "not found" if it did not. A store that always answers is left as the
/// heartbeat leaves it at the instant that the store read.
pub fn heartbeat<S: LockStorage>(storage: &mut S, req: &HeartbeatRequest) -> (r: ApiResponse<HeartbeatAck>)
    ensures
        r.success ==> r.code == 0 && r.data == Some(HeartbeatAck { updated: true }),
        !r.success ==> (r.code == 2001 || r.code == 2002) && r.data.is_none(),
        r.success ==> old(storage).content().holds(req.lock_id@),
        r.code == 2001 ==> !old(storage).content().holds(req.lock_id@) && r.message@
            == "Lock not found or expired"@,
        old(storage).always_answers() ==> final(storage).always_answers(),
        old(storage).always_answers() ==> r.success == old(storage).content().holds(req.lock_id@)
            && r.code != 2002,
        old(storage).always_answers() ==> exists|now: Timestamp|
            final(storage).content() == #[trigger] old(storage).content().after_heartbeat(
                req.lock_id@,
                now,
            ),
{
    let result = match storage.update_heartbeat(&req.lock_id) {
        Ok(updated) => Ok(updated),
        Err(e) => Err(error_text(e)),
    };
    heartbeat_response(result)
}

/// Serves a release from `storage`, and answers as `release_response` says:
/// with an acknowledgement if the store answered to the id, with "not
/// found" if it did not. Either way the store no longer answers to the id.
/// A store that always answers is left as the release leaves it.
pub fn release_lock<S: LockStorage>(storage: &mut S, req: &ReleaseLockRequest) -> (r: ApiResponse<ReleaseAck>)
    ensures
        r.success ==> r.code == 0 && r.data == Some(ReleaseAck { released: true }),
        !r.success ==> (r.code == 3001 || r.code == 3002) && r.data.is_none(),
        r.success ==> old(storage).content().holds(req.lock_id@),
        r.code == 3001 ==> !old(storage).content().holds(req.lock_id@) && r.message@
            == "Lock not found or not owned"@,
        r.success || r.code == 3001 ==> !final(storage).content().holds(req.lock_id@),
        old(storage).always_answers() ==> final(storage).always_answers(),
        old(storage).always_answers() ==> r.success == old(storage).content().holds(req.lock_id@)
            && r.code != 3002,
        old(storage).always_answers() ==> final(storage).content() == old(storage).content().after_release(
            req.lock_id@,
        ),
{
    let result = match storage.release(&req.lock_id) {
        Ok(released) => Ok(released),
        Err(e) => Err(error_text(e)),
    };
    release_response(result)
}

} // verus!
