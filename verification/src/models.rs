//! The lock record and the request and response shapes around it.

use vstd::prelude::*;
use vstd::string::*;
use crate::clock::{Timestamp, elapsed_seconds, system_now};

verus! {

/// The namespace that a request falls into when it names none.
pub fn default_namespace() -> (r: String)
    ensures
        r@ == "default"@,
{
    String::from_str("default")
}

/// A request for a lock.
#[derive(Debug)]
pub struct AcquireLockRequest {
    pub namespace: String,
    pub user_id: String,
    pub user_name: String,
    pub business_id: String,
    /// Seconds of silence after which the lock may be taken over.
    pub timeout: u64,
}

/// What a granted request is answered with.
#[derive(Debug)]
pub struct AcquireLockSuccess {
    pub lock_id: String,
}

/// What a denied request is answered with: who holds the lock, and since when.
#[derive(Debug)]
pub struct AcquireLockFailure {
    pub current_holder: String,
    pub locked_at: Timestamp,
}

/// A request to keep a lock alive.
#[derive(Debug)]
pub struct HeartbeatRequest {
    pub lock_id: String,
}

/// A request to give a lock up.
#[derive(Debug)]
pub struct ReleaseLockRequest {
    pub lock_id: String,
}

/// The key under which two requests exclude each other: the namespace, a
/// colon, the business id.
pub open spec fn lock_key_of(namespace: Seq<char>, business_id: Seq<char>) -> Seq<char> {
    namespace + seq![':'] + business_id
}

/// A lock record as a mathematical value.
pub struct LockRecord {
    pub lock_id: Seq<char>,
    pub namespace: Seq<char>,
    pub user_id: Seq<char>,
    pub user_name: Seq<char>,
    pub business_id: Seq<char>,
    pub timeout: u64,
    pub locked_at: Timestamp,
    pub last_heartbeat: Timestamp,
}

impl LockRecord {
    /// The key that this record excludes others from.
    pub open spec fn lock_key(self) -> Seq<char> {
        lock_key_of(self.namespace, self.business_id)
    }

    /// A record is expired at `now` once the whole seconds since its last
    /// heartbeat have reached its timeout.
    pub open spec fn expired_at(self, now: Timestamp) -> bool {
        elapsed_seconds(now, self.last_heartbeat) >= self.timeout
    }

    /// The record with its last heartbeat moved to `now`.
    pub open spec fn refreshed(self, now: Timestamp) -> LockRecord {
        LockRecord { last_heartbeat: now, ..self }
    }

    /// The record that a request becomes, under a given id at a given instant.
    pub open spec fn of_request(request: &AcquireLockRequest, lock_id: Seq<char>, now: Timestamp) -> LockRecord {
        LockRecord {
            lock_id,
            namespace: request.namespace@,
            user_id: request.user_id@,
            user_name: request.user_name@,
            business_id: request.business_id@,
            timeout: request.timeout,
            locked_at: now,
            last_heartbeat: now,
        }
    }
}

/// One held, or lately held, lock.
#[derive(Debug)]
pub struct LockInfo {
    pub lock_id: String,
    pub namespace: String,
    pub user_id: String,
    pub user_name: String,
    pub business_id: String,
    pub timeout: u64,
    pub locked_at: Timestamp,
    pub last_heartbeat: Timestamp,
}

impl View for LockInfo {
    type V = LockRecord;

    open spec fn view(&self) -> LockRecord {
        LockRecord {
            lock_id: self.lock_id@,
            namespace: self.namespace@,
            user_id: self.user_id@,
            user_name: self.user_name@,
            business_id: self.business_id@,
            timeout: self.timeout,
            locked_at: self.locked_at,
            last_heartbeat: self.last_heartbeat,
        }
    }
}

impl Clone for LockInfo {
    fn clone(&self) -> (r: Self)
        ensures
            r == *self,
    {
        LockInfo {
            lock_id: self.lock_id.clone(),
            namespace: self.namespace.clone(),
            user_id: self.user_id.clone(),
            user_name: self.user_name.clone(),
            business_id: self.business_id.clone(),
            timeout: self.timeout,
            locked_at: self.locked_at,
            last_heartbeat: self.last_heartbeat,
        }
    }
}

/// Draws a fresh lock id from `uuid::Uuid::new_v4` and writes it out in the
/// hyphenated form. The id is random: nothing is claimed of it.
#[verifier::external_body]
pub(crate) fn fresh_lock_id() -> (id: String) {
    uuid::Uuid::new_v4().to_string()
}

impl LockInfo {
    /// The candidate record for a request: a fresh id, and the present
    /// instant as both the time of acquisition and the last heartbeat.
    pub fn new(request: &AcquireLockRequest) -> (r: Self)
        ensures
            r@ == LockRecord::of_request(request, r.lock_id@, r.locked_at),
    {
        let id = fresh_lock_id();
        let now = system_now();
        LockInfo::with_id_at(request, id, now)
    }

    /// The candidate record for a request under a given id at a given instant.
    pub fn with_id_at(request: &AcquireLockRequest, lock_id: String, now: Timestamp) -> (r: Self)
        ensures
            r@ == LockRecord::of_request(request, lock_id@, now),
    {
        LockInfo {
            lock_id,
            namespace: request.namespace.clone(),
            user_id: request.user_id.clone(),
            user_name: request.user_name.clone(),
            business_id: request.business_id.clone(),
            timeout: request.timeout,
            locked_at: now,
            last_heartbeat: now,
        }
    }

    /// Whether the record is expired at `now`.
    pub fn is_expired_at(&self, now: Timestamp) -> (r: bool)
        ensures
            r == self@.expired_at(now),
    {
        now.at_least_seconds_after(self.last_heartbeat, self.timeout)
    }

    /// Whether the record is expired by the system clock. The contract says
    /// that the answer is the one for some instant, the one that was read.
    pub fn is_expired(&self) -> (r: bool)
        ensures
            exists|now: Timestamp| r == #[trigger] self@.expired_at(now),
    {
        let now = system_now();
        self.is_expired_at(now)
    }

    /// The key of this record: the namespace, a colon, the business id.
    pub fn get_lock_key(&self) -> (key: String)
        ensures
            key@ == self@.lock_key(),
    {
        let mut key = self.namespace.clone();
        proof {
            reveal_strlit(":");
            assert(":"@ =~= seq![':']);
        }
        key.append(":");
        key.append(self.business_id.as_str());
        key
    }
}

/// The envelope of every answer of the service.
#[derive(Debug)]
pub struct ApiResponse<T> {
    pub code: i32,
    pub message: String,
    pub data: Option<T>,
    pub success: bool,
}

impl<T> ApiResponse<T> {
    /// The answer that carries `data`: code 0 and the message "success".
    pub fn success(data: T) -> (r: Self)
        ensures
            r.code == 0,
            r.message@ == "success"@,
            r.data == Some(data),
            r.success,
    {
        ApiResponse { code: 0, message: String::from_str("success"), data: Some(data), success: true }
    }

    /// The answer that carries a failure: the given code and message, no data.
    pub fn error(code: i32, message: String) -> (r: Self)
        ensures
            r.code == code,
            r.message == message,
            r.data.is_none(),
            !r.success,
    {
        ApiResponse { code, message, data: None, success: false }
    }
}

} // verus!
