use fe_lock_service::clock::Timestamp;
use fe_lock_service::models::{default_namespace, AcquireLockRequest, ApiResponse, LockInfo};

fn record(last_secs: i64, last_nanos: u32, timeout: u64) -> LockInfo {
    LockInfo {
        lock_id: "L1".to_string(),
        namespace: "default".to_string(),
        user_id: "u1".to_string(),
        user_name: "Ann".to_string(),
        business_id: "order_1".to_string(),
        timeout,
        locked_at: Timestamp::new(last_secs, last_nanos),
        last_heartbeat: Timestamp::new(last_secs, last_nanos),
    }
}

fn request() -> AcquireLockRequest {
    AcquireLockRequest {
        namespace: default_namespace(),
        user_id: "u1".to_string(),
        user_name: "Ann".to_string(),
        business_id: "order_1".to_string(),
        timeout: 60,
    }
}

#[test]
fn default_namespace_is_default() {
    assert_eq!(default_namespace(), "default");
}

#[test]
fn lock_key_joins_namespace_and_business_id() {
    assert_eq!(record(0, 0, 60).get_lock_key(), "default:order_1");
    let mut r = record(0, 0, 60);
    r.namespace = "".to_string();
    r.business_id = "a:b".to_string();
    assert_eq!(r.get_lock_key(), ":a:b");
}

#[test]
fn expires_exactly_when_timeout_is_reached() {
    let r = record(1_000, 500_000_000, 60);
    assert!(!r.is_expired_at(Timestamp::new(1_000, 500_000_000)));
    assert!(!r.is_expired_at(Timestamp::new(1_059, 999_999_999)));
    assert!(!r.is_expired_at(Timestamp::new(1_060, 499_999_999)));
    assert!(r.is_expired_at(Timestamp::new(1_060, 500_000_000)));
    assert!(r.is_expired_at(Timestamp::new(1_061, 0)));
}

#[test]
fn elapsed_time_is_truncated_not_rounded() {
    let r = record(10, 0, 1);
    assert!(!r.is_expired_at(Timestamp::new(10, 999_999_999)));
    assert!(r.is_expired_at(Timestamp::new(11, 0)));
}

#[test]
fn zero_timeout_is_expired_at_once() {
    let r = record(10, 0, 0);
    assert!(r.is_expired_at(Timestamp::new(10, 0)));
    assert!(r.is_expired_at(Timestamp::new(9, 500_000_000)));
}

#[test]
fn a_clock_behind_the_heartbeat_does_not_expire_a_record() {
    let r = record(10, 0, 5);
    assert!(!r.is_expired_at(Timestamp::new(2, 0)));
    let z = record(10, 0, 0);
    assert!(!z.is_expired_at(Timestamp::new(9, 0)));
    assert!(!z.is_expired_at(Timestamp::new(-5, 0)));
}

#[test]
fn expiry_survives_the_extremes_of_the_time_line() {
    let r = record(i64::MIN, 0, u64::MAX);
    assert!(r.is_expired_at(Timestamp::new(i64::MAX, 0)));
    assert!(!r.is_expired_at(Timestamp::new(i64::MAX - 1, 999_999_999)));
    let s = record(i64::MIN, 0, 1u64 << 63);
    assert!(s.is_expired_at(Timestamp::new(i64::MAX, 999_999_999)));
    let t = record(i64::MAX, 0, 0);
    assert!(!t.is_expired_at(Timestamp::new(i64::MIN, 0)));
}

#[test]
fn at_least_seconds_after_counts_whole_seconds() {
    let early = Timestamp::new(100, 900_000_000);
    assert!(Timestamp::new(103, 0).at_least_seconds_after(early, 2));
    assert!(!Timestamp::new(103, 0).at_least_seconds_after(early, 3));
    assert!(Timestamp::new(103, 900_000_000).at_least_seconds_after(early, 3));
}

#[test]
fn candidate_takes_the_request_over() {
    let c = LockInfo::with_id_at(&request(), "id-7".to_string(), Timestamp::new(42, 7));
    assert_eq!(c.lock_id, "id-7");
    assert_eq!(c.namespace, "default");
    assert_eq!(c.user_id, "u1");
    assert_eq!(c.user_name, "Ann");
    assert_eq!(c.business_id, "order_1");
    assert_eq!(c.timeout, 60);
    assert_eq!(c.locked_at, Timestamp::new(42, 7));
    assert_eq!(c.last_heartbeat, Timestamp::new(42, 7));
}

#[test]
fn new_candidates_get_fresh_ids_and_the_present_time() {
    let a = LockInfo::new(&request());
    let b = LockInfo::new(&request());
    assert_ne!(a.lock_id, b.lock_id);
    assert_eq!(a.lock_id.len(), 36);
    assert_eq!(a.locked_at, a.last_heartbeat);
    assert!(a.locked_at.secs > 1_600_000_000);
    assert_eq!(a.user_id, "u1");
    assert_eq!(a.timeout, 60);
    assert!(!a.is_expired());
}

#[test]
fn is_expired_reads_the_clock() {
    assert!(record(0, 0, 60).is_expired());
    assert!(!record(0, 0, u64::MAX).is_expired());
}

#[test]
fn clone_keeps_every_field() {
    let r = record(5, 6, 7);
    let c = r.clone();
    assert_eq!(c.lock_id, r.lock_id);
    assert_eq!(c.namespace, r.namespace);
    assert_eq!(c.user_id, r.user_id);
    assert_eq!(c.user_name, r.user_name);
    assert_eq!(c.business_id, r.business_id);
    assert_eq!(c.timeout, 7);
    assert_eq!(c.locked_at, Timestamp::new(5, 6));
    assert_eq!(c.last_heartbeat, Timestamp::new(5, 6));
}

#[test]
fn success_response_carries_the_data() {
    let r = ApiResponse::success(17u32);
    assert_eq!(r.code, 0);
    assert_eq!(r.message, "success");
    assert_eq!(r.data, Some(17));
    assert!(r.success);
}

#[test]
fn error_response_carries_code_and_message() {
    let r: ApiResponse<u32> = ApiResponse::error(1001, "held".to_string());
    assert_eq!(r.code, 1001);
    assert_eq!(r.message, "held");
    assert_eq!(r.data, None);
    assert!(!r.success);
}
