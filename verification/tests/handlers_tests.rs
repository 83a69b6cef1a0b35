use fe_lock_service::clock::Timestamp;
use fe_lock_service::handlers::{
    acquire_failure, acquire_lock, acquire_lock_at, acquire_outcome, acquire_response, error_text, heartbeat,
    heartbeat_at, heartbeat_response, release_lock, release_lock_local, release_response,
    serve_acquire, AcquireOutcome,
};
use fe_lock_service::storage::LockStorage;
use fe_lock_service::storage::StorageError;
use fe_lock_service::models::{AcquireLockRequest, HeartbeatRequest, LockInfo, ReleaseLockRequest};
use fe_lock_service::storage::memory::MemoryStorage;

fn req(biz: &str, owner: &str, timeout: u64) -> AcquireLockRequest {
    AcquireLockRequest {
        namespace: "default".to_string(),
        user_id: owner.to_string(),
        user_name: format!("Name of {}", owner),
        business_id: biz.to_string(),
        timeout,
    }
}

fn held(id: &str, name: &str) -> LockInfo {
    LockInfo {
        lock_id: id.to_string(),
        namespace: "default".to_string(),
        user_id: "u".to_string(),
        user_name: name.to_string(),
        business_id: "order_1".to_string(),
        timeout: 60,
        locked_at: Timestamp::new(1, 0),
        last_heartbeat: Timestamp::new(1, 0),
    }
}

#[test]
fn acquire_then_contend_reports_the_holder() {
    let mut s = MemoryStorage::new();
    let first = acquire_lock(&mut s, &req("order_1", "u1", 60));
    assert!(first.success);
    assert_eq!(first.code, 0);
    let l1 = first.data.unwrap().lock_id;
    assert_eq!(l1.len(), 36);
    let second = acquire_lock(&mut s, &req("order_1", "u2", 60));
    assert!(!second.success);
    assert_eq!(second.code, 1001);
    assert_eq!(second.message, "Lock already held by Name of u1");
    assert!(second.data.is_none());
}

#[test]
fn reacquire_by_the_holder_returns_the_same_id() {
    let mut s = MemoryStorage::new();
    let l1 = acquire_lock(&mut s, &req("order_1", "u1", 60)).data.unwrap().lock_id;
    let again = acquire_lock(&mut s, &req("order_1", "u1", 60));
    assert!(again.success);
    assert_eq!(again.data.unwrap().lock_id, l1);
}

#[test]
fn acquire_after_expiry_returns_a_new_id() {
    let mut s = MemoryStorage::new();
    let l1 = acquire_lock(&mut s, &req("order_1", "u1", 0)).data.unwrap().lock_id;
    let next = acquire_lock(&mut s, &req("order_1", "u2", 60));
    assert!(next.success);
    assert_ne!(next.data.unwrap().lock_id, l1);
    let hb = heartbeat(&mut s, &HeartbeatRequest { lock_id: l1 });
    assert_eq!(hb.code, 2001);
}

#[test]
fn heartbeat_and_release_through_the_service() {
    let mut s = MemoryStorage::new();
    let l1 = acquire_lock(&mut s, &req("order_1", "u1", 60)).data.unwrap().lock_id;
    let hb = heartbeat(&mut s, &HeartbeatRequest { lock_id: l1.clone() });
    assert!(hb.success);
    assert_eq!(hb.code, 0);
    assert!(hb.data.unwrap().updated);
    let rel = release_lock(&mut s, &ReleaseLockRequest { lock_id: l1.clone() });
    assert!(rel.success);
    assert!(rel.data.unwrap().released);
    let hb2 = heartbeat(&mut s, &HeartbeatRequest { lock_id: l1.clone() });
    assert!(!hb2.success);
    assert_eq!(hb2.code, 2001);
    assert_eq!(hb2.message, "Lock not found or expired");
    let rel2 = release_lock(&mut s, &ReleaseLockRequest { lock_id: l1 });
    assert!(!rel2.success);
    assert_eq!(rel2.code, 3001);
    assert_eq!(rel2.message, "Lock not found or not owned");
}

#[test]
fn acquire_answers_by_outcome() {
    let c = held("cand", "me");
    let r = acquire_response(c.clone(), AcquireOutcome::Granted { current: Some(held("kept", "me")) });
    assert_eq!(r.code, 0);
    assert_eq!(r.message, "success");
    assert_eq!(r.data.unwrap().lock_id, "kept");
    let r = acquire_response(c.clone(), AcquireOutcome::Granted { current: None });
    assert_eq!(r.data.unwrap().lock_id, "cand");
    let r = acquire_response(c.clone(), AcquireOutcome::Denied { current: Some(held("x", "Zoe")) });
    assert_eq!(r.code, 1001);
    assert_eq!(r.message, "Lock already held by Zoe");
    assert!(!r.success);
    let r = acquire_response(c.clone(), AcquireOutcome::Denied { current: None });
    assert_eq!(r.code, 1002);
    assert_eq!(r.message, "Lock acquisition failed");
    let r = acquire_response(c.clone(), AcquireOutcome::DeniedUnknown { error: "down".to_string() });
    assert_eq!(r.code, 1003);
    assert_eq!(r.message, "Failed to get lock info: down");
    let r = acquire_response(c, AcquireOutcome::Failed { error: "down".to_string() });
    assert_eq!(r.code, 1004);
    assert_eq!(r.message, "Failed to acquire lock: down");
    assert!(r.data.is_none());
}

#[test]
fn heartbeat_answers_by_result() {
    let ok = heartbeat_response(Ok(true));
    assert!(ok.success);
    assert_eq!(ok.code, 0);
    assert_eq!(ok.message, "success");
    assert!(ok.data.unwrap().updated);
    let missing = heartbeat_response(Ok(false));
    assert_eq!(missing.code, 2001);
    assert_eq!(missing.message, "Lock not found or expired");
    assert!(missing.data.is_none());
    let failed = heartbeat_response(Err("timeout".to_string()));
    assert_eq!(failed.code, 2002);
    assert_eq!(failed.message, "Failed to update heartbeat: timeout");
    assert!(!failed.success);
}

#[test]
fn release_answers_by_result() {
    let ok = release_response(Ok(true));
    assert!(ok.success);
    assert_eq!(ok.code, 0);
    assert!(ok.data.unwrap().released);
    let missing = release_response(Ok(false));
    assert_eq!(missing.code, 3001);
    assert_eq!(missing.message, "Lock not found or not owned");
    let failed = release_response(Err("timeout".to_string()));
    assert_eq!(failed.code, 3002);
    assert_eq!(failed.message, "Failed to release lock: timeout");
    assert!(failed.data.is_none());
}

#[test]
fn backend_failure_gives_its_text() {
    assert_eq!(error_text(StorageError::Backend("connection refused".to_string())), "connection refused");
}

#[test]
fn release_through_the_service_is_safe_to_repeat() {
    let mut s = MemoryStorage::new();
    let unknown = release_lock(&mut s, &ReleaseLockRequest { lock_id: "nobody".to_string() });
    assert_eq!(unknown.code, 3001);
    let l1 = acquire_lock(&mut s, &req("order_1", "u1", 60)).data.unwrap().lock_id;
    assert!(release_lock(&mut s, &ReleaseLockRequest { lock_id: l1.clone() }).success);
    assert_eq!(release_lock(&mut s, &ReleaseLockRequest { lock_id: l1.clone() }).code, 3001);
    assert_eq!(release_lock(&mut s, &ReleaseLockRequest { lock_id: l1 }).code, 3001);
    let next = acquire_lock(&mut s, &req("order_1", "u2", 60));
    assert!(next.success);
}

fn alice(timeout: u64) -> AcquireLockRequest {
    AcquireLockRequest {
        namespace: "default".to_string(),
        user_id: "u1".to_string(),
        user_name: "Alice".to_string(),
        business_id: "order_1".to_string(),
        timeout,
    }
}

fn bob(timeout: u64) -> AcquireLockRequest {
    AcquireLockRequest {
        namespace: "default".to_string(),
        user_id: "u2".to_string(),
        user_name: "Bob".to_string(),
        business_id: "order_1".to_string(),
        timeout,
    }
}

#[test]
fn first_acquire_at_stores_and_reports_the_given_id() {
    let mut s = MemoryStorage::new();
    let r = acquire_lock_at(&mut s, &alice(60), "L1".to_string(), Timestamp::new(100, 0));
    assert_eq!(r.code, 0);
    assert_eq!(r.message, "success");
    assert!(r.success);
    assert_eq!(r.data.unwrap().lock_id, "L1");
    let held = s.get_lock(&"default:order_1".to_string()).unwrap().unwrap();
    assert_eq!(held.lock_id, "L1");
    assert_eq!(held.user_id, "u1");
    assert_eq!(held.timeout, 60);
}

#[test]
fn second_owner_at_is_refused_with_the_holder_named() {
    let mut s = MemoryStorage::new();
    assert!(acquire_lock_at(&mut s, &alice(60), "L1".to_string(), Timestamp::new(100, 0)).success);
    let r = acquire_lock_at(&mut s, &bob(60), "L2".to_string(), Timestamp::new(159, 0));
    assert!(!r.success);
    assert_eq!(r.code, 1001);
    assert!(r.data.is_none());
    assert_eq!(r.message, "Lock already held by Alice");
    assert_eq!(s.get_lock(&"default:order_1".to_string()).unwrap().unwrap().user_id, "u1");
}

#[test]
fn acquire_at_after_expiry_is_granted_under_the_new_id() {
    let mut s = MemoryStorage::new();
    assert_eq!(acquire_lock_at(&mut s, &alice(1), "L1".to_string(), Timestamp::new(100, 0)).data.unwrap().lock_id, "L1");
    let r = acquire_lock_at(&mut s, &bob(60), "L2".to_string(), Timestamp::new(102, 0));
    assert!(r.success);
    assert_eq!(r.code, 0);
    assert_eq!(r.data.unwrap().lock_id, "L2");
    assert!(!heartbeat_at(&mut s, &HeartbeatRequest { lock_id: "L1".to_string() }, Timestamp::new(103, 0)).success);
}

#[test]
fn reentrant_acquire_at_reports_the_id_held_before() {
    let mut s = MemoryStorage::new();
    assert!(acquire_lock_at(&mut s, &alice(60), "L1".to_string(), Timestamp::new(100, 0)).success);
    let r = acquire_lock_at(&mut s, &alice(60), "L2".to_string(), Timestamp::new(105, 0));
    assert!(r.success);
    assert_eq!(r.data.unwrap().lock_id, "L1");
    assert_eq!(s.update_heartbeat(&"L2".to_string()).unwrap(), false);
    let held = s.get_lock(&"default:order_1".to_string()).unwrap().unwrap();
    assert_eq!(held.last_heartbeat, Timestamp::new(105, 0));
    assert_eq!(held.locked_at, Timestamp::new(100, 0));
}

#[test]
fn heartbeat_at_and_local_release_answer_by_the_store() {
    let mut s = MemoryStorage::new();
    assert!(acquire_lock_at(&mut s, &alice(60), "L1".to_string(), Timestamp::new(100, 0)).success);
    let hb = heartbeat_at(&mut s, &HeartbeatRequest { lock_id: "L1".to_string() }, Timestamp::new(110, 0));
    assert!(hb.success);
    assert!(hb.data.unwrap().updated);
    assert_eq!(s.get_lock(&"default:order_1".to_string()).unwrap().unwrap().last_heartbeat, Timestamp::new(110, 0));
    let miss = heartbeat_at(&mut s, &HeartbeatRequest { lock_id: "L9".to_string() }, Timestamp::new(110, 0));
    assert_eq!(miss.code, 2001);
    assert_eq!(miss.message, "Lock not found or expired");
    let rel = release_lock_local(&mut s, &ReleaseLockRequest { lock_id: "L1".to_string() });
    assert!(rel.success);
    assert!(rel.data.unwrap().released);
    let again = release_lock_local(&mut s, &ReleaseLockRequest { lock_id: "L1".to_string() });
    assert_eq!(again.code, 3001);
    assert_eq!(again.message, "Lock not found or not owned");
    assert!(s.get_lock(&"default:order_1".to_string()).unwrap().is_none());
}

#[test]
fn outcome_follows_the_two_answers_of_the_store() {
    match acquire_outcome(true, Ok(Some(held("kept", "me")))) {
        AcquireOutcome::Granted { current } => assert_eq!(current.unwrap().lock_id, "kept"),
        other => panic!("unexpected outcome {:?}", other),
    }
    assert!(matches!(acquire_outcome(true, Ok(None)), AcquireOutcome::Granted { current: None }));
    assert!(matches!(
        acquire_outcome(true, Err(StorageError::Backend("down".to_string()))),
        AcquireOutcome::Granted { current: None }
    ));
    match acquire_outcome(false, Ok(Some(held("x", "Zoe")))) {
        AcquireOutcome::Denied { current } => assert_eq!(current.unwrap().user_name, "Zoe"),
        other => panic!("unexpected outcome {:?}", other),
    }
    assert!(matches!(acquire_outcome(false, Ok(None)), AcquireOutcome::Denied { current: None }));
    match acquire_outcome(false, Err(StorageError::Backend("down".to_string()))) {
        AcquireOutcome::DeniedUnknown { error } => assert_eq!(error, "down"),
        other => panic!("unexpected outcome {:?}", other),
    }
}

#[test]
fn serve_acquire_reports_the_stored_id_on_reentry() {
    let mut s = MemoryStorage::new();
    let mut first = held("L1", "Ann");
    first.timeout = u64::MAX;
    let mut second = held("L2", "Ann");
    second.timeout = u64::MAX;
    assert_eq!(serve_acquire(&mut s, first).data.unwrap().lock_id, "L1");
    assert_eq!(serve_acquire(&mut s, second).data.unwrap().lock_id, "L1");
    let mut other = held("L3", "Zed");
    other.user_id = "z".to_string();
    let r = serve_acquire(&mut s, other);
    assert_eq!(r.code, 1001);
    assert_eq!(r.message, "Lock already held by Ann");
}

#[test]
fn failed_attempt_becomes_the_failed_outcome() {
    match acquire_failure(StorageError::Backend("unreachable".to_string())) {
        AcquireOutcome::Failed { error } => assert_eq!(error, "unreachable"),
        other => panic!("unexpected outcome {:?}", other),
    }
    let r = acquire_response(held("c", "me"), acquire_failure(StorageError::Backend("unreachable".to_string())));
    assert_eq!(r.code, 1004);
    assert_eq!(r.message, "Failed to acquire lock: unreachable");
}
