use fe_lock_service::clock::Timestamp;
use fe_lock_service::models::LockInfo;
use fe_lock_service::storage::memory::MemoryStorage;
use fe_lock_service::storage::LockStorage;

fn t(secs: i64) -> Timestamp {
    Timestamp::new(secs, 0)
}

fn cand(id: &str, biz: &str, owner: &str, timeout: u64, at: i64) -> LockInfo {
    LockInfo {
        lock_id: id.to_string(),
        namespace: "default".to_string(),
        user_id: owner.to_string(),
        user_name: format!("name-{}", owner),
        business_id: biz.to_string(),
        timeout,
        locked_at: t(at),
        last_heartbeat: t(at),
    }
}

fn key(biz: &str) -> String {
    format!("default:{}", biz)
}

fn current(s: &MemoryStorage, biz: &str) -> Option<LockInfo> {
    s.get_lock(&key(biz)).unwrap()
}

fn snapshot_ids(s: &MemoryStorage) -> Vec<String> {
    let mut ids: Vec<String> = match s.persist_to_disk() {
        Some((_, records)) => records.into_iter().map(|r| r.lock_id).collect(),
        None => Vec::new(),
    };
    ids.sort();
    ids
}

#[test]
fn new_store_is_empty() {
    let s = MemoryStorage::new();
    assert!(current(&s, "order_1").is_none());
    assert!(s.persist_to_disk().is_none());
    assert_eq!(s.persist_path(), None);
    assert_eq!(MemoryStorage::with_persistence("a/b.json".to_string()).persist_path(), Some("a/b.json".to_string()));
    let p = MemoryStorage::with_persistence("./data/locks.json".to_string());
    let (path, records) = p.persist_to_disk().unwrap();
    assert_eq!(path, "./data/locks.json");
    assert!(records.is_empty());
}

#[test]
fn second_owner_is_refused_while_first_holds() {
    let mut s = MemoryStorage::new();
    assert!(s.try_acquire_at(cand("L1", "order_1", "u1", 60, 100), t(100)));
    assert!(!s.try_acquire_at(cand("L2", "order_1", "u2", 60, 110), t(110)));
    let held = current(&s, "order_1").unwrap();
    assert_eq!(held.lock_id, "L1");
    assert_eq!(held.user_id, "u1");
    assert_eq!(held.user_name, "name-u1");
    assert_eq!(held.last_heartbeat, t(100));
    assert!(!s.update_heartbeat_at(&"L2".to_string(), t(111)));
    assert!(s.update_heartbeat_at(&"L1".to_string(), t(111)));
}

#[test]
fn expired_lock_is_taken_over_under_a_new_id() {
    let mut s = MemoryStorage::new();
    assert!(s.try_acquire_at(cand("L1", "order_1", "u1", 1, 100), t(100)));
    assert!(s.try_acquire_at(cand("L2", "order_1", "u2", 60, 102), t(102)));
    let held = current(&s, "order_1").unwrap();
    assert_eq!(held.lock_id, "L2");
    assert_ne!(held.lock_id, "L1");
    assert_eq!(held.user_id, "u2");
    assert_eq!(held.timeout, 60);
    assert_eq!(held.locked_at, t(102));
}

#[test]
fn same_owner_keeps_its_id_and_refreshes_the_heartbeat() {
    let mut s = MemoryStorage::new();
    assert!(s.try_acquire_at(cand("L1", "order_1", "u1", 60, 100), t(100)));
    assert!(s.try_acquire_at(cand("L9", "order_1", "u1", 30, 130), t(130)));
    let held = current(&s, "order_1").unwrap();
    assert_eq!(held.lock_id, "L1");
    assert_eq!(held.locked_at, t(100));
    assert_eq!(held.last_heartbeat, t(130));
    assert_eq!(held.timeout, 60);
    assert!(!s.update_heartbeat_at(&"L9".to_string(), t(131)));
    assert!(s.update_heartbeat_at(&"L1".to_string(), t(131)));
}

#[test]
fn heartbeat_after_release_finds_nothing() {
    let mut s = MemoryStorage::new();
    let id = "L1".to_string();
    assert!(s.try_acquire_at(cand("L1", "order_1", "u1", 60, 100), t(100)));
    assert_eq!(s.release(&id).unwrap(), true);
    assert!(!s.update_heartbeat_at(&id, t(101)));
    assert_eq!(s.update_heartbeat(&id).unwrap(), false);
    assert!(current(&s, "order_1").is_none());
}

#[test]
fn restore_keeps_only_live_records() {
    let mut s = MemoryStorage::with_persistence("locks.json".to_string());
    assert!(s.try_acquire_at(cand("L1", "live", "u1", 60, 100), t(100)));
    assert!(s.try_acquire_at(cand("L2", "dead", "u2", 5, 100), t(100)));
    let (path, records) = s.persist_to_disk().unwrap();
    assert_eq!(path, "locks.json");
    assert_eq!(records.len(), 2);
    let mut fresh = MemoryStorage::with_persistence("locks.json".to_string());
    assert_eq!(fresh.load_from_disk_at(Some(records), t(110)), 1);
    let live = current(&fresh, "live").unwrap();
    assert_eq!(live.lock_id, "L1");
    assert_eq!(live.user_id, "u1");
    assert_eq!(live.last_heartbeat, t(100));
    assert!(current(&fresh, "dead").is_none());
    assert!(fresh.update_heartbeat_at(&"L1".to_string(), t(111)));
    assert!(!fresh.update_heartbeat_at(&"L2".to_string(), t(111)));
    assert_eq!(snapshot_ids(&fresh), vec!["L1".to_string()]);
}

#[test]
fn snapshot_round_trip_of_a_mixed_set() {
    let mut s = MemoryStorage::with_persistence("p".to_string());
    assert!(s.try_acquire_at(cand("A", "a", "u1", 10, 0), t(0)));
    assert!(s.try_acquire_at(cand("B", "b", "u2", 20, 0), t(0)));
    assert!(s.try_acquire_at(cand("C", "c", "u3", 30, 0), t(0)));
    assert!(s.try_acquire_at(cand("D", "d", "u4", 40, 0), t(0)));
    assert_eq!(snapshot_ids(&s), vec!["A".to_string(), "B".to_string(), "C".to_string(), "D".to_string()]);
    let (_, records) = s.persist_to_disk().unwrap();
    let mut fresh = MemoryStorage::with_persistence("p".to_string());
    assert_eq!(fresh.load_from_disk_at(Some(records), t(20)), 2);
    assert_eq!(snapshot_ids(&fresh), vec!["C".to_string(), "D".to_string()]);
    assert!(current(&fresh, "a").is_none());
    assert!(current(&fresh, "b").is_none());
    assert_eq!(current(&fresh, "c").unwrap().timeout, 30);
    assert_eq!(current(&fresh, "d").unwrap().user_id, "u4");
}

#[test]
fn restore_without_a_snapshot_or_a_path_loads_nothing() {
    let mut with_path = MemoryStorage::with_persistence("p".to_string());
    assert_eq!(with_path.load_from_disk_at(None, t(0)), 0);
    assert_eq!(with_path.load_from_disk(None), 0);
    let mut without = MemoryStorage::new();
    assert_eq!(without.load_from_disk_at(Some(vec![cand("A", "a", "u1", 10, 0)]), t(0)), 0);
    assert!(current(&without, "a").is_none());
    assert_eq!(with_path.load_from_disk(Some(vec![cand("A", "a", "u1", u64::MAX, 0), cand("B", "b", "u1", 1, 0)])), 1);
    assert!(current(&with_path, "a").is_some());
    assert!(current(&with_path, "b").is_none());
}

#[test]
fn lock_becomes_acquirable_at_the_timeout_and_not_before() {
    let mut s = MemoryStorage::new();
    assert!(s.try_acquire_at(cand("L1", "order_1", "u1", 10, 100), t(100)));
    assert!(s.update_heartbeat_at(&"L1".to_string(), Timestamp::new(100, 250)));
    assert_eq!(current(&s, "order_1").unwrap().last_heartbeat, Timestamp::new(100, 250));
    assert!(!s.try_acquire_at(cand("L2", "order_1", "u2", 10, 109), Timestamp::new(110, 249)));
    assert_eq!(current(&s, "order_1").unwrap().lock_id, "L1");
    assert!(s.try_acquire_at(cand("L3", "order_1", "u2", 10, 110), Timestamp::new(110, 250)));
    assert_eq!(current(&s, "order_1").unwrap().lock_id, "L3");
}

#[test]
fn refused_acquire_changes_nothing() {
    let mut s = MemoryStorage::with_persistence("p".to_string());
    assert!(s.try_acquire_at(cand("L1", "order_1", "u1", 60, 100), t(100)));
    assert!(!s.try_acquire_at(cand("L2", "order_1", "u2", 5, 120), t(120)));
    let held = current(&s, "order_1").unwrap();
    assert_eq!(held.lock_id, "L1");
    assert_eq!(held.user_id, "u1");
    assert_eq!(held.timeout, 60);
    assert_eq!(held.locked_at, t(100));
    assert_eq!(held.last_heartbeat, t(100));
    assert_eq!(snapshot_ids(&s), vec!["L1".to_string()]);
    assert_eq!(s.release(&"L2".to_string()).unwrap(), false);
    assert_eq!(s.release(&"L1".to_string()).unwrap(), true);
}

#[test]
fn release_of_unknown_or_released_id_is_not_found() {
    let mut s = MemoryStorage::new();
    assert_eq!(s.release(&"nobody".to_string()).unwrap(), false);
    assert!(s.try_acquire_at(cand("L1", "order_1", "u1", 60, 100), t(100)));
    assert_eq!(s.release(&"L1".to_string()).unwrap(), true);
    assert_eq!(s.release(&"L1".to_string()).unwrap(), false);
    assert_eq!(s.release(&"L1".to_string()).unwrap(), false);
    assert!(s.try_acquire_at(cand("L2", "order_1", "u2", 60, 101), t(101)));
    assert_eq!(current(&s, "order_1").unwrap().lock_id, "L2");
}

#[test]
fn heartbeat_after_takeover_finds_nothing() {
    let mut s = MemoryStorage::new();
    assert!(s.try_acquire_at(cand("LA", "order_1", "a", 5, 100), t(100)));
    assert!(s.try_acquire_at(cand("LB", "order_1", "b", 60, 105), t(105)));
    assert!(!s.update_heartbeat_at(&"LA".to_string(), t(106)));
    assert_eq!(s.release(&"LA".to_string()).unwrap(), false);
    let held = current(&s, "order_1").unwrap();
    assert_eq!(held.lock_id, "LB");
    assert_eq!(held.last_heartbeat, t(105));
    assert!(s.update_heartbeat_at(&"LB".to_string(), t(107)));
    assert_eq!(current(&s, "order_1").unwrap().last_heartbeat, t(107));
}

#[test]
fn one_holder_per_key_through_a_run_of_operations() {
    let mut s = MemoryStorage::with_persistence("p".to_string());
    assert!(s.try_acquire_at(cand("1", "k", "a", 10, 0), t(0)));
    assert!(!s.try_acquire_at(cand("2", "k", "b", 10, 1), t(1)));
    assert!(s.update_heartbeat_at(&"1".to_string(), t(5)));
    assert!(!s.try_acquire_at(cand("3", "k", "b", 10, 14), t(14)));
    assert!(s.try_acquire_at(cand("4", "k", "b", 10, 15), t(15)));
    assert!(!s.try_acquire_at(cand("5", "k", "a", 10, 16), t(16)));
    assert_eq!(s.release(&"1".to_string()).unwrap(), false);
    assert_eq!(snapshot_ids(&s), vec!["4".to_string()]);
    assert_eq!(s.release(&"4".to_string()).unwrap(), true);
    assert!(s.try_acquire_at(cand("6", "k", "a", 10, 17), t(17)));
    assert_eq!(snapshot_ids(&s), vec!["6".to_string()]);
    assert_eq!(current(&s, "k").unwrap().user_id, "a");
}

#[test]
fn keys_do_not_contend_with_each_other() {
    let mut s = MemoryStorage::new();
    assert!(s.try_acquire_at(cand("1", "k1", "a", 10, 0), t(0)));
    assert!(s.try_acquire_at(cand("2", "k2", "b", 10, 0), t(0)));
    let mut other = cand("3", "k1", "c", 10, 0);
    other.namespace = "other".to_string();
    assert!(s.try_acquire_at(other, t(0)));
    assert_eq!(s.get_lock(&"other:k1".to_string()).unwrap().unwrap().user_id, "c");
    assert_eq!(current(&s, "k1").unwrap().user_id, "a");
    assert_eq!(current(&s, "k2").unwrap().user_id, "b");
}

#[test]
fn get_lock_shows_expired_records_too() {
    let mut s = MemoryStorage::new();
    assert!(s.try_acquire_at(cand("1", "k", "a", 1, 0), t(0)));
    let held = current(&s, "k").unwrap();
    assert!(held.is_expired_at(t(100)));
    assert_eq!(held.lock_id, "1");
}

#[test]
fn sweep_removes_expired_records_and_their_ids() {
    let mut s = MemoryStorage::with_persistence("p".to_string());
    assert!(s.try_acquire_at(cand("1", "a", "u", 10, 0), t(0)));
    assert!(s.try_acquire_at(cand("2", "b", "u", 20, 0), t(0)));
    assert!(s.try_acquire_at(cand("3", "c", "u", 30, 0), t(0)));
    assert_eq!(s.cleanup_expired_at(t(9)), 0);
    assert_eq!(snapshot_ids(&s), vec!["1".to_string(), "2".to_string(), "3".to_string()]);
    assert_eq!(s.cleanup_expired_at(t(20)), 2);
    assert_eq!(s.cleanup_expired_at(t(20)), 0);
    assert_eq!(snapshot_ids(&s), vec!["3".to_string()]);
    assert!(current(&s, "a").is_none());
    assert!(current(&s, "b").is_none());
    assert!(!s.update_heartbeat_at(&"1".to_string(), t(21)));
    assert!(!s.update_heartbeat_at(&"2".to_string(), t(21)));
    assert!(s.update_heartbeat_at(&"3".to_string(), t(21)));
    assert_eq!(s.release(&"2".to_string()).unwrap(), false);
}

#[test]
fn sweep_by_the_clock_keeps_live_records() {
    let mut s = MemoryStorage::with_persistence("p".to_string());
    assert!(s.try_acquire_at(cand("old", "a", "u", 10, 0), t(0)));
    assert!(s.try_acquire_at(cand("new", "b", "u", u64::MAX, 0), t(0)));
    assert!(s.cleanup_expired().is_ok());
    assert_eq!(snapshot_ids(&s), vec!["new".to_string()]);
}

#[test]
fn operations_by_the_clock() {
    let mut s = MemoryStorage::new();
    assert_eq!(s.try_acquire(cand("1", "k", "a", u64::MAX, 0)).unwrap(), true);
    assert_eq!(s.try_acquire(cand("2", "k", "b", 3600, 0)).unwrap(), false);
    assert_eq!(s.try_acquire(cand("3", "k", "a", 3600, 0)).unwrap(), true);
    let held = current(&s, "k").unwrap();
    assert_eq!(held.lock_id, "1");
    assert!(held.last_heartbeat.secs > 1_600_000_000);
    assert_eq!(s.update_heartbeat(&"1".to_string()).unwrap(), true);
    assert_eq!(s.update_heartbeat(&"3".to_string()).unwrap(), false);
    assert_eq!(s.release(&"1".to_string()).unwrap(), true);
}

#[test]
fn stale_id_of_a_restored_duplicate_is_dropped_on_release() {
    let mut s = MemoryStorage::with_persistence("p".to_string());
    let data = vec![cand("old", "k", "a", 100, 0), cand("new", "k", "b", 100, 0)];
    assert_eq!(s.load_from_disk_at(Some(data), t(1)), 2);
    assert_eq!(current(&s, "k").unwrap().lock_id, "new");
    assert!(!s.update_heartbeat_at(&"old".to_string(), t(2)));
    assert_eq!(s.release(&"old".to_string()).unwrap(), false);
    assert_eq!(current(&s, "k").unwrap().lock_id, "new");
    assert_eq!(current(&s, "k").unwrap().user_id, "b");
    assert_eq!(s.release(&"new".to_string()).unwrap(), true);
    assert!(current(&s, "k").is_none());
}
