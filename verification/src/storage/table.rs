//! The two concurrent hash maps of the in-process store, as seen by the
//! verified code: what each holds, and what each call does to it.
//!
//! `dashmap::DashMap` changes through a shared reference. The calls below that
//! change a map take it by `&mut` instead, so that the verifier sees the map
//! before and after; what is stated here is what one caller alone observes.

use vstd::prelude::*;
use dashmap::DashMap;
use crate::models::{LockInfo, LockRecord};

verus! {

/// `dashmap::DashMap`, held as a value that only the calls below look into.
#[verifier::external_type_specification]
#[verifier::external_body]
#[verifier::reject_recursive_types(K)]
#[verifier::reject_recursive_types(V)]
#[verifier::reject_recursive_types(S)]
pub struct ExDashMap<K, V, S>(DashMap<K, V, S>);

/// The entries of a forward table: for each lock key, the record stored there.
pub uninterp spec fn lock_entries(table: DashMap<String, LockInfo>) -> Map<Seq<char>, LockRecord>;

/// The entries of a reverse index: for each lock id, the lock key stored there.
pub uninterp spec fn id_entries(index: DashMap<String, String>) -> Map<Seq<char>, Seq<char>>;

/// `DashMap::new`: a forward table without entries.
#[verifier::external_body]
pub(crate) fn lock_table_new() -> (table: DashMap<String, LockInfo>)
    ensures
        lock_entries(table) =~= Map::empty(),
{
    DashMap::new()
}

/// `DashMap::get`, with the value cloned out of the guard: the record stored
/// under `key`, if there is one.
#[verifier::external_body]
pub(crate) fn lock_table_get(table: &DashMap<String, LockInfo>, key: &String) -> (found: Option<LockInfo>)
    ensures
        found.is_some() == lock_entries(*table).contains_key(key@),
        found.is_some() ==> found.unwrap()@ == lock_entries(*table)[key@],
{
    table.get(key).map(|entry| entry.value().clone())
}

/// `DashMap::insert`: afterwards `key` holds `value`, whatever it held
/// before, and every other key holds what it held.
#[verifier::external_body]
pub(crate) fn lock_table_insert(table: &mut DashMap<String, LockInfo>, key: String, value: LockInfo)
    ensures
        lock_entries(*final(table)) == lock_entries(*old(table)).insert(key@, value@),
{
    table.insert(key, value);
}

/// `DashMap::remove`: the record that `key` held, if it held one, leaves the
/// table and is handed back; every other key holds what it held.
#[verifier::external_body]
pub(crate) fn lock_table_remove(table: &mut DashMap<String, LockInfo>, key: &String) -> (removed: Option<LockInfo>)
    ensures
        lock_entries(*final(table)) == lock_entries(*old(table)).remove(key@),
        removed.is_some() == lock_entries(*old(table)).contains_key(key@),
        removed.is_some() ==> removed.unwrap()@ == lock_entries(*old(table))[key@],
{
    table.remove(key).map(|pair| pair.1)
}

/// `DashMap::iter`, each entry cloned out as a pair of key and record. The
/// walk visits every entry once, in an order that is not stated: each pair
/// is an entry of the table, each key of the table is met, and no key twice.
#[verifier::external_body]
pub(crate) fn lock_table_entries(table: &DashMap<String, LockInfo>) -> (pairs: Vec<(String, LockInfo)>)
    ensures
        forall|i: int| 0 <= i < pairs.len() ==> lock_entries(*table).contains_pair(
            (#[trigger] pairs[i]).0@,
            pairs[i].1@,
        ),
        forall|k: Seq<char>| lock_entries(*table).contains_key(k) ==> exists|i: int|
            0 <= i < pairs.len() && (#[trigger] pairs[i]).0@ == k,
        forall|i: int, j: int|
            0 <= i < j < pairs.len() ==> (#[trigger] pairs[i]).0@ != (#[trigger] pairs[j]).0@,
{
    table.iter().map(|entry| (entry.key().clone(), entry.value().clone())).collect()
}

/// `DashMap::new`: a reverse index without entries.
#[verifier::external_body]
pub(crate) fn id_index_new() -> (index: DashMap<String, String>)
    ensures
        id_entries(index) =~= Map::empty(),
{
    DashMap::new()
}

/// `DashMap::get`, with the value cloned out of the guard: the lock key
/// stored under `lock_id`, if there is one.
#[verifier::external_body]
pub(crate) fn id_index_get(index: &DashMap<String, String>, lock_id: &String) -> (found: Option<String>)
    ensures
        found.is_some() == id_entries(*index).contains_key(lock_id@),
        found.is_some() ==> found.unwrap()@ == id_entries(*index)[lock_id@],
{
    index.get(lock_id).map(|entry| entry.value().clone())
}

/// `DashMap::insert`: afterwards `lock_id` holds `key`, whatever it held
/// before, and every other id holds what it held.
#[verifier::external_body]
pub(crate) fn id_index_insert(index: &mut DashMap<String, String>, lock_id: String, key: String)
    ensures
        id_entries(*final(index)) == id_entries(*old(index)).insert(lock_id@, key@),
{
    index.insert(lock_id, key);
}

/// `DashMap::remove`: the lock key that `lock_id` held, if it held one,
/// leaves the index and is handed back; every other id holds what it held.
#[verifier::external_body]
pub(crate) fn id_index_remove(index: &mut DashMap<String, String>, lock_id: &String) -> (removed: Option<String>)
    ensures
        id_entries(*final(index)) == id_entries(*old(index)).remove(lock_id@),
        removed.is_some() == id_entries(*old(index)).contains_key(lock_id@),
        removed.is_some() ==> removed.unwrap()@ == id_entries(*old(index))[lock_id@],
{
    index.remove(lock_id).map(|pair| pair.1)
}

} // verus!
