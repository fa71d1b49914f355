//! Shared tables keyed by backend or method name, on `dashmap`'s sharded
//! concurrent map: every update below locks one key's shard only.
//!
//! Other tasks may write to these tables at any moment, so nothing read from
//! them is known in advance: the functions below state no result. The rules
//! applied to what they hold are verified functions of this crate, run inside
//! the map's per-key update.
use vstd::prelude::*;
use dashmap::DashMap;
use std::collections::HashMap;
use std::sync::Mutex;
use crate::health::{next_health, BackendHealth, HealthThresholds};
use crate::latency::min_merge;

verus! {

#[verifier::external_type_specification]
#[verifier::external_body]
#[verifier::reject_recursive_types(K)]
#[verifier::reject_recursive_types(V)]
#[verifier::reject_recursive_types(S)]
pub struct ExDashMap<K, V, S>(DashMap<K, V, S>);

#[verifier::external_type_specification]
#[verifier::external_body]
#[verifier::reject_recursive_types(T)]
pub struct ExMutex<T: ?Sized>(Mutex<T>);

/// How a new sample is folded into a stored counter.
#[derive(PartialEq, Eq, Structural, Clone, Copy, Debug)]
pub enum Fold {
    /// Keep the smaller value.
    Min,
    /// Add, saturating at `u64::MAX`.
    Add,
}

/// The stored value after folding in `sample`; an absent entry takes it.
pub open spec fn folded(fold: Fold, current: Option<u64>, sample: u64) -> u64 {
    match current {
        None => sample,
        Some(c) => match fold {
            Fold::Min => if sample < c { sample } else { c },
            Fold::Add => if c + sample > u64::MAX { u64::MAX } else { (c + sample) as u64 },
        },
    }
}

pub fn fold_value(fold: Fold, current: Option<u64>, sample: u64) -> (r: u64)
    ensures
        r == folded(fold, current, sample),
{
    match fold {
        Fold::Min => min_merge(current, sample),
        Fold::Add => match current {
            None => sample,
            Some(c) => c.saturating_add(sample),
        },
    }
}

/// Relies on `DashMap::new`: an empty map.
#[verifier::external_body]
pub(crate) fn new_table<K: std::hash::Hash + Eq, V>() -> DashMap<K, V> {
    DashMap::new()
}

/// Relies on `DashMap::insert`: sets the value of one key.
#[verifier::external_body]
pub(crate) fn table_insert<V>(m: &DashMap<String, V>, key: String, value: V) {
    m.insert(key, value);
}

/// Relies on `DashMap::get`: a copy of the value stored under the key, if any.
#[verifier::external_body]
pub(crate) fn table_get<V: Copy>(m: &DashMap<String, V>, key: &str) -> Option<V> {
    m.get(key).map(|entry| *entry.value())
}

/// Relies on `DashMap::entry` (with `and_modify` and `or_insert` on the entry
/// it returns): folds `sample` into the key's value under the key's lock, or
/// stores it when the key is absent.
#[verifier::external_body]
pub(crate) fn table_fold<K: std::hash::Hash + Eq>(m: &DashMap<K, u64>, key: K, fold: Fold, sample: u64) {
    m.entry(key).and_modify(|current| *current = fold_value(fold, Some(*current), sample)).or_insert(sample);
}

/// Relies on `DashMap::entry` (with `or_default` on the entry it returns):
/// appends to the key's series under the key's lock.
#[verifier::external_body]
pub(crate) fn table_append<K: std::hash::Hash + Eq>(m: &DashMap<K, Vec<u64>>, key: K, sample: u64) {
    m.entry(key).or_default().push(sample);
}

/// Relies on `DashMap::alter`: applies one probe cycle's outcome to the
/// backend's health record under the key's lock; an absent key is left absent.
#[verifier::external_body]
pub(crate) fn table_apply_cycle(
    m: &DashMap<String, BackendHealth>,
    key: &str,
    success: bool,
    now_ms: u64,
    t: HealthThresholds,
) {
    m.alter(key, |_, h| next_health(h, success, now_ms, t));
}

/// Relies on `DashMap::iter`: a copy of every entry, one shard at a time.
#[verifier::external_body]
pub(crate) fn table_snapshot(m: &DashMap<String, u64>) -> HashMap<String, u64> {
    m.iter().map(|entry| (entry.key().clone(), *entry.value())).collect()
}

/// Relies on `Mutex::new`: an empty series behind a lock.
#[verifier::external_body]
pub(crate) fn new_log<T>() -> Mutex<Vec<T>> {
    Mutex::new(Vec::new())
}

/// Relies on `Mutex::lock`: appends to the series. A lock poisoned by a
/// panicking writer is treated as absent data: the item is dropped.
#[verifier::external_body]
pub(crate) fn log_push<T>(m: &Mutex<Vec<T>>, item: T) {
    if let Ok(mut series) = m.lock() {
        series.push(item);
    }
}

} // verus!
