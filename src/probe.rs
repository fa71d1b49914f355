//! The secondary prober: per-backend health and the learned latency tables.
//!
//! The periodic loop that issues the synthetic calls runs outside the
//! library; it records each attempt in a `ProbeCycle` and hands the finished
//! cycle to `SecondaryProbe::apply_cycle`.
use vstd::prelude::*;
use std::sync::atomic::{AtomicBool, AtomicU32, AtomicU64, Ordering};
use dashmap::DashMap;
use crate::clock::{millis_since, now_millis};
use crate::dispatch::{Backend, BackendRole};
use crate::health::{availability_of, BackendHealth, HealthThresholds};
use crate::latency::{delay_from_observations, merged_min, method_delay, min_merge, DEFAULT_MIN_RESPONSE_TIME_MS};
use crate::tables::{new_table, table_apply_cycle, table_fold, table_get, table_insert, Fold};

verus! {

/// Synthetic calls per backend and method in each cycle.
pub const PROBE_REQUEST_COUNT: usize = 10;

/// Pause between two synthetic calls, in milliseconds.
pub const PROBE_CYCLE_DELAY_MS: u64 = 10;

/// Whether a probe attempt counts as a success, and how long it took: an
/// attempt succeeds when the backend answered with a 2xx status.
pub fn probe_attempt_latency(status: Option<u16>, elapsed_ms: u64) -> (r: Option<u64>)
    ensures
        r == (match status {
            Some(s) => if 200 <= s <= 299 { Some(elapsed_ms) } else { None },
            None => None,
        }),
{
    match status {
        Some(s) => if 200 <= s && s <= 299 { Some(elapsed_ms) } else { None },
        None => None,
    }
}

/// What one probe cycle observed, before it is folded into the shared tables.
pub struct ProbeCycle {
    /// Per probe method: the fastest successful attempt on any backend.
    pub method_mins: Vec<Option<u64>>,
    /// Per probed backend: its fastest successful attempt.
    pub backend_mins: Vec<Option<u64>>,
    /// Per probed backend: how many attempts succeeded.
    pub backend_successes: Vec<u64>,
    /// The fastest successful attempt of the cycle.
    pub overall_min: Option<u64>,
    /// How many attempts succeeded in the cycle.
    pub successes: u64,
}

pub open spec fn fold_option(current: Option<u64>, sample: u64) -> Option<u64> {
    Some(merged_min(current, sample))
}

pub open spec fn count_up(n: u64) -> u64 {
    if n < u64::MAX { (n + 1) as u64 } else { n }
}

fn nones(n: usize) -> (r: Vec<Option<u64>>)
    ensures
        r@ == Seq::new(n as nat, |i: int| None::<u64>),
{
    let mut r: Vec<Option<u64>> = Vec::new();
    while r.len() < n
        invariant
            r@ == Seq::new(r@.len(), |i: int| None::<u64>),
            r@.len() <= n,
        decreases n - r@.len(),
    {
        r.push(None);
    }
    r
}

fn zeros(n: usize) -> (r: Vec<u64>)
    ensures
        r@ == Seq::new(n as nat, |i: int| 0u64),
{
    let mut r: Vec<u64> = Vec::new();
    while r.len() < n
        invariant
            r@ == Seq::new(r@.len(), |i: int| 0u64),
            r@.len() <= n,
        decreases n - r@.len(),
    {
        r.push(0);
    }
    r
}

impl ProbeCycle {
    pub open spec fn shaped(&self, backends: nat, methods: nat) -> bool {
        &&& self.method_mins@.len() == methods
        &&& self.backend_mins@.len() == backends
        &&& self.backend_successes@.len() == backends
    }

    /// A cycle with nothing observed yet.
    pub fn new(backends: usize, methods: usize) -> (r: ProbeCycle)
        ensures
            r.shaped(backends as nat, methods as nat),
            r.method_mins@ == Seq::new(methods as nat, |i: int| None::<u64>),
            r.backend_mins@ == Seq::new(backends as nat, |i: int| None::<u64>),
            r.backend_successes@ == Seq::new(backends as nat, |i: int| 0u64),
            r.overall_min is None,
            r.successes == 0,
    {
        ProbeCycle {
            method_mins: nones(methods),
            backend_mins: nones(backends),
            backend_successes: zeros(backends),
            overall_min: None,
            successes: 0,
        }
    }

    /// Records one attempt on backend `backend` with method `method`:
    /// `latency` is its duration when it succeeded, `None` when it failed.
    /// A success is folded into every minimum it belongs to.
    pub fn record(&mut self, backend: usize, method: usize, latency: Option<u64>)
        requires
            backend < old(self).backend_mins@.len(),
            backend < old(self).backend_successes@.len(),
            method < old(self).method_mins@.len(),
        ensures
            latency is None ==> *final(self) == *old(self),
            latency matches Some(d) ==> {
                &&& final(self).method_mins@ == old(self).method_mins@.update(
                    method as int,
                    fold_option(old(self).method_mins@[method as int], d),
                )
                &&& final(self).backend_mins@ == old(self).backend_mins@.update(
                    backend as int,
                    fold_option(old(self).backend_mins@[backend as int], d),
                )
                &&& final(self).backend_successes@ == old(self).backend_successes@.update(
                    backend as int,
                    count_up(old(self).backend_successes@[backend as int]),
                )
                &&& final(self).overall_min == fold_option(old(self).overall_min, d)
                &&& final(self).successes == count_up(old(self).successes)
            },
    {
        if let Some(d) = latency {
            let m = min_merge(self.method_mins[method], d);
            self.method_mins.set(method, Some(m));
            let b = min_merge(self.backend_mins[backend], d);
            self.backend_mins.set(backend, Some(b));
            let c = self.backend_successes[backend];
            self.backend_successes.set(backend, if c < u64::MAX { c + 1 } else { c });
            self.overall_min = Some(min_merge(self.overall_min, d));
            self.successes = if self.successes < u64::MAX { self.successes + 1 } else { self.successes };
        }
    }
}

/// What a finished cycle decides, before it touches the shared state.
pub struct CyclePlan {
    /// Per probed backend: whether its cycle counts as a success, that is,
    /// whether any of its attempts on any method succeeded. Each backend's
    /// health record moves once, by this flag.
    pub backend_success: Vec<bool>,
    /// Whether any attempt anywhere succeeded. If so the latency minimums
    /// are lowered, the global failure streak is reset and the time of the
    /// last success is stamped; if not the streak grows by one and no
    /// latency table, floor or time stamp changes.
    pub streak_reset: bool,
    /// The sample folded into the global latency floor: the cycle's fastest
    /// success, only in a cycle with a success.
    pub floor_sample: Option<u64>,
}

/// The plan that a cycle gives.
pub open spec fn is_plan_of(cycle: ProbeCycle, r: CyclePlan) -> bool {
    &&& r.backend_success@.len() == cycle.backend_successes@.len()
    &&& forall|b: int| 0 <= b < r.backend_success@.len() ==>
        (#[trigger] r.backend_success@[b]) == (cycle.backend_successes@[b] > 0)
    &&& r.streak_reset == exists|b: int| 0 <= b < cycle.backend_successes@.len() && #[trigger] cycle.backend_successes@[b] > 0
    &&& r.floor_sample == if r.streak_reset { cycle.overall_min } else { None }
}

impl ProbeCycle {
    /// Decides what the cycle does to the shared state.
    pub fn plan(&self) -> (r: CyclePlan)
        ensures
            is_plan_of(*self, r),
    {
        let mut backend_success: Vec<bool> = Vec::new();
        let mut any = false;
        let mut b: usize = 0;
        while b < self.backend_successes.len()
            invariant
                b <= self.backend_successes@.len(),
                backend_success@.len() == b,
                forall|k: int| 0 <= k < b ==> (#[trigger] backend_success@[k]) == (self.backend_successes@[k] > 0),
                any == exists|k: int| 0 <= k < b && #[trigger] self.backend_successes@[k] > 0,
            decreases self.backend_successes@.len() - b,
        {
            let ok = self.backend_successes[b] > 0;
            backend_success.push(ok);
            any = any || ok;
            b = b + 1;
        }
        CyclePlan {
            backend_success,
            streak_reset: any,
            floor_sample: if any { self.overall_min } else { None },
        }
    }
}

/// The prober's settings.
pub struct ProbeSettings {
    /// Methods called on every secondary in each cycle.
    pub probe_methods: Vec<String>,
    pub thresholds: HealthThresholds,
    /// Added to the learned latency to form a secondary's delay.
    pub min_delay_buffer_ms: u64,
    pub probe_interval_secs: u64,
}

/// Health and latency learned by probing the secondaries.
pub struct SecondaryProbe {
    pub settings: ProbeSettings,
    /// The probed backends: the secondaries, in configuration order.
    pub backends: Vec<Backend>,
    /// Global floor: the fastest successful probe seen so far.
    pub min_response_time_ms: AtomicU64,
    /// Fastest successful probe per method.
    pub method_timings: DashMap<String, u64>,
    /// Fastest successful probe per backend.
    pub backend_timings: DashMap<String, u64>,
    pub backend_health: DashMap<String, BackendHealth>,
    /// Consecutive cycles in which no probe anywhere succeeded.
    pub failure_count: AtomicU32,
    /// When a probe last succeeded anywhere.
    pub last_success_ms: AtomicU64,
    pub last_probe_ms: AtomicU64,
    pub shutdown: AtomicBool,
}

pub open spec fn secondaries_of(backends: Seq<Backend>) -> Seq<Backend> {
    backends.filter(|b: Backend| b.role == BackendRole::Secondary)
}

pub open spec fn backend_names(backends: Seq<Backend>) -> Seq<Seq<char>> {
    backends.map_values(|b: Backend| b.name@)
}

/// The secondaries of a backend list, in order.
pub fn secondary_backends(all_backends: &Vec<Backend>) -> (r: Vec<Backend>)
    ensures
        backend_names(r@) == backend_names(secondaries_of(all_backends@)),
        forall|i: int| 0 <= i < r@.len() ==> (#[trigger] r@[i]).role == BackendRole::Secondary,
{
    let mut r: Vec<Backend> = Vec::new();
    let mut i: usize = 0;
    while i < all_backends.len()
        invariant
            i <= all_backends@.len(),
            backend_names(r@) == backend_names(secondaries_of(all_backends@.subrange(0, i as int))),
            forall|k: int| 0 <= k < r@.len() ==> (#[trigger] r@[k]).role == BackendRole::Secondary,
        decreases all_backends@.len() - i,
    {
        let ghost before = all_backends@.subrange(0, i as int);
        let ghost after = all_backends@.subrange(0, i + 1);
        assert(after.drop_last() =~= before);
        proof {
            reveal(Seq::filter);
        }
        assert(after.last() == all_backends@[i as int]);
        if all_backends[i].role == BackendRole::Secondary {
            let ghost old_r = r@;
            let b = all_backends[i].duplicate();
            r.push(b);
            assert(secondaries_of(after) == secondaries_of(before).push(all_backends@[i as int]));
            assert(backend_names(r@) =~= backend_names(old_r).push(all_backends@[i as int].name@));
            assert(backend_names(r@) =~= backend_names(secondaries_of(after)));
        } else {
            assert(backend_names(r@) =~= backend_names(secondaries_of(after)));
        }
        i = i + 1;
    }
    assert(all_backends@.subrange(0, all_backends@.len() as int) =~= all_backends@);
    r
}

impl SecondaryProbe {
    /// A prober for the secondaries among `all_backends`, each starting out
    /// available; `None` when there is no secondary to probe.
    pub fn new(settings: ProbeSettings, all_backends: &Vec<Backend>) -> (r: Option<SecondaryProbe>)
        ensures
            r is None <==> secondaries_of(all_backends@).len() == 0,
            r matches Some(p) ==> {
                &&& backend_names(p.backends@) == backend_names(secondaries_of(all_backends@))
                &&& p.settings == settings
            },
    {
        let backends = secondary_backends(all_backends);
        assert(backend_names(backends@).len() == backends@.len());
        assert(backend_names(secondaries_of(all_backends@)).len() == secondaries_of(all_backends@).len());
        if backends.len() == 0 {
            return None;
        }
        let now = now_millis();
        let backend_health: DashMap<String, BackendHealth> = new_table();
        let mut i: usize = 0;
        while i < backends.len()
            invariant
                i <= backends@.len(),
            decreases backends@.len() - i,
        {
            table_insert(&backend_health, backends[i].name.clone(), BackendHealth::initial(now));
            i = i + 1;
        }
        Some(SecondaryProbe {
            settings,
            backends,
            min_response_time_ms: AtomicU64::new(DEFAULT_MIN_RESPONSE_TIME_MS),
            method_timings: new_table(),
            backend_timings: new_table(),
            backend_health,
            failure_count: AtomicU32::new(0),
            last_success_ms: AtomicU64::new(now),
            last_probe_ms: AtomicU64::new(now),
            shutdown: AtomicBool::new(false),
        })
    }

    /// Folds a finished cycle into the shared state, as its plan says: each
    /// success lowers the per-method and per-backend minimums it belongs to,
    /// each backend's health moves once by its success flag, and the global
    /// streak is reset (with the floor lowered and the time stamped) or grows
    /// by one. Returns the plan it followed.
    pub fn apply_cycle(&self, cycle: &ProbeCycle) -> (r: CyclePlan)
        requires
            cycle.shaped(self.backends@.len(), self.settings.probe_methods@.len()),
        ensures
            is_plan_of(*cycle, r),
    {
        let plan = cycle.plan();
        let now = now_millis();
        let mut b: usize = 0;
        while b < self.backends.len()
            invariant
                b <= self.backends@.len(),
                cycle.shaped(self.backends@.len(), self.settings.probe_methods@.len()),
                is_plan_of(*cycle, plan),
            decreases self.backends@.len() - b,
        {
            let name = &self.backends[b].name;
            if plan.streak_reset {
                if let Some(d) = cycle.backend_mins[b] {
                    table_fold(&self.backend_timings, name.clone(), Fold::Min, d);
                }
            }
            table_apply_cycle(&self.backend_health, name.as_str(), plan.backend_success[b], now, self.settings.thresholds);
            b = b + 1;
        }
        let mut m: usize = 0;
        while plan.streak_reset && m < self.settings.probe_methods.len()
            invariant
                m <= self.settings.probe_methods@.len(),
                cycle.shaped(self.backends@.len(), self.settings.probe_methods@.len()),
            decreases self.settings.probe_methods@.len() - m,
        {
            if let Some(d) = cycle.method_mins[m] {
                table_fold(&self.method_timings, self.settings.probe_methods[m].clone(), Fold::Min, d);
            }
            m = m + 1;
        }
        if plan.streak_reset {
            if let Some(d) = plan.floor_sample {
                self.min_response_time_ms.fetch_min(d, Ordering::Relaxed);
            }
            self.failure_count.store(0, Ordering::Relaxed);
            self.last_success_ms.store(now, Ordering::Relaxed);
        } else {
            self.failure_count.fetch_add(1, Ordering::Relaxed);
        }
        self.last_probe_ms.store(now, Ordering::Relaxed);
        plan
    }

    /// How long secondaries wait before racing a call of `method_name`: the
    /// learned latency (or the global floor) plus the buffer, or three
    /// buffers while probing looks broken. Never less than the buffer.
    pub fn get_delay_for_method(&self, method_name: &str) -> (r: u64)
        ensures
            r >= self.settings.min_delay_buffer_ms,
    {
        let learned = table_get(&self.method_timings, method_name);
        let floor = self.min_response_time_ms.load(Ordering::Relaxed);
        let failures = self.failure_count.load(Ordering::Relaxed);
        let since = millis_since(self.last_success_ms.load(Ordering::Relaxed), now_millis());
        delay_from_observations(
            learned,
            floor,
            self.settings.min_delay_buffer_ms,
            failures,
            since,
            self.settings.probe_interval_secs,
        )
    }

    /// Whether probing reports the backend available; a backend it does not
    /// know is reported unavailable.
    pub fn is_backend_available(&self, backend_name: &str) -> bool {
        availability_of(table_get(&self.backend_health, backend_name))
    }

    /// Asks the probing loop to stop.
    pub fn stop(&self) {
        self.shutdown.store(true, Ordering::Relaxed);
    }

    /// Whether `stop` has been called.
    pub fn is_stopped(&self) -> bool {
        self.shutdown.load(Ordering::Relaxed)
    }
}

} // verus!
