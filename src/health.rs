//! Availability of a secondary backend, moved by whole probe cycles with
//! hysteresis: only a run of failed cycles takes a backend out of rotation,
//! and only a run of successful cycles brings it back.
use vstd::prelude::*;

verus! {

/// Health record of one secondary backend.
#[derive(PartialEq, Eq, Structural, Clone, Copy, Debug)]
pub struct BackendHealth {
    pub available: bool,
    pub consecutive_errors: u32,
    pub consecutive_successes: u32,
    /// Milliseconds since the Unix epoch of the last successful cycle.
    pub last_success_ms: u64,
}

/// How many confirming cycles flip the availability.
#[derive(PartialEq, Eq, Structural, Clone, Copy, Debug)]
pub struct HealthThresholds {
    /// Consecutive failed cycles that make an available backend unavailable.
    pub max_error_threshold: u32,
    /// Consecutive successful cycles that make an unavailable backend available.
    pub recovery_threshold: u32,
}

pub open spec fn bump(n: u32) -> u32 {
    if n < u32::MAX { (n + 1) as u32 } else { n }
}

/// The record after one probe cycle that succeeded (`success`) or failed.
pub open spec fn health_after(h: BackendHealth, success: bool, now_ms: u64, t: HealthThresholds) -> BackendHealth {
    if success {
        let successes = bump(h.consecutive_successes);
        if !h.available && successes >= t.recovery_threshold {
            BackendHealth { available: true, consecutive_errors: 0, consecutive_successes: 0, last_success_ms: now_ms }
        } else {
            BackendHealth { available: h.available, consecutive_errors: 0, consecutive_successes: successes, last_success_ms: now_ms }
        }
    } else {
        let errors = bump(h.consecutive_errors);
        BackendHealth {
            available: h.available && errors < t.max_error_threshold,
            consecutive_errors: errors,
            consecutive_successes: 0,
            last_success_ms: h.last_success_ms,
        }
    }
}

/// The record after a run of cycles, oldest first, all at the same time stamp.
pub open spec fn health_after_run(h: BackendHealth, outcomes: Seq<bool>, now_ms: u64, t: HealthThresholds) -> BackendHealth
    decreases outcomes.len(),
{
    if outcomes.len() == 0 {
        h
    } else {
        health_after(health_after_run(h, outcomes.drop_last(), now_ms, t), outcomes.last(), now_ms, t)
    }
}

impl BackendHealth {
    /// A freshly configured backend: available, with no history.
    pub fn initial(now_ms: u64) -> (r: BackendHealth)
        ensures
            r == (BackendHealth { available: true, consecutive_errors: 0, consecutive_successes: 0, last_success_ms: now_ms }),
    {
        BackendHealth { available: true, consecutive_errors: 0, consecutive_successes: 0, last_success_ms: now_ms }
    }
}

/// Whether a looked-up record reports the backend available: a backend
/// without a record is unavailable.
pub fn availability_of(record: Option<BackendHealth>) -> (r: bool)
    ensures
        r == (record matches Some(h) && h.available),
{
    match record {
        Some(h) => h.available,
        None => false,
    }
}

/// Applies the outcome of one probe cycle to a backend's record.
pub fn next_health(h: BackendHealth, success: bool, now_ms: u64, t: HealthThresholds) -> (r: BackendHealth)
    ensures
        r == health_after(h, success, now_ms, t),
{
    if success {
        let successes = if h.consecutive_successes < u32::MAX { h.consecutive_successes + 1 } else { h.consecutive_successes };
        if !h.available && successes >= t.recovery_threshold {
            BackendHealth { available: true, consecutive_errors: 0, consecutive_successes: 0, last_success_ms: now_ms }
        } else {
            BackendHealth { available: h.available, consecutive_errors: 0, consecutive_successes: successes, last_success_ms: now_ms }
        }
    } else {
        let errors = if h.consecutive_errors < u32::MAX { h.consecutive_errors + 1 } else { h.consecutive_errors };
        BackendHealth {
            available: h.available && errors < t.max_error_threshold,
            consecutive_errors: errors,
            consecutive_successes: 0,
            last_success_ms: h.last_success_ms,
        }
    }
}

/// A successful cycle clears the failure streak, and a failed cycle clears the
/// success streak.
pub proof fn lemma_streaks_reset(h: BackendHealth, now_ms: u64, t: HealthThresholds)
    ensures
        health_after(h, true, now_ms, t).consecutive_errors == 0,
        health_after(h, false, now_ms, t).consecutive_successes == 0,
{
}

/// One failed cycle clears the success streak, adds one to the failure
/// streak, and leaves the backend available only if it was and the new
/// streak is still under `max_error_threshold`. (At `u32::MAX` the streak
/// stays where it is.)
pub proof fn lemma_failure_step(h: BackendHealth, now_ms: u64, t: HealthThresholds)
    requires
        h.consecutive_errors < u32::MAX,
    ensures
        health_after(h, false, now_ms, t).consecutive_successes == 0,
        health_after(h, false, now_ms, t).consecutive_errors == h.consecutive_errors + 1,
        health_after(h, false, now_ms, t).available == (h.available && h.consecutive_errors + 1 < t.max_error_threshold),
{
}

/// One successful cycle clears the failure streak; an unavailable backend
/// whose success streak thereby reaches `recovery_threshold` becomes
/// available with the streak cleared, and otherwise the availability stays
/// and the success streak grows by one. (At `u32::MAX` the streak stays where
/// it is.)
pub proof fn lemma_success_step(h: BackendHealth, now_ms: u64, t: HealthThresholds)
    requires
        h.consecutive_successes < u32::MAX,
    ensures
        health_after(h, true, now_ms, t).consecutive_errors == 0,
        if !h.available && h.consecutive_successes + 1 >= t.recovery_threshold {
            health_after(h, true, now_ms, t).available && health_after(h, true, now_ms, t).consecutive_successes == 0
        } else {
            health_after(h, true, now_ms, t).available == h.available
                && health_after(h, true, now_ms, t).consecutive_successes == h.consecutive_successes + 1
        },
{
}

/// An available backend stays available through a run of failed cycles while
/// the run (added to the failures it already had) is shorter than
/// `max_error_threshold`, and is unavailable once the run reaches it.
pub proof fn lemma_failure_run(h: BackendHealth, n: nat, now_ms: u64, t: HealthThresholds)
    requires
        h.available,
        n >= 1,
        h.consecutive_errors + n <= u32::MAX,
    ensures
        health_after_run(h, Seq::new(n, |i: int| false), now_ms, t).available
            <==> h.consecutive_errors + n < t.max_error_threshold,
        health_after_run(h, Seq::new(n, |i: int| false), now_ms, t).consecutive_errors
            == h.consecutive_errors + n,
    decreases n,
{
    let run = Seq::new(n, |i: int| false);
    assert(run.drop_last() =~= Seq::new((n - 1) as nat, |i: int| false));
    if n > 1 {
        lemma_failure_run(h, (n - 1) as nat, now_ms, t);
    } else {
        assert(run.drop_last() =~= Seq::<bool>::empty());
    }
}

/// An unavailable backend stays unavailable through a run of successful
/// cycles while the run (added to the successes it already had) is shorter than
/// `recovery_threshold`, and is available once the run reaches it.
pub proof fn lemma_recovery_run(h: BackendHealth, n: nat, now_ms: u64, t: HealthThresholds)
    requires
        !h.available,
        n >= 1,
        h.consecutive_successes + n <= u32::MAX,
    ensures
        health_after_run(h, Seq::new(n, |i: int| true), now_ms, t).available
            <==> h.consecutive_successes + n >= t.recovery_threshold,
        !health_after_run(h, Seq::new(n, |i: int| true), now_ms, t).available
            ==> health_after_run(h, Seq::new(n, |i: int| true), now_ms, t).consecutive_successes
            == h.consecutive_successes + n,
    decreases n,
{
    let run = Seq::new(n, |i: int| true);
    assert(run.drop_last() =~= Seq::new((n - 1) as nat, |i: int| true));
    if n > 1 {
        lemma_recovery_run(h, (n - 1) as nat, now_ms, t);
    } else {
        assert(run.drop_last() =~= Seq::<bool>::empty());
    }
}

/// An unavailable backend never becomes available through failed cycles, and
/// an available one never becomes unavailable through successful cycles.
pub proof fn lemma_no_flip_against_evidence(h: BackendHealth, now_ms: u64, t: HealthThresholds)
    ensures
        !h.available ==> !health_after(h, false, now_ms, t).available,
        h.available ==> health_after(h, true, now_ms, t).available,
{
}

} // verus!
