//! Learned latencies and the delay that secondaries wait before racing.
//!
//! All durations are whole milliseconds.
use vstd::prelude::*;

verus! {

/// Latency floor used before any probe has succeeded.
pub const DEFAULT_MIN_RESPONSE_TIME_MS: u64 = 15;

/// Consecutive failed probe cycles after which probing itself is distrusted.
pub const DEGRADED_FAILURE_COUNT: u32 = 3;

/// The stored minimum after folding in one more sample.
pub open spec fn merged_min(current: Option<u64>, sample: u64) -> u64 {
    match current {
        Some(c) => if sample < c { sample } else { c },
        None => sample,
    }
}

/// Folds a sample into a stored minimum; an absent entry takes the sample.
pub fn min_merge(current: Option<u64>, sample: u64) -> (r: u64)
    ensures
        r == merged_min(current, sample),
{
    match current {
        Some(c) => if sample < c { sample } else { c },
        None => sample,
    }
}

/// Merging the same sample twice stores what merging it once does.
pub proof fn lemma_merge_idempotent(current: Option<u64>, sample: u64)
    ensures
        merged_min(Some(merged_min(current, sample)), sample) == merged_min(current, sample),
{
}

/// A merge never raises a stored minimum: a larger (or equal) sample leaves
/// it as it was, and a smaller one replaces it.
pub proof fn lemma_merge_monotone(stored: u64, sample: u64)
    ensures
        merged_min(Some(stored), sample) <= stored,
        sample >= stored ==> merged_min(Some(stored), sample) == stored,
        sample < stored ==> merged_min(Some(stored), sample) == sample,
{
}

/// Whether the probe data is stale enough to be ignored: at least
/// `DEGRADED_FAILURE_COUNT` failed cycles in a row, and no success for more
/// than three probe intervals.
pub open spec fn probing_degraded(failures: u32, since_success_ms: u64, probe_interval_secs: u64) -> bool {
    failures >= DEGRADED_FAILURE_COUNT && since_success_ms > 3000 * probe_interval_secs
}

pub open spec fn saturating(x: int) -> u64 {
    if x > u64::MAX { u64::MAX } else { x as u64 }
}

/// Delay for one method: the learned latency of the method (or the global
/// floor when the method was never probed successfully) plus the buffer; in
/// degraded mode, three buffers.
pub open spec fn method_delay(
    learned: Option<u64>,
    floor_ms: u64,
    buffer_ms: u64,
    failures: u32,
    since_success_ms: u64,
    probe_interval_secs: u64,
) -> u64 {
    if probing_degraded(failures, since_success_ms, probe_interval_secs) {
        saturating(3 * buffer_ms)
    } else {
        let base = match learned {
            Some(b) => b,
            None => floor_ms,
        };
        saturating(base + buffer_ms)
    }
}

/// A learned latency of 40 ms with a 500 ms buffer gives 540 ms; a method
/// never probed gets the global floor plus the buffer; in degraded mode the
/// delay is exactly three buffers, whatever was learned.
pub proof fn lemma_delay_cases(
    learned: Option<u64>,
    floor_ms: u64,
    buffer_ms: u64,
    failures: u32,
    since_success_ms: u64,
    probe_interval_secs: u64,
)
    ensures
        !probing_degraded(failures, since_success_ms, probe_interval_secs) ==>
            method_delay(Some(40), floor_ms, 500, failures, since_success_ms, probe_interval_secs) == 540,
        !probing_degraded(failures, since_success_ms, probe_interval_secs) && floor_ms + buffer_ms <= u64::MAX ==>
            method_delay(None, floor_ms, buffer_ms, failures, since_success_ms, probe_interval_secs) == floor_ms + buffer_ms,
        probing_degraded(failures, since_success_ms, probe_interval_secs) && 3 * buffer_ms <= u64::MAX ==>
            method_delay(learned, floor_ms, buffer_ms, failures, since_success_ms, probe_interval_secs) == 3 * buffer_ms,
{
}

/// Computes `method_delay` from the values read from the latency tables.
pub fn delay_from_observations(
    learned: Option<u64>,
    floor_ms: u64,
    buffer_ms: u64,
    failures: u32,
    since_success_ms: u64,
    probe_interval_secs: u64,
) -> (r: u64)
    ensures
        r == method_delay(learned, floor_ms, buffer_ms, failures, since_success_ms, probe_interval_secs),
{
    let stale = match probe_interval_secs.checked_mul(3000) {
        Some(limit) => since_success_ms > limit,
        None => false,
    };
    if failures >= DEGRADED_FAILURE_COUNT && stale {
        return match buffer_ms.checked_mul(3) {
            Some(d) => d,
            None => u64::MAX,
        };
    }
    let base = match learned {
        Some(b) => b,
        None => floor_ms,
    };
    base.saturating_add(buffer_ms)
}

} // verus!
