//! Per-request decisions of the dispatcher: the backends to race and the
//! secondaries' head start.
use vstd::prelude::*;
use crate::collector::StatsCollector;
use crate::dispatch::{
    combine_method_delays, combined_delay, eligible_backends, eligible_prefix, max_delay, roles_of, Backend,
    DEFAULT_SECONDARY_DELAY_MS,
};
use crate::probe::SecondaryProbe;
use crate::rpc_methods::BatchInfo;
use crate::tracker::BlockHeightTracker;

verus! {

proof fn lemma_max_delay_bounds(s: Seq<u64>)
    ensures
        forall|i: int| 0 <= i < s.len() ==> s[i] <= max_delay(s),
        s.len() > 0 ==> exists|k: int| 0 <= k < s.len() && max_delay(s) == s[k],
    decreases s.len(),
{
    if s.len() > 0 {
        lemma_max_delay_bounds(s.drop_last());
        if s.len() == 1 {
            assert(max_delay(s.drop_last()) == 0);
            assert(max_delay(s) == s[0]);
        } else if max_delay(s) == max_delay(s.drop_last()) {
            let k = choose|k: int| 0 <= k < s.drop_last().len() && max_delay(s.drop_last()) == s.drop_last()[k];
            assert(max_delay(s) == s[k]);
        } else {
            assert(max_delay(s) == s[s.len() - 1]);
        }
        assert forall|i: int| 0 <= i < s.len() implies s[i] <= max_delay(s) by {
            if i < s.len() - 1 {
                assert(s[i] == s.drop_last()[i]);
            }
        }
    }
}

/// The secondaries' head start for a request: the largest per-method delay
/// that probing gives (25 ms per method without a prober), the prober's base
/// delay when that largest delay is zero, and 25 ms for a request without
/// methods.
pub fn calculate_secondary_delay(batch_info: &BatchInfo, probe: Option<&SecondaryProbe>, stats: &StatsCollector) -> (r: u64)
    ensures
        batch_info.methods@.len() == 0 ==> r == DEFAULT_SECONDARY_DELAY_MS,
        probe is None ==> r == DEFAULT_SECONDARY_DELAY_MS,
        batch_info.methods@.len() > 0 ==> (probe matches Some(p) ==> r >= p.settings.min_delay_buffer_ms),
{
    let mut delays: Vec<u64> = Vec::new();
    let mut i: usize = 0;
    while i < batch_info.methods.len()
        invariant
            i <= batch_info.methods@.len(),
            delays@.len() == i,
            probe is None ==> forall|k: int| 0 <= k < i ==> delays@[k] == DEFAULT_SECONDARY_DELAY_MS,
            probe matches Some(p) ==> forall|k: int| 0 <= k < i ==> delays@[k] >= p.settings.min_delay_buffer_ms,
        decreases batch_info.methods@.len() - i,
    {
        let d = match probe {
            Some(p) => p.get_delay_for_method(batch_info.methods[i].as_str()),
            None => stats.get_primary_p75_for_method(batch_info.methods[i].as_str()),
        };
        delays.push(d);
        i = i + 1;
    }
    let fallback = match probe {
        Some(p) => p.get_delay_for_method(""),
        None => DEFAULT_SECONDARY_DELAY_MS,
    };
    proof {
        lemma_max_delay_bounds(delays@);
    }
    let r = combine_method_delays(&delays, fallback);
    assert(r == combined_delay(delays@, fallback));
    r
}

/// The backends a request is raced against, as indices into `backends`.
/// Height tracking and probing each act only when present and enabled, and
/// only on secondaries; a stateful request goes to the primary alone.
pub fn select_targets(
    backends: &Vec<Backend>,
    batch_info: &BatchInfo,
    tracker: Option<&BlockHeightTracker>,
    probe: Option<&SecondaryProbe>,
    enable_block_height_tracking: bool,
    enable_secondary_probing: bool,
) -> (r: Vec<usize>)
    ensures
        exists|behind: Seq<bool>, available: Seq<bool>|
            #![trigger eligible_prefix(roles_of(backends@), batch_info.has_stateful, behind, available, backends@.len() as int)]
            {
                &&& behind.len() == backends@.len()
                &&& available.len() == backends@.len()
                &&& (tracker is None || !enable_block_height_tracking) ==> forall|i: int| 0 <= i < behind.len() ==> !behind[i]
                &&& (probe is None || !enable_secondary_probing) ==> forall|i: int| 0 <= i < available.len() ==> available[i]
                &&& r@ == eligible_prefix(roles_of(backends@), batch_info.has_stateful, behind, available, backends@.len() as int)
            },
{
    let mut behind: Vec<bool> = Vec::new();
    let mut available: Vec<bool> = Vec::new();
    let mut i: usize = 0;
    while i < backends.len()
        invariant
            i <= backends@.len(),
            behind@.len() == i,
            available@.len() == i,
            (tracker is None || !enable_block_height_tracking) ==> forall|k: int| 0 <= k < i ==> !behind@[k],
            (probe is None || !enable_secondary_probing) ==> forall|k: int| 0 <= k < i ==> available@[k],
        decreases backends@.len() - i,
    {
        let b = &backends[i];
        let lagging = match tracker {
            Some(t) => enable_block_height_tracking && !b.is_primary() && t.is_secondary_behind(b.name.as_str()),
            None => false,
        };
        let up = match probe {
            Some(p) => !enable_secondary_probing || b.is_primary() || p.is_backend_available(b.name.as_str()),
            None => true,
        };
        behind.push(lagging);
        available.push(up);
        i = i + 1;
    }
    let r = eligible_backends(backends, batch_info.has_stateful, &behind, &available);
    assert(r@ == eligible_prefix(roles_of(backends@), batch_info.has_stateful, behind@, available@, backends@.len() as int));
    r
}

} // verus!
