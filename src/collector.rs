//! The statistics aggregator: win counts, duration series and compute-unit
//! totals, shared by every request task.
use vstd::prelude::*;
use std::sync::atomic::{AtomicU64, Ordering};
use std::sync::Mutex;
use dashmap::DashMap;
use crate::clock::now_millis;
use crate::dispatch::Backend;
use crate::probe::SecondaryProbe;
use crate::stats::{
    is_batch_plan_of, is_stats_plan_of, plan_batch, plan_stats, BatchPlan, CallErrorKind, CuDataPoint, ResponseStats,
    StatsPlan, WebSocketStats,
};
use crate::tables::{log_push, new_log, new_table, table_append, table_fold, Fold};
use crate::tracker::BlockHeightTracker;

verus! {

pub struct StatsCollector {
    /// Every completed call.
    pub request_stats: Mutex<Vec<ResponseStats>>,
    /// Per method: durations of the primary's winning calls.
    pub method_stats: DashMap<String, Vec<u64>>,
    /// Per (backend, method): durations of every call.
    pub backend_method_stats: DashMap<(String, String), Vec<u64>>,
    /// Per backend: races won.
    pub backend_wins: DashMap<String, u64>,
    /// Per (method, backend): races won.
    pub method_backend_wins: DashMap<(String, String), u64>,
    pub first_response_durations: Mutex<Vec<u64>>,
    pub actual_first_response_durations: Mutex<Vec<u64>>,
    pub method_first_response_durations: DashMap<String, Vec<u64>>,
    pub method_actual_first_response_durations: DashMap<String, Vec<u64>>,
    pub total_requests: AtomicU64,
    pub error_count: AtomicU64,
    pub skipped_secondary_requests: AtomicU64,
    pub ws_stats: Mutex<Vec<WebSocketStats>>,
    pub total_ws_connections: AtomicU64,
    /// Milliseconds since the Unix epoch.
    pub app_start_ms: u64,
    pub interval_start_ms: AtomicU64,
    pub summary_interval_secs: u64,
    pub total_cu: AtomicU64,
    /// Per method: compute units accrued.
    pub method_cu: DashMap<String, u64>,
    pub historical_cu: Mutex<Vec<CuDataPoint>>,
    pub has_secondary_backends: bool,
}

impl StatsCollector {
    pub fn new(summary_interval_secs: u64, has_secondary_backends: bool) -> (r: StatsCollector)
        ensures
            r.summary_interval_secs == summary_interval_secs,
            r.has_secondary_backends == has_secondary_backends,
    {
        let now = now_millis();
        StatsCollector {
            request_stats: new_log(),
            method_stats: new_table(),
            backend_method_stats: new_table(),
            backend_wins: new_table(),
            method_backend_wins: new_table(),
            first_response_durations: new_log(),
            actual_first_response_durations: new_log(),
            method_first_response_durations: new_table(),
            method_actual_first_response_durations: new_table(),
            total_requests: AtomicU64::new(0),
            error_count: AtomicU64::new(0),
            skipped_secondary_requests: AtomicU64::new(0),
            ws_stats: new_log(),
            total_ws_connections: AtomicU64::new(0),
            app_start_ms: now,
            interval_start_ms: AtomicU64::new(now),
            summary_interval_secs,
            total_cu: AtomicU64::new(0),
            method_cu: new_table(),
            historical_cu: new_log(),
            has_secondary_backends,
        }
    }

    /// Records the calls made for one request, as `plan_stats` decides:
    /// nothing for an empty list; otherwise the request is counted, the
    /// winner credited (see `summary_of`), every call but the first-response
    /// marker logged with its duration appended to its (backend, method)
    /// series, its error counted as a failure or a skipped secondary, and
    /// compute units charged only for a winning, error-free primary call.
    /// Returns the plan it followed.
    pub fn add_stats(&self, stats_vec: Vec<ResponseStats>) -> (r: StatsPlan)
        ensures
            is_stats_plan_of(stats_vec@, self.has_secondary_backends, r),
    {
        let plan = plan_stats(&stats_vec, self.has_secondary_backends);
        let (summary, m) = match (plan.summary, plan.method_from) {
            (Some(summary), Some(m)) => (summary, m),
            _ => return plan,
        };
        self.total_requests.fetch_add(1, Ordering::Relaxed);
        let method = stats_vec[m].method.clone();
        if let Some(w) = summary.winner {
            let winner = stats_vec[w].backend_name.clone();
            table_fold(&self.backend_wins, winner.clone(), Fold::Add, 1);
            table_fold(&self.method_backend_wins, (method.clone(), winner), Fold::Add, 1);
        }
        if let Some(d) = summary.first_response_ms {
            log_push(&self.first_response_durations, d);
            table_append(&self.method_first_response_durations, method.clone(), d);
        }
        if let Some(d) = summary.actual_first_ms {
            log_push(&self.actual_first_response_durations, d);
            table_append(&self.method_actual_first_response_durations, method.clone(), d);
        }
        let mut i: usize = 0;
        while i < stats_vec.len()
            invariant
                i <= stats_vec@.len(),
                plan.calls@.len() == stats_vec@.len(),
            decreases stats_vec@.len() - i,
        {
            let stat = &stats_vec[i];
            let record = plan.calls[i];
            if record.logged {
                log_push(&self.request_stats, stat.duplicate());
                match record.error_kind {
                    CallErrorKind::Skipped => {
                        self.skipped_secondary_requests.fetch_add(1, Ordering::Relaxed);
                    },
                    CallErrorKind::Failed => {
                        self.error_count.fetch_add(1, Ordering::Relaxed);
                    },
                    CallErrorKind::NoError => {},
                }
                table_append(&self.backend_method_stats, (stat.backend_name.clone(), stat.method.clone()), stat.duration_ms);
            }
            if record.primary_win {
                table_append(&self.method_stats, stat.method.clone(), stat.duration_ms);
                self.total_cu.fetch_add(record.cu_charged, Ordering::Relaxed);
                table_fold(&self.method_cu, stat.method.clone(), Fold::Add, record.cu_charged);
            }
            i = i + 1;
        }
        plan
    }

    /// Records a batch as `plan_batch` decides: only a batch served by a
    /// primary is recorded; each method occurrence is charged its price and
    /// gets the batch's duration in its method series and in the
    /// (backend, method) series, and the total goes to the compute-unit
    /// total. Returns the plan it followed.
    pub fn add_batch_stats(&self, methods: &Vec<String>, duration_ms: u64, backend_name: &str) -> (r: BatchPlan)
        ensures
            is_batch_plan_of(methods@, backend_name@, r),
    {
        let plan = plan_batch(methods, backend_name);
        if !plan.charged {
            return plan;
        }
        let mut i: usize = 0;
        while i < methods.len()
            invariant
                i <= methods@.len(),
                plan.prices@.len() == methods@.len(),
            decreases methods@.len() - i,
        {
            table_fold(&self.method_cu, methods[i].clone(), Fold::Add, plan.prices[i]);
            table_append(&self.method_stats, methods[i].clone(), duration_ms);
            table_append(&self.backend_method_stats, (String::from_str(backend_name), methods[i].clone()), duration_ms);
            i = i + 1;
        }
        if plan.total_cu > 0 {
            self.total_cu.fetch_add(plan.total_cu, Ordering::Relaxed);
        }
        plan
    }

    /// Records a finished streaming session.
    pub fn add_websocket_stats(&self, ws_stat: WebSocketStats) {
        if ws_stat.error.is_some() {
            self.error_count.fetch_add(1, Ordering::Relaxed);
        }
        log_push(&self.ws_stats, ws_stat);
        self.total_ws_connections.fetch_add(1, Ordering::Relaxed);
    }

    /// Latency estimate for a method when no probe data is available: a
    /// fixed 25 ms.
    pub fn get_primary_p75_for_method(&self, method: &str) -> (r: u64)
        ensures
            r == 25,
    {
        25
    }

    /// Median latency estimate for a method: a fixed 15 ms.
    pub fn get_primary_p50_for_method(&self, method: &str) -> (r: u64)
        ensures
            r == 15,
    {
        15
    }

    /// Statistics mark no method as expensive.
    pub fn is_expensive_method_by_stats(&self, method: &str) -> (r: bool)
        ensures
            !r,
    {
        false
    }

    /// Statistics pick no secondary for expensive methods: such requests are
    /// raced like any other.
    pub fn select_best_secondary_for_expensive_method(
        &self,
        method: &str,
        backends: &Vec<Backend>,
        block_height_tracker: Option<&BlockHeightTracker>,
        secondary_probe: Option<&SecondaryProbe>,
    ) -> (r: Option<Backend>)
        ensures
            r is None,
    {
        None
    }
}

} // verus!
