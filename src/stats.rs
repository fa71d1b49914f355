//! Turning completed backend calls into win counts, duration series and
//! compute-unit accounting.
use vstd::prelude::*;
use crate::text::{occurs_in, str_contains, str_equal};

verus! {

/// One completed backend call.
pub struct ResponseStats {
    pub backend_name: String,
    pub status_code: Option<u16>,
    pub duration_ms: u64,
    pub error: Option<String>,
    pub method: String,
}

impl ResponseStats {
    pub fn duplicate(&self) -> (r: ResponseStats)
        ensures
            r.backend_name@ == self.backend_name@,
            r.status_code == self.status_code,
            r.duration_ms == self.duration_ms,
            r.error matches Some(e) <==> self.error is Some,
            r.method@ == self.method@,
    {
        ResponseStats {
            backend_name: self.backend_name.clone(),
            status_code: self.status_code,
            duration_ms: self.duration_ms,
            error: match &self.error {
                Some(e) => Some(e.clone()),
                None => None,
            },
            method: self.method.clone(),
        }
    }
}

/// One finished streaming session.
pub struct WebSocketStats {
    pub backend_name: String,
    pub error: Option<String>,
    pub connect_time_ms: u64,
    pub is_active: bool,
    pub client_to_backend_messages: u64,
    pub backend_to_client_messages: u64,
}

/// Compute units accrued up to a moment (milliseconds since the Unix epoch).
#[derive(PartialEq, Eq, Structural, Clone, Copy, Debug)]
pub struct CuDataPoint {
    pub timestamp_ms: u64,
    pub cu: u64,
}

/// Backend name under which the race's own first-response time is reported.
pub open spec fn first_response_marker() -> Seq<char> {
    "actual-first-response"@
}

/// Primary backends carry this in their names.
pub open spec fn primary_marker() -> Seq<char> {
    "-primary"@
}

pub open spec fn is_marker_entry(s: ResponseStats) -> bool {
    s.backend_name@ == first_response_marker()
}

pub open spec fn is_primary_entry(s: ResponseStats) -> bool {
    !is_marker_entry(s) && occurs_in(s.backend_name@, primary_marker())
}

/// Whether the name marks a primary backend.
pub fn names_primary(name: &str) -> (r: bool)
    ensures
        r == occurs_in(name@, primary_marker()),
{
    str_contains(name, "-primary")
}

/// Price in compute units of one call of a method; unknown methods cost the
/// default price.
pub open spec fn cu_price_of(method: Seq<char>) -> u64 {
    if method == "eth_call"@ {
        100
    } else if method == "eth_estimateGas"@ {
        150
    } else if method == "eth_getLogs"@ {
        200
    } else if method == "eth_sendRawTransaction"@ {
        250
    } else if method == "trace_call"@ {
        300
    } else if method == "trace_replayBlockTransactions"@ {
        500
    } else {
        50
    }
}

/// Looks up the price of a method.
pub fn cu_price(method: &str) -> (r: u64)
    ensures
        r == cu_price_of(method@),
{
    if str_equal(method, "eth_call") {
        100
    } else if str_equal(method, "eth_estimateGas") {
        150
    } else if str_equal(method, "eth_getLogs") {
        200
    } else if str_equal(method, "eth_sendRawTransaction") {
        250
    } else if str_equal(method, "trace_call") {
        300
    } else if str_equal(method, "trace_replayBlockTransactions") {
        500
    } else {
        50
    }
}

/// Sum of the prices of a list of method names.
pub open spec fn total_cu(methods: Seq<String>) -> int
    decreases methods.len(),
{
    if methods.len() == 0 {
        0
    } else {
        total_cu(methods.drop_last()) + cu_price_of(methods.last()@)
    }
}

/// Compute units of a batch: the prices of its methods added up (capped at
/// `u64::MAX`).
pub fn batch_cu(methods: &Vec<String>) -> (r: u64)
    ensures
        r as int == if total_cu(methods@) > u64::MAX { u64::MAX as int } else { total_cu(methods@) },
{
    let mut acc: u64 = 0;
    let mut i: usize = 0;
    while i < methods.len()
        invariant
            i <= methods@.len(),
            acc as int == if total_cu(methods@.subrange(0, i as int)) > u64::MAX {
                u64::MAX as int
            } else {
                total_cu(methods@.subrange(0, i as int))
            },
            total_cu(methods@.subrange(0, i as int)) >= 0,
        decreases methods@.len() - i,
    {
        assert(methods@.subrange(0, i + 1).drop_last() =~= methods@.subrange(0, i as int));
        let p = cu_price(methods[i].as_str());
        acc = acc.saturating_add(p);
        i = i + 1;
    }
    assert(methods@.subrange(0, methods@.len() as int) =~= methods@);
    acc
}

/// What one request's completed calls come to.
#[derive(PartialEq, Eq, Structural, Clone, Copy, Debug)]
pub struct OutcomeSummary {
    /// Index of the primary's call (the last one whose name marks a primary).
    pub primary: Option<usize>,
    /// Index of the call credited with the win.
    pub winner: Option<usize>,
    /// Duration of the first usable response.
    pub first_response_ms: Option<u64>,
    /// Time to first response as the race itself measured it.
    pub actual_first_ms: Option<u64>,
}

/// Index of the last primary call among the first `n`.
pub open spec fn primary_in(s: Seq<ResponseStats>, n: int) -> Option<usize>
    decreases n,
{
    if n <= 0 {
        None
    } else if is_primary_entry(s[n - 1]) {
        Some((n - 1) as usize)
    } else {
        primary_in(s, n - 1)
    }
}

/// Duration of the last first-response entry among the first `n`.
pub open spec fn marker_in(s: Seq<ResponseStats>, n: int) -> Option<u64>
    decreases n,
{
    if n <= 0 {
        None
    } else if is_marker_entry(s[n - 1]) {
        Some(s[n - 1].duration_ms)
    } else {
        marker_in(s, n - 1)
    }
}

pub open spec fn best_duration(s: Seq<ResponseStats>, best: Option<usize>) -> u64 {
    match best {
        Some(b) => s[b as int].duration_ms,
        None => u64::MAX,
    }
}

/// Index of the fastest call without error among the first `n` (the earliest
/// one on ties).
pub open spec fn fastest_in(s: Seq<ResponseStats>, n: int) -> Option<usize>
    decreases n,
{
    if n <= 0 {
        None
    } else {
        let f = fastest_in(s, n - 1);
        let e = s[n - 1];
        if !is_marker_entry(e) && e.error is None && e.duration_ms < best_duration(s, f) {
            Some((n - 1) as usize)
        } else {
            f
        }
    }
}

pub open spec fn ok_primary(s: Seq<ResponseStats>) -> Option<usize> {
    match primary_in(s, s.len() as int) {
        Some(p) => if s[p as int].error is None { Some(p) } else { None },
        None => None,
    }
}

/// The summary of a request's calls. With secondaries configured the fastest
/// error-free call wins; without, the primary wins when it succeeded. When
/// nothing won, the primary is still credited, for error tracking.
pub open spec fn summary_of(s: Seq<ResponseStats>, has_secondaries: bool) -> OutcomeSummary {
    let primary = primary_in(s, s.len() as int);
    let fastest = if has_secondaries { fastest_in(s, s.len() as int) } else { ok_primary(s) };
    OutcomeSummary {
        primary,
        winner: if fastest is Some { fastest } else { primary },
        first_response_ms: match fastest {
            Some(f) => Some(s[f as int].duration_ms),
            None => None,
        },
        actual_first_ms: marker_in(s, s.len() as int),
    }
}

/// Summarises the calls made for one request.
pub fn summarize_outcomes(stats: &Vec<ResponseStats>, has_secondaries: bool) -> (r: OutcomeSummary)
    ensures
        r == summary_of(stats@, has_secondaries),
        r.primary matches Some(p) ==> p < stats@.len(),
        r.winner matches Some(w) ==> w < stats@.len(),
{
    let mut primary: Option<usize> = None;
    let mut fastest: Option<usize> = None;
    let mut fastest_ms: u64 = u64::MAX;
    let mut actual: Option<u64> = None;
    let mut i: usize = 0;
    while i < stats.len()
        invariant
            i <= stats@.len(),
            primary == primary_in(stats@, i as int),
            fastest == fastest_in(stats@, i as int),
            fastest_ms == best_duration(stats@, fastest),
            actual == marker_in(stats@, i as int),
            primary matches Some(p) ==> p < i,
            fastest matches Some(f) ==> f < i,
        decreases stats@.len() - i,
    {
        let e = &stats[i];
        let marker = str_equal(e.backend_name.as_str(), "actual-first-response");
        if marker {
            actual = Some(e.duration_ms);
        } else if names_primary(e.backend_name.as_str()) {
            primary = Some(i);
        }
        if !marker && e.error.is_none() && e.duration_ms < fastest_ms {
            fastest = Some(i);
            fastest_ms = e.duration_ms;
        }
        i = i + 1;
    }
    let chosen = if has_secondaries {
        fastest
    } else {
        match primary {
            Some(p) => if stats[p].error.is_none() { Some(p) } else { None },
            None => None,
        }
    };
    let first_response_ms = match chosen {
        Some(f) => Some(stats[f].duration_ms),
        None => None,
    };
    OutcomeSummary {
        primary,
        winner: if chosen.is_some() { chosen } else { primary },
        first_response_ms,
        actual_first_ms: actual,
    }
}

/// Error text of a secondary call that the race skipped.
pub open spec fn skipped_error() -> Seq<char> {
    "skipped by primary due to min_delay_buffer"@
}

/// Whether a call's error marks a skipped secondary rather than a failure.
pub fn is_skipped_error(error: &str) -> (r: bool)
    ensures
        r == (error@ == skipped_error()),
{
    str_equal(error, "skipped by primary due to min_delay_buffer")
}

/// How a logged call's error is counted.
#[derive(PartialEq, Eq, Structural, Clone, Copy, Debug)]
pub enum CallErrorKind {
    NoError,
    /// Counted as an error.
    Failed,
    /// Counted as a skipped secondary, not as an error.
    Skipped,
}

/// What recording one call does.
#[derive(PartialEq, Eq, Structural, Clone, Copy, Debug)]
pub struct CallRecord {
    /// Whether the call is logged and its duration appended to the series of
    /// its (backend, method) pair; the first-response marker is not.
    pub logged: bool,
    pub error_kind: CallErrorKind,
    /// Whether it is the winning, error-free primary call: its duration is
    /// appended to its method's series and its method is charged.
    pub primary_win: bool,
    /// Compute units charged for it.
    pub cu_charged: u64,
}

pub open spec fn call_record_of(e: ResponseStats, i: int, winner: Option<usize>) -> CallRecord {
    let logged = !is_marker_entry(e);
    let primary_win = logged && winner == Some(i as usize) && occurs_in(e.backend_name@, primary_marker())
        && e.error is None;
    CallRecord {
        logged,
        error_kind: if !logged || e.error is None {
            CallErrorKind::NoError
        } else if e.error->Some_0@ == skipped_error() {
            CallErrorKind::Skipped
        } else {
            CallErrorKind::Failed
        },
        primary_win,
        cu_charged: if primary_win { cu_price_of(e.method@) } else { 0 },
    }
}

/// What recording one request's calls does.
pub struct StatsPlan {
    /// `None` for an empty list, which records nothing at all; otherwise the
    /// request is counted and the winner credited as the summary says.
    pub summary: Option<OutcomeSummary>,
    /// Index of the call whose method names the request: the primary's, or
    /// the first call's.
    pub method_from: Option<usize>,
    /// One record per call, in order.
    pub calls: Vec<CallRecord>,
}

pub open spec fn is_stats_plan_of(s: Seq<ResponseStats>, has_secondaries: bool, r: StatsPlan) -> bool {
    if s.len() == 0 {
        &&& r.summary is None
        &&& r.method_from is None
        &&& r.calls@.len() == 0
    } else {
        let summary = summary_of(s, has_secondaries);
        &&& r.summary == Some(summary)
        &&& r.method_from == Some(match summary.primary { Some(p) => p, None => 0usize })
        &&& r.calls@.len() == s.len()
        &&& forall|i: int| 0 <= i < s.len() ==> #[trigger] r.calls@[i] == call_record_of(s[i], i, summary.winner)
    }
}

/// Decides how each call of a request is recorded.
pub fn plan_stats(stats: &Vec<ResponseStats>, has_secondaries: bool) -> (r: StatsPlan)
    ensures
        is_stats_plan_of(stats@, has_secondaries, r),
        r.method_from matches Some(m) ==> m < stats@.len(),
        r.summary matches Some(x) ==> (x.winner matches Some(w) ==> w < stats@.len()),
{
    if stats.len() == 0 {
        return StatsPlan { summary: None, method_from: None, calls: Vec::new() };
    }
    let summary = summarize_outcomes(stats, has_secondaries);
    let method_from = match summary.primary {
        Some(p) => p,
        None => 0,
    };
    let mut calls: Vec<CallRecord> = Vec::new();
    let mut i: usize = 0;
    while i < stats.len()
        invariant
            i <= stats@.len(),
            summary == summary_of(stats@, has_secondaries),
            calls@.len() == i,
            forall|k: int| 0 <= k < i ==> #[trigger] calls@[k] == call_record_of(stats@[k], k, summary.winner),
        decreases stats@.len() - i,
    {
        let e = &stats[i];
        let logged = !str_equal(e.backend_name.as_str(), "actual-first-response");
        let error_kind = match &e.error {
            None => CallErrorKind::NoError,
            Some(text) => if !logged {
                CallErrorKind::NoError
            } else if is_skipped_error(text.as_str()) {
                CallErrorKind::Skipped
            } else {
                CallErrorKind::Failed
            },
        };
        let won = match summary.winner {
            Some(w) => w == i,
            None => false,
        };
        let primary_win = logged && won && names_primary(e.backend_name.as_str()) && e.error.is_none();
        let cu_charged = if primary_win { cu_price(e.method.as_str()) } else { 0 };
        calls.push(CallRecord { logged, error_kind, primary_win, cu_charged });
        i = i + 1;
    }
    StatsPlan { summary: Some(summary), method_from: Some(method_from), calls }
}

/// What recording a batch does.
pub struct BatchPlan {
    /// Whether the batch is recorded at all: only batches served by a
    /// primary are.
    pub charged: bool,
    /// Per method occurrence, in order: its price, charged to the method, and
    /// the batch's duration appended once to the method's series and to the
    /// (backend, method) series.
    pub prices: Vec<u64>,
    /// Added to the compute-unit total.
    pub total_cu: u64,
}

pub open spec fn is_batch_plan_of(methods: Seq<String>, backend_name: Seq<char>, r: BatchPlan) -> bool {
    &&& r.charged == occurs_in(backend_name, primary_marker())
    &&& r.charged ==> {
        &&& r.prices@.len() == methods.len()
        &&& forall|i: int| 0 <= i < methods.len() ==> #[trigger] r.prices@[i] == cu_price_of(methods[i]@)
        &&& r.total_cu as int == if total_cu(methods) > u64::MAX { u64::MAX as int } else { total_cu(methods) }
    }
    &&& !r.charged ==> r.prices@.len() == 0 && r.total_cu == 0
}

/// Decides how a batch is recorded.
pub fn plan_batch(methods: &Vec<String>, backend_name: &str) -> (r: BatchPlan)
    ensures
        is_batch_plan_of(methods@, backend_name@, r),
{
    if !names_primary(backend_name) {
        return BatchPlan { charged: false, prices: Vec::new(), total_cu: 0 };
    }
    let mut prices: Vec<u64> = Vec::new();
    let mut i: usize = 0;
    while i < methods.len()
        invariant
            i <= methods@.len(),
            prices@.len() == i,
            forall|k: int| 0 <= k < i ==> #[trigger] prices@[k] == cu_price_of(methods@[k]@),
        decreases methods@.len() - i,
    {
        prices.push(cu_price(methods[i].as_str()));
        i = i + 1;
    }
    BatchPlan { charged: true, prices, total_cu: batch_cu(methods) }
}

} // verus!
