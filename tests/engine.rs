use benchmark_proxy::collector::StatsCollector;
use benchmark_proxy::dispatch::{reply_for_first, Backend, BackendRole, ClientReply, LegOutcome};
use benchmark_proxy::health::HealthThresholds;
use benchmark_proxy::probe::{probe_attempt_latency, ProbeCycle, ProbeSettings, SecondaryProbe};
use benchmark_proxy::proxy::{calculate_secondary_delay, select_targets};
use benchmark_proxy::rpc_methods::{batch_info_from_parsed, BatchInfo, ParsedRequest};
use benchmark_proxy::stats::ResponseStats;
use benchmark_proxy::tracker::BlockHeightTracker;

fn backend(name: &str, role: BackendRole) -> Backend {
    Backend { url: format!("http://{}.example:8545", name), name: name.to_string(), role }
}

fn pair() -> Vec<Backend> {
    vec![backend("node-primary", BackendRole::Primary), backend("node-a", BackendRole::Secondary)]
}

fn settings(max_errors: u32) -> ProbeSettings {
    ProbeSettings {
        probe_methods: vec!["eth_blockNumber".to_string(), "net_version".to_string()],
        thresholds: HealthThresholds { max_error_threshold: max_errors, recovery_threshold: 2 },
        min_delay_buffer_ms: 500,
        probe_interval_secs: 10,
    }
}

fn request(method: &str) -> BatchInfo {
    batch_info_from_parsed(b"{}", ParsedRequest::Single(method.to_string())).ok().unwrap()
}

#[test]
fn probe_attempts_succeed_on_2xx_only() {
    assert_eq!(probe_attempt_latency(Some(200), 12), Some(12));
    assert_eq!(probe_attempt_latency(Some(299), 12), Some(12));
    assert_eq!(probe_attempt_latency(Some(500), 12), None);
    assert_eq!(probe_attempt_latency(None, 12), None);
}

#[test]
fn cycle_keeps_minimums() {
    let mut c = ProbeCycle::new(2, 2);
    c.record(0, 1, Some(40));
    c.record(1, 1, Some(25));
    c.record(1, 0, None);
    c.record(0, 1, Some(60));
    assert_eq!(c.method_mins, vec![None, Some(25)]);
    assert_eq!(c.backend_mins, vec![Some(40), Some(25)]);
    assert_eq!(c.backend_successes, vec![2, 1]);
    assert_eq!(c.overall_min, Some(25));
    assert_eq!(c.successes, 3);
}

#[test]
fn prober_needs_a_secondary() {
    let only_primary = vec![backend("node-primary", BackendRole::Primary)];
    assert!(SecondaryProbe::new(settings(3), &only_primary).is_none());
    let probe = SecondaryProbe::new(settings(3), &pair()).unwrap();
    assert_eq!(probe.backends.len(), 1);
    assert!(probe.is_backend_available("node-a"));
    assert!(!probe.is_backend_available("node-primary"));
    assert!(!probe.is_backend_available("unknown"));
}

#[test]
fn probe_cycles_feed_delays() {
    let probe = SecondaryProbe::new(settings(3), &pair()).unwrap();
    assert_eq!(probe.get_delay_for_method("eth_blockNumber"), 515);
    let mut c = ProbeCycle::new(1, 2);
    c.record(0, 0, Some(40));
    c.record(0, 1, Some(70));
    probe.apply_cycle(&c);
    assert_eq!(probe.get_delay_for_method("eth_blockNumber"), 540);
    assert_eq!(probe.get_delay_for_method("net_version"), 570);
    assert_eq!(probe.get_delay_for_method("eth_call"), 515);
    let mut slower = ProbeCycle::new(1, 2);
    slower.record(0, 0, Some(90));
    probe.apply_cycle(&slower);
    assert_eq!(probe.get_delay_for_method("eth_blockNumber"), 540);
}

#[test]
fn prober_hysteresis_through_cycles() {
    let probe = SecondaryProbe::new(settings(2), &pair()).unwrap();
    probe.apply_cycle(&ProbeCycle::new(1, 2));
    assert!(probe.is_backend_available("node-a"));
    probe.apply_cycle(&ProbeCycle::new(1, 2));
    assert!(!probe.is_backend_available("node-a"));
    let mut ok = ProbeCycle::new(1, 2);
    ok.record(0, 0, Some(10));
    probe.apply_cycle(&ok);
    assert!(!probe.is_backend_available("node-a"));
    probe.apply_cycle(&ok);
    assert!(probe.is_backend_available("node-a"));
}

#[test]
fn secondary_delay_without_prober_is_default() {
    let stats = StatsCollector::new(60, true);
    assert_eq!(calculate_secondary_delay(&request("eth_call"), None, &stats), 25);
}

#[test]
fn secondary_delay_with_prober_uses_learned_values() {
    let stats = StatsCollector::new(60, true);
    let probe = SecondaryProbe::new(settings(3), &pair()).unwrap();
    assert_eq!(calculate_secondary_delay(&request("eth_call"), Some(&probe), &stats), 515);
    let mut c = ProbeCycle::new(1, 2);
    c.record(0, 1, Some(100));
    probe.apply_cycle(&c);
    let info = batch_info_from_parsed(
        b"[]",
        ParsedRequest::Batch(vec!["eth_blockNumber".to_string(), "net_version".to_string()]),
    )
    .ok()
    .unwrap();
    assert_eq!(calculate_secondary_delay(&info, Some(&probe), &stats), 600);
}

#[test]
fn tracker_excludes_lagging_secondary() {
    assert!(BlockHeightTracker::new(false, 5, &pair()).is_none());
    let t = BlockHeightTracker::new(true, 5, &pair()).unwrap();
    assert!(!t.is_secondary_behind("node-a"));
    t.record_height("node-primary", 100);
    assert!(t.is_secondary_behind("node-a"));
    t.record_height("node-a", 95);
    assert!(!t.is_secondary_behind("node-a"));
    t.record_height("node-a", 90);
    assert!(t.is_secondary_behind("node-a"));
    let status = t.get_block_height_status();
    assert_eq!(status.get("node-primary"), Some(&100));
    assert_eq!(status.get("node-a"), Some(&90));
    let r = select_targets(&pair(), &request("eth_call"), Some(&t), None, true, true);
    assert_eq!(r, vec![0]);
    let off = select_targets(&pair(), &request("eth_call"), Some(&t), None, false, true);
    assert_eq!(off, vec![0, 1]);
}

#[test]
fn unavailable_secondary_leaves_primary_alone() {
    let backends = pair();
    let probe = SecondaryProbe::new(settings(1), &backends).unwrap();
    probe.apply_cycle(&ProbeCycle::new(1, 2));
    assert!(!probe.is_backend_available("node-a"));
    let targets = select_targets(&backends, &request("eth_call"), None, Some(&probe), true, true);
    assert_eq!(targets, vec![0]);
    let reply = reply_for_first(targets.len(), Some(LegOutcome::Responded { backend: 0, status: 200 }));
    assert_eq!(reply, ClientReply::Forward { backend: 0, status: 200 });
    assert_eq!(reply.status_code(), 200);
}

#[test]
fn stateful_request_skips_healthy_secondary() {
    let backends = pair();
    let probe = SecondaryProbe::new(settings(3), &backends).unwrap();
    let targets = select_targets(&backends, &request("eth_subscribe"), None, Some(&probe), true, true);
    assert_eq!(targets, vec![0]);
}

#[test]
fn faster_secondary_wins_over_failing_primary() {
    let backends = pair();
    let probe = SecondaryProbe::new(settings(3), &backends).unwrap();
    let targets = select_targets(&backends, &request("eth_call"), None, Some(&probe), true, true);
    assert_eq!(targets, vec![0, 1]);
    let reply = reply_for_first(targets.len(), Some(LegOutcome::Responded { backend: 1, status: 200 }));
    assert_eq!(reply, ClientReply::Forward { backend: 1, status: 200 });

    let stats = StatsCollector::new(60, true);
    stats.add_stats(vec![
        ResponseStats {
            backend_name: "node-primary".to_string(),
            status_code: None,
            duration_ms: 900,
            error: Some("connection reset".to_string()),
            method: "eth_call".to_string(),
        },
        ResponseStats {
            backend_name: "node-a".to_string(),
            status_code: Some(200),
            duration_ms: 520,
            error: None,
            method: "eth_call".to_string(),
        },
    ]);
    assert_eq!(stats.backend_wins.get("node-a").map(|v| *v), Some(1));
    assert_eq!(stats.backend_wins.get("node-primary").map(|v| *v), None);
    let key = ("node-primary".to_string(), "eth_call".to_string());
    assert_eq!(stats.backend_method_stats.get(&key).map(|v| v.clone()), Some(vec![900]));
    assert_eq!(stats.error_count.load(std::sync::atomic::Ordering::Relaxed), 1);
    assert_eq!(stats.total_requests.load(std::sync::atomic::Ordering::Relaxed), 1);
    assert_eq!(stats.total_cu.load(std::sync::atomic::Ordering::Relaxed), 0);
}

#[test]
fn primary_win_is_charged() {
    let stats = StatsCollector::new(60, true);
    stats.add_stats(vec![ResponseStats {
        backend_name: "node-primary".to_string(),
        status_code: Some(200),
        duration_ms: 40,
        error: None,
        method: "eth_getLogs".to_string(),
    }]);
    assert_eq!(stats.total_cu.load(std::sync::atomic::Ordering::Relaxed), 200);
    assert_eq!(stats.method_cu.get("eth_getLogs").map(|v| *v), Some(200));
    assert_eq!(stats.method_stats.get("eth_getLogs").map(|v| v.clone()), Some(vec![40]));
}

#[test]
fn skipped_secondaries_are_counted_apart() {
    let stats = StatsCollector::new(60, true);
    stats.add_stats(vec![ResponseStats {
        backend_name: "node-a".to_string(),
        status_code: None,
        duration_ms: 0,
        error: Some("skipped by primary due to min_delay_buffer".to_string()),
        method: "eth_call".to_string(),
    }]);
    assert_eq!(stats.skipped_secondary_requests.load(std::sync::atomic::Ordering::Relaxed), 1);
    assert_eq!(stats.error_count.load(std::sync::atomic::Ordering::Relaxed), 0);
}

#[test]
fn batch_on_primary_is_charged_per_method() {
    let stats = StatsCollector::new(60, false);
    let methods = vec!["eth_call".to_string(), "eth_call".to_string(), "net_version".to_string()];
    stats.add_batch_stats(&methods, 70, "node-primary");
    assert_eq!(stats.total_cu.load(std::sync::atomic::Ordering::Relaxed), 250);
    assert_eq!(stats.method_cu.get("eth_call").map(|v| *v), Some(200));
    stats.add_batch_stats(&methods, 70, "node-a");
    assert_eq!(stats.total_cu.load(std::sync::atomic::Ordering::Relaxed), 250);
}

#[test]
fn fixed_estimates_from_stats() {
    let stats = StatsCollector::new(60, false);
    assert_eq!(stats.get_primary_p75_for_method("eth_call"), 25);
    assert_eq!(stats.get_primary_p50_for_method("eth_call"), 15);
    assert!(!stats.is_expensive_method_by_stats("trace_call"));
    assert!(stats.select_best_secondary_for_expensive_method("trace_call", &pair(), None, None).is_none());
}

#[test]
fn cycle_plan_flags_backends_and_streak() {
    let mut c = ProbeCycle::new(3, 1);
    c.record(1, 0, Some(33));
    let plan = c.plan();
    assert_eq!(plan.backend_success, vec![false, true, false]);
    assert!(plan.streak_reset);
    assert_eq!(plan.floor_sample, Some(33));
    let empty = ProbeCycle::new(3, 1).plan();
    assert_eq!(empty.backend_success, vec![false, false, false]);
    assert!(!empty.streak_reset);
    assert_eq!(empty.floor_sample, None);
}

#[test]
fn failed_cycle_grows_streak_and_keeps_floor() {
    let probe = SecondaryProbe::new(settings(3), &pair()).unwrap();
    let plan = probe.apply_cycle(&ProbeCycle::new(1, 2));
    assert!(!plan.streak_reset);
    assert_eq!(probe.failure_count.load(std::sync::atomic::Ordering::Relaxed), 1);
    assert_eq!(probe.min_response_time_ms.load(std::sync::atomic::Ordering::Relaxed), 15);
    let mut ok = ProbeCycle::new(1, 2);
    ok.record(0, 0, Some(9));
    let plan = probe.apply_cycle(&ok);
    assert!(plan.streak_reset);
    assert_eq!(probe.failure_count.load(std::sync::atomic::Ordering::Relaxed), 0);
    assert_eq!(probe.min_response_time_ms.load(std::sync::atomic::Ordering::Relaxed), 9);
}
