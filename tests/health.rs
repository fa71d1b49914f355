use benchmark_proxy::health::{availability_of, next_health, BackendHealth, HealthThresholds};

fn thresholds() -> HealthThresholds {
    HealthThresholds { max_error_threshold: 3, recovery_threshold: 2 }
}

fn run(mut h: BackendHealth, outcomes: &[bool]) -> BackendHealth {
    for (i, ok) in outcomes.iter().enumerate() {
        h = next_health(h, *ok, 1000 + i as u64, thresholds());
    }
    h
}

#[test]
fn initial_health_is_available() {
    let h = BackendHealth::initial(7);
    assert!(h.available);
    assert_eq!(h.consecutive_errors, 0);
    assert_eq!(h.consecutive_successes, 0);
    assert_eq!(h.last_success_ms, 7);
}

#[test]
fn flips_down_only_after_threshold_failures() {
    let h = BackendHealth::initial(0);
    let after_two = run(h, &[false, false]);
    assert!(after_two.available);
    assert_eq!(after_two.consecutive_errors, 2);
    let after_three = run(h, &[false, false, false]);
    assert!(!after_three.available);
    assert_eq!(after_three.consecutive_errors, 3);
}

#[test]
fn interleaved_success_resets_failure_streak() {
    let h = run(BackendHealth::initial(0), &[false, false, true, false, false]);
    assert!(h.available);
    assert_eq!(h.consecutive_errors, 2);
    assert_eq!(h.consecutive_successes, 0);
}

#[test]
fn recovers_only_after_threshold_successes() {
    let down = run(BackendHealth::initial(0), &[false, false, false]);
    assert!(!down.available);
    let one = run(down, &[true]);
    assert!(!one.available);
    assert_eq!(one.consecutive_successes, 1);
    assert_eq!(one.consecutive_errors, 0);
    let two = run(down, &[true, true]);
    assert!(two.available);
    assert_eq!(two.consecutive_successes, 0);
}

#[test]
fn interleaved_failure_resets_success_streak() {
    let down = run(BackendHealth::initial(0), &[false, false, false]);
    let h = run(down, &[true, false, true]);
    assert!(!h.available);
    assert_eq!(h.consecutive_successes, 1);
}

#[test]
fn success_stamps_time_and_failure_keeps_it() {
    let h = next_health(BackendHealth::initial(5), true, 900, thresholds());
    assert_eq!(h.last_success_ms, 900);
    let g = next_health(h, false, 1200, thresholds());
    assert_eq!(g.last_success_ms, 900);
}

#[test]
fn missing_record_means_unavailable() {
    assert!(!availability_of(None));
    assert!(availability_of(Some(BackendHealth::initial(0))));
    let down = run(BackendHealth::initial(0), &[false, false, false]);
    assert!(!availability_of(Some(down)));
}
