//! Verification gates and replay-drift counting.

use data_fabric::orchestration::ReplayStep;
use data_fabric::verification::{
    classify_failure_from_drift_bps, compute_replay_drift_count, evaluate_verification_gates,
    FailureClass,
};

fn step(sequence: usize, event_type: &str, node_id: Option<&str>, actor: Option<&str>) -> ReplayStep {
    ReplayStep {
        sequence,
        event_type: event_type.to_string(),
        node_id: node_id.map(|s| s.to_string()),
        actor: actor.map(|s| s.to_string()),
    }
}

#[test]
fn evaluate_verification_gates_all_pass() {
    let result = evaluate_verification_gates(true, true, true);
    assert!(result.eligible_for_promotion);
    assert_eq!(result.confidence_score, 100);
    assert!(result.failed_gates.is_empty());
}

#[test]
fn evaluate_verification_gates_collects_failures() {
    let result = evaluate_verification_gates(false, true, false);
    assert!(!result.eligible_for_promotion);
    assert_eq!(result.confidence_score, 35);
    assert_eq!(result.failed_gates, vec!["tests_passed", "provenance_complete"]);
}

#[test]
fn evaluate_verification_gates_all_fail() {
    let result = evaluate_verification_gates(false, false, false);
    assert!(!result.eligible_for_promotion);
    assert_eq!(result.confidence_score, 0);
    assert_eq!(result.failed_gates.len(), 3);
}

#[test]
fn drift_count_zero_for_identical_steps() {
    let steps = vec![step(1, "node.start", Some("n1"), Some("agent"))];
    assert_eq!(compute_replay_drift_count(&steps, &steps), 0);
}

#[test]
fn drift_count_counts_mismatch_and_length_delta() {
    let replay = vec![
        step(1, "run.start", None, Some("ci")),
        step(2, "node.start", Some("n1"), Some("agent")),
    ];
    let baseline = vec![step(1, "run.start", None, Some("ci"))];
    // One of the two compared positions disagrees: 50% drift.
    assert_eq!(compute_replay_drift_count(&replay, &baseline), 1);
}

#[test]
fn drift_count_empty_steps() {
    let empty: Vec<ReplayStep> = vec![];
    assert_eq!(compute_replay_drift_count(&empty, &empty), 0);
}

#[test]
fn drift_count_full_mismatch() {
    let replay = vec![step(1, "a", None, None), step(2, "b", None, None)];
    let baseline = vec![step(1, "x", None, None), step(2, "y", None, None)];
    assert_eq!(compute_replay_drift_count(&replay, &baseline), 2);
}

#[test]
fn classify_failure_from_drift_bps_boundaries() {
    assert_eq!(classify_failure_from_drift_bps(0), FailureClass::Deterministic);
    assert_eq!(classify_failure_from_drift_bps(500), FailureClass::Transient);
    assert_eq!(classify_failure_from_drift_bps(2000), FailureClass::Environmental);
    assert_eq!(classify_failure_from_drift_bps(9000), FailureClass::Logical);
}

#[test]
fn classify_failure_boundary_at_ten_percent() {
    // Exactly 10% (1000 basis points) is Transient.
    assert_eq!(classify_failure_from_drift_bps(1000), FailureClass::Transient);
    // Just above is Environmental.
    assert_eq!(classify_failure_from_drift_bps(1001), FailureClass::Environmental);
}

#[test]
fn classify_failure_boundary_at_thirtyfive_percent() {
    assert_eq!(classify_failure_from_drift_bps(3500), FailureClass::Environmental);
    assert_eq!(classify_failure_from_drift_bps(3501), FailureClass::Logical);
}
