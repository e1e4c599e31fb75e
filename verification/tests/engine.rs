//! The decision pipeline, durable-counter helpers, identifiers and the
//! JSON rendering that feeds the risk classifier.

use data_fabric::authz::{evaluate_authz, AuthzError, Permission, Resource, Role, TokenClaims};
use data_fabric::engine::{
    decision_context, make_decision, new_escalation, policy_outcome, resolve_bundle_version,
    verdict_label, Decision, PolicyOutcome,
};
use data_fabric::ids::random_hex_id;
use data_fabric::json::{json_bytes, JsonValue};
use data_fabric::rate::{rate_counter_key, rate_exceeded, rate_window_start};
use data_fabric::risk::RiskLevel;
use data_fabric::rules::{default_bundle, effective_rate_limit, RuleEffect};
use data_fabric::secrets::validate_no_plaintext_secrets;
use data_fabric::tenant_rules::specificity_score;

fn obj(fields: Vec<(&str, JsonValue)>) -> JsonValue {
    JsonValue::Obj(fields.into_iter().map(|(k, v)| (k.to_string(), v)).collect())
}

// ── Decision pipeline ──────────────────────────────────────────

#[test]
fn rate_limited_check_escalates_without_rules() {
    let bundle = default_bundle();
    let outcome = policy_outcome(&bundle, "read_data", "", "agent-1", RiskLevel::Low, true);
    assert_eq!(outcome.verdict, RuleEffect::Escalate);
    assert_eq!(outcome.reason, "rate limit exceeded for actor/action class");
    assert!(outcome.matched_rule.is_none());
    assert!(outcome.rate_limited);
}

#[test]
fn read_action_matches_builtin_allow_rule() {
    let bundle = default_bundle();
    let outcome = policy_outcome(&bundle, "read_data", "", "agent-1", RiskLevel::Low, false);
    assert_eq!(outcome.verdict, RuleEffect::Allow);
    assert_eq!(outcome.matched_rule.as_deref(), Some("allow-read"));
    assert!(!outcome.rate_limited);
}

#[test]
fn credential_action_matches_builtin_deny_rule() {
    let bundle = default_bundle();
    let outcome =
        policy_outcome(&bundle, "export-credential", "", "agent-1", RiskLevel::High, false);
    assert_eq!(outcome.verdict, RuleEffect::Deny);
    assert_eq!(outcome.matched_rule.as_deref(), Some("deny-credential-exfiltration"));
    assert_eq!(outcome.reason, "credential operations require dedicated secure channel");
}

#[test]
fn prod_deploy_matches_builtin_escalate_rule() {
    let bundle = default_bundle();
    let outcome =
        policy_outcome(&bundle, "deploy-api", "prod-cluster", "agent-1", RiskLevel::High, false);
    assert_eq!(outcome.verdict, RuleEffect::Escalate);
    assert_eq!(outcome.matched_rule.as_deref(), Some("escalate-prod-deploy"));
}

#[test]
fn unmatched_high_risk_escalates() {
    let bundle = default_bundle();
    let outcome = policy_outcome(&bundle, "rotate-keys", "", "agent-1", RiskLevel::High, false);
    assert_eq!(outcome.verdict, RuleEffect::Escalate);
    assert_eq!(outcome.reason, "high-risk action requires explicit policy match");
    assert!(outcome.matched_rule.is_none());
}

#[test]
fn unmatched_low_risk_auto_approved() {
    let bundle = default_bundle();
    let outcome = policy_outcome(&bundle, "frobnicate", "", "agent-1", RiskLevel::Medium, false);
    assert_eq!(outcome.verdict, RuleEffect::Allow);
    assert_eq!(outcome.reason, "auto-approved low-risk operation");
}

#[test]
fn verdict_labels() {
    assert_eq!(verdict_label(RuleEffect::Allow), "allow");
    assert_eq!(verdict_label(RuleEffect::Deny), "deny");
    assert_eq!(verdict_label(RuleEffect::Escalate), "escalate");
}

#[test]
fn decision_record_carries_all_fields() {
    let outcome = PolicyOutcome {
        verdict: RuleEffect::Escalate,
        reason: "needs review".to_string(),
        matched_rule: Some("r-1".to_string()),
        rate_limited: false,
    };
    let d = make_decision(
        "d-123".to_string(),
        outcome,
        RiskLevel::High,
        "v7".to_string(),
        Some("e-9".to_string()),
    );
    assert_eq!(d.decision_id, "d-123");
    assert_eq!(d.decision, "escalate");
    assert_eq!(d.reason, "needs review");
    assert_eq!(d.risk_level, RiskLevel::High);
    assert_eq!(d.policy_version, "v7");
    assert_eq!(d.matched_rule.as_deref(), Some("r-1"));
    assert_eq!(d.escalation_id.as_deref(), Some("e-9"));
    assert!(!d.rate_limited);
}

fn sample_decision() -> Decision {
    Decision {
        decision_id: "d-1".to_string(),
        decision: "escalate".to_string(),
        reason: "needs approval".to_string(),
        risk_level: RiskLevel::High,
        policy_version: "v7".to_string(),
        matched_rule: Some("escalate-prod-deploy".to_string()),
        escalation_id: None,
        rate_limited: false,
    }
}

fn field<'a>(v: &'a JsonValue, key: &str) -> &'a JsonValue {
    match v {
        JsonValue::Obj(fields) => {
            &fields.iter().find(|(k, _)| k == key).expect("field present").1
        }
        _ => panic!("expected object"),
    }
}

fn field_str<'a>(v: &'a JsonValue, key: &str) -> &'a str {
    match field(v, key) {
        JsonValue::Str(s) => s.as_str(),
        _ => panic!("expected string field"),
    }
}

#[test]
fn decision_context_keeps_caller_fields_and_adds_metadata() {
    let ctx = obj(vec![("env", JsonValue::Str("staging".to_string()))]);
    let merged = decision_context(Some(&ctx), "tenant-a", &sample_decision());
    assert_eq!(field_str(&merged, "env"), "staging");
    assert_eq!(field_str(&merged, "tenant_id"), "tenant-a");
    assert_eq!(field_str(&merged, "risk_level"), "high");
    assert_eq!(field_str(&merged, "policy_version"), "v7");
    assert_eq!(field_str(&merged, "matched_rule"), "escalate-prod-deploy");
    assert!(matches!(field(&merged, "escalation_id"), JsonValue::Null));
    assert!(matches!(field(&merged, "rate_limited"), JsonValue::Bool(false)));
}

#[test]
fn decision_context_wraps_non_object_callers() {
    let ctx = JsonValue::Str("free-form note".to_string());
    let merged = decision_context(Some(&ctx), "tenant-a", &sample_decision());
    assert_eq!(field_str(&merged, "context"), "free-form note");
    assert_eq!(field_str(&merged, "tenant_id"), "tenant-a");

    let bare = decision_context(None, "tenant-a", &sample_decision());
    match &bare {
        JsonValue::Obj(fields) => assert_eq!(fields.len(), 6),
        _ => panic!("expected object"),
    }
}

#[test]
fn escalations_are_born_pending() {
    let e = new_escalation(
        "e-1".to_string(),
        "d-1".to_string(),
        "deploy".to_string(),
        "agent".to_string(),
        Some("prod".to_string()),
        RiskLevel::High,
        None,
        "2026-01-01T00:00:00Z".to_string(),
    );
    assert_eq!(e.status, "pending");
    assert_eq!(e.decision_id, "d-1");
}

#[test]
fn bundle_version_resolution() {
    assert_eq!(resolve_bundle_version("", "v3").as_deref(), Some("v3"));
    assert_eq!(resolve_bundle_version("v3", "v3").as_deref(), Some("v3"));
    assert!(resolve_bundle_version("v2", "v3").is_none());
}

// ── Effective rate limits ──────────────────────────────────────

#[test]
fn bundle_rate_limit_overrides_default() {
    let bundle = default_bundle();
    let rule = effective_rate_limit(&bundle.rate_limits, "deploy", RiskLevel::High);
    assert_eq!(rule.action_class, "deploy");
    assert_eq!(rule.max_requests, 30);
}

#[test]
fn unconfigured_class_falls_back_to_risk_default() {
    let bundle = default_bundle();
    let rule = effective_rate_limit(&bundle.rate_limits, "critical", RiskLevel::Critical);
    assert_eq!(rule.action_class, "critical");
    assert_eq!(rule.max_requests, 10);
    assert_eq!(rule.window_seconds, 60);
}

// ── Durable counter helpers ────────────────────────────────────

#[test]
fn window_start_is_fixed_window() {
    assert_eq!(rate_window_start(125, 60), 120);
    assert_eq!(rate_window_start(120, 60), 120);
    assert_eq!(rate_window_start(119, 60), 60);
    // A degenerate window length counts as one second.
    assert_eq!(rate_window_start(42, 0), 42);
}

#[test]
fn counter_key_layout_is_stable() {
    assert_eq!(rate_counter_key("alice", "deploy", 120, 60), "alice|deploy|120|60");
    assert_eq!(rate_counter_key("b|c", "read", 0, 1), "b|c|read|0|1");
}

#[test]
fn exceeded_is_strictly_greater() {
    assert!(!rate_exceeded(10, 10));
    assert!(rate_exceeded(11, 10));
    // A limit below one counts as one.
    assert!(!rate_exceeded(1, 0));
    assert!(rate_exceeded(2, 0));
}

// ── Identifiers ────────────────────────────────────────────────

#[test]
fn random_hex_id_is_32_lowercase_hex_digits() {
    let id = random_hex_id().unwrap();
    assert_eq!(id.len(), 32);
    assert!(id.chars().all(|c| c.is_ascii_hexdigit() && !c.is_ascii_uppercase()));
}

#[test]
fn random_hex_ids_differ() {
    let a = random_hex_id().unwrap();
    let b = random_hex_id().unwrap();
    assert_ne!(a, b);
}

// ── JSON rendering ─────────────────────────────────────────────

#[test]
fn json_rendering_is_compact() {
    let v = obj(vec![
        ("a", JsonValue::Int(1)),
        ("b", JsonValue::Str("x".to_string())),
        ("c", JsonValue::Arr(vec![JsonValue::Bool(true), JsonValue::Null])),
    ]);
    assert_eq!(json_bytes(&v), b"{\"a\":1,\"b\":\"x\",\"c\":[true,null]}".to_vec());
}

#[test]
fn json_rendering_escapes_strings() {
    let v = JsonValue::Str("he said \"hi\"\\\n".to_string());
    assert_eq!(json_bytes(&v), b"\"he said \\\"hi\\\"\\\\\\n\"".to_vec());
}

#[test]
fn json_rendering_negative_numbers() {
    assert_eq!(json_bytes(&JsonValue::Int(-120)), b"-120".to_vec());
    assert_eq!(json_bytes(&JsonValue::Int(0)), b"0".to_vec());
}

// ── Scenario: specificity ladder ───────────────────────────────

#[test]
fn specificity_ladder_exact_values() {
    assert_eq!(specificity_score("*", "*", "*"), 0);
    assert_eq!(specificity_score("deploy", "*", "*"), 2);
    assert_eq!(specificity_score("deploy", "prod", "*"), 4);
    assert_eq!(specificity_score("deploy", "prod", "agent-1"), 6);
}

// ── Scenario: exact plaintext-secret violations ────────────────

#[test]
fn plaintext_violations_are_exactly_the_two_sensitive_fields() {
    let record = obj(vec![
        ("password", JsonValue::Str("hunter2".to_string())),
        ("email", JsonValue::Str("a@b.com".to_string())),
    ]);
    let violations = validate_no_plaintext_secrets(&record).unwrap_err();
    assert_eq!(violations, vec!["password".to_string(), "email".to_string()]);

    let fixed = obj(vec![
        ("password", JsonValue::Str("enc:xx".to_string())),
        ("email", JsonValue::Str("enc:yy".to_string())),
    ]);
    assert!(validate_no_plaintext_secrets(&fixed).is_ok());
}

// ── Scenario: end-to-end tenant boundary before permissions ────

#[test]
fn contributor_write_own_tenant_succeeds_cross_tenant_fails_first() {
    let claims = TokenClaims {
        tenant_id: "tenant-a".to_string(),
        role: Role::Contributor,
        scoped_permissions: None,
    };
    let own = Resource {
        tenant_id: "tenant-a".to_string(),
        resource_type: "artifact".to_string(),
        resource_id: "x".to_string(),
    };
    assert!(evaluate_authz(&claims, &own, Permission::Write).is_ok());

    let foreign = Resource {
        tenant_id: "tenant-b".to_string(),
        resource_type: "artifact".to_string(),
        resource_id: "x".to_string(),
    };
    // The boundary check comes first: the error is CrossTenantAccess, not
    // PermissionDenied, whatever the role would have allowed.
    match evaluate_authz(&claims, &foreign, Permission::Write).unwrap_err() {
        AuthzError::CrossTenantAccess { requesting_tenant, resource_tenant } => {
            assert_eq!(requesting_tenant, "tenant-a");
            assert_eq!(resource_tenant, "tenant-b");
        }
        other => panic!("expected CrossTenantAccess, got {other:?}"),
    }
}
