//! Risk classification, action classes, wildcard matching and bundle rules.

use data_fabric::json::JsonValue;
use data_fabric::risk::{classify_action_class, classify_risk, RiskLevel};
use data_fabric::rules::{
    default_bundle, default_rate_limit_for, first_matching_rule, wildcard_match, PolicyRule,
    RuleEffect,
};

fn ctx_obj(fields: Vec<(&str, JsonValue)>) -> JsonValue {
    JsonValue::Obj(fields.into_iter().map(|(k, v)| (k.to_string(), v)).collect())
}

// ── classify_risk ──────────────────────────────────────────────

#[test]
fn risk_classification_matches_expected() {
    assert_eq!(classify_risk("read_status", Some("repo"), None), RiskLevel::Low);
    assert_eq!(classify_risk("update_config", Some("repo"), None), RiskLevel::Medium);
    assert_eq!(classify_risk("deploy", Some("prod"), None), RiskLevel::High);
    assert_eq!(classify_risk("hard-delete", Some("prod"), None), RiskLevel::Critical);
}

#[test]
fn risk_critical_keywords() {
    for keyword in ["wipe", "destroy", "terminate", "root-key", "irreversible"] {
        assert_eq!(
            classify_risk(keyword, None, None),
            RiskLevel::Critical,
            "expected Critical for action '{keyword}'"
        );
    }
}

#[test]
fn risk_high_keywords() {
    for keyword in [
        "deploy", "delete", "drop", "credential", "secret", "production", "prod", "revoke",
        "merge-main", "push-main",
    ] {
        assert_eq!(
            classify_risk(keyword, None, None),
            RiskLevel::High,
            "expected High for action '{keyword}'"
        );
    }
}

#[test]
fn risk_medium_keywords() {
    for keyword in ["create", "update", "write", "put", "patch", "commit", "index"] {
        assert_eq!(
            classify_risk(keyword, None, None),
            RiskLevel::Medium,
            "expected Medium for action '{keyword}'"
        );
    }
}

#[test]
fn risk_low_keywords() {
    for keyword in ["read", "get", "list", "query", "search", "status", "health", "trace"] {
        assert_eq!(
            classify_risk(keyword, None, None),
            RiskLevel::Low,
            "expected Low for action '{keyword}'"
        );
    }
}

#[test]
fn risk_unknown_action_defaults_to_medium() {
    assert_eq!(classify_risk("frobnicate", None, None), RiskLevel::Medium);
}

#[test]
fn risk_is_case_insensitive() {
    assert_eq!(classify_risk("DEPLOY", None, None), RiskLevel::High);
    assert_eq!(classify_risk("Read", None, None), RiskLevel::Low);
    assert_eq!(classify_risk("HARD-DELETE", None, None), RiskLevel::Critical);
}

#[test]
fn risk_picks_up_keywords_from_resource() {
    assert_eq!(classify_risk("unknown-action", Some("production-db"), None), RiskLevel::High);
}

#[test]
fn risk_picks_up_keywords_from_context() {
    let ctx = ctx_obj(vec![("env", JsonValue::Str("production".to_string()))]);
    assert_eq!(classify_risk("run-job", None, Some(&ctx)), RiskLevel::High);
}

#[test]
fn risk_critical_overrides_high() {
    // "hard-delete" is Critical, "prod" would be High: Critical wins.
    assert_eq!(classify_risk("hard-delete", Some("prod"), None), RiskLevel::Critical);
}

// ── RiskLevel ordering ─────────────────────────────────────────

#[test]
fn risk_level_ordering() {
    assert!(RiskLevel::Low < RiskLevel::Medium);
    assert!(RiskLevel::Medium < RiskLevel::High);
    assert!(RiskLevel::High < RiskLevel::Critical);
}

// ── classify_action_class ──────────────────────────────────────

#[test]
fn action_class_deploy() {
    assert_eq!(classify_action_class("deploy-prod", RiskLevel::High), "deploy");
}

#[test]
fn action_class_delete() {
    assert_eq!(classify_action_class("delete-user", RiskLevel::High), "delete");
    assert_eq!(classify_action_class("drop-table", RiskLevel::High), "delete");
}

#[test]
fn action_class_falls_back_to_risk() {
    assert_eq!(classify_action_class("frobnicate", RiskLevel::Low), "read");
    assert_eq!(classify_action_class("frobnicate", RiskLevel::Medium), "write");
    assert_eq!(classify_action_class("frobnicate", RiskLevel::High), "high_risk");
    assert_eq!(classify_action_class("frobnicate", RiskLevel::Critical), "critical");
}

// ── default_rate_limit_for ─────────────────────────────────────

#[test]
fn default_rate_limits_scale_with_risk() {
    let low = default_rate_limit_for(RiskLevel::Low);
    let med = default_rate_limit_for(RiskLevel::Medium);
    let high = default_rate_limit_for(RiskLevel::High);
    let crit = default_rate_limit_for(RiskLevel::Critical);

    assert!(low.max_requests > med.max_requests);
    assert!(med.max_requests > high.max_requests);
    assert!(high.max_requests > crit.max_requests);
}

#[test]
fn default_rate_limit_action_classes() {
    assert_eq!(default_rate_limit_for(RiskLevel::Low).action_class, "read");
    assert_eq!(default_rate_limit_for(RiskLevel::Medium).action_class, "write");
    assert_eq!(default_rate_limit_for(RiskLevel::High).action_class, "high_risk");
    assert_eq!(default_rate_limit_for(RiskLevel::Critical).action_class, "critical");
}

// ── wildcard_match ─────────────────────────────────────────────

#[test]
fn wildcard_matching_works() {
    assert!(wildcard_match("*deploy*", "safe_deploy_prod"));
    assert!(wildcard_match("agent-*", "agent-1"));
    assert!(!wildcard_match("agent-*", "service-1"));
}

#[test]
fn wildcard_star_matches_everything() {
    assert!(wildcard_match("*", "anything"));
    assert!(wildcard_match("*", ""));
}

#[test]
fn wildcard_exact_match_no_star() {
    assert!(wildcard_match("hello", "hello"));
    assert!(!wildcard_match("hello", "world"));
}

#[test]
fn wildcard_case_insensitive() {
    assert!(wildcard_match("DEPLOY*", "deploy-prod"));
    assert!(wildcard_match("*PROD", "staging-prod"));
}

#[test]
fn wildcard_multiple_stars() {
    assert!(wildcard_match("*deploy*prod*", "safe_deploy_to_prod_env"));
    assert!(!wildcard_match("*deploy*prod*", "safe_stage_to_dev_env"));
}

#[test]
fn wildcard_empty_pattern_and_value() {
    assert!(wildcard_match("", ""));
    assert!(!wildcard_match("", "nonempty"));
}

// ── first_matching_rule ────────────────────────────────────────

fn rule(id: &str, effect: RuleEffect, action: &str, actor: &str, min_risk: Option<RiskLevel>, reason: &str) -> PolicyRule {
    PolicyRule {
        id: id.to_string(),
        effect,
        action: action.to_string(),
        resource: "*".to_string(),
        actor: actor.to_string(),
        min_risk,
        reason: reason.to_string(),
    }
}

#[test]
fn first_matching_rule_matches_action_wildcard() {
    let rules = vec![rule("deny-all-deploys", RuleEffect::Deny, "*deploy*", "*", None, "no deploys")];
    let matched = first_matching_rule(&rules, "deploy-prod", "", "user-1", RiskLevel::High);
    assert_eq!(rules[matched.unwrap()].id, "deny-all-deploys");
}

#[test]
fn first_matching_rule_skips_below_min_risk() {
    let rules = vec![rule(
        "high-only",
        RuleEffect::Deny,
        "*",
        "*",
        Some(RiskLevel::High),
        "only high risk",
    )];
    // Low risk must not match a rule with min_risk = High.
    assert!(first_matching_rule(&rules, "read-file", "", "user-1", RiskLevel::Low).is_none());
    // High risk matches.
    assert!(first_matching_rule(&rules, "read-file", "", "user-1", RiskLevel::High).is_some());
}

#[test]
fn first_matching_rule_returns_first_match() {
    let rules = vec![
        rule("first", RuleEffect::Allow, "*", "*", None, "first rule"),
        rule("second", RuleEffect::Deny, "*", "*", None, "second rule"),
    ];
    let matched = first_matching_rule(&rules, "anything", "", "anyone", RiskLevel::Medium);
    assert_eq!(rules[matched.unwrap()].id, "first");
}

#[test]
fn first_matching_rule_filters_by_actor() {
    let rules = vec![rule("admin-only", RuleEffect::Allow, "*", "admin-*", None, "admin only")];
    assert!(first_matching_rule(&rules, "read", "", "user-1", RiskLevel::Low).is_none());
    assert!(first_matching_rule(&rules, "read", "", "admin-bob", RiskLevel::Low).is_some());
}

#[test]
fn first_matching_rule_no_rules_returns_none() {
    let rules: Vec<PolicyRule> = Vec::new();
    assert!(first_matching_rule(&rules, "read", "", "user-1", RiskLevel::Low).is_none());
}

// ── default_bundle ─────────────────────────────────────────────

#[test]
fn default_bundle_has_expected_structure() {
    let bundle = default_bundle();
    assert!(!bundle.version.is_empty());
    assert!(!bundle.rules.is_empty());
    assert!(!bundle.rate_limits.is_empty());

    // The known rule IDs exist.
    let rule_ids: Vec<&str> = bundle.rules.iter().map(|r| r.id.as_str()).collect();
    assert!(rule_ids.contains(&"deny-credential-exfiltration"));
    assert!(rule_ids.contains(&"escalate-prod-deploy"));
    assert!(rule_ids.contains(&"allow-read"));
}
