//! Tenant-rule pattern matching, specificity scoring and evaluation.

use data_fabric::tenant_rules::{
    classify_action_risk, evaluate_tenant_rules, pattern_matches, specificity_score, TenantRule,
};

fn tenant_rule(id: &str, action: &str, resource: &str, actor: &str, verdict: &str) -> TenantRule {
    TenantRule {
        id: id.to_string(),
        name: id.to_string(),
        action_pattern: action.to_string(),
        resource_pattern: resource.to_string(),
        actor_pattern: actor.to_string(),
        risk_level: "write".to_string(),
        verdict: verdict.to_string(),
        reason: format!("rule {id}"),
        priority: 0,
        enabled: true,
        created_at: "2026-01-01T00:00:00Z".to_string(),
        updated_at: "2026-01-01T00:00:00Z".to_string(),
    }
}

// ── Pattern matching ───────────────────────────────────────────

#[test]
fn wildcard_matches_anything() {
    assert!(pattern_matches("*", "deploy"));
    assert!(pattern_matches("*", ""));
    assert!(pattern_matches("*", "anything:at:all"));
}

#[test]
fn exact_match() {
    assert!(pattern_matches("deploy", "deploy"));
    assert!(!pattern_matches("deploy", "delete"));
    assert!(!pattern_matches("deploy", "deploy:staging"));
}

#[test]
fn prefix_wildcard_match() {
    assert!(pattern_matches("deploy:*", "deploy:staging"));
    assert!(pattern_matches("deploy:*", "deploy:prod"));
    assert!(pattern_matches("deploy:*", "deploy"));
    assert!(!pattern_matches("deploy:*", "delete:staging"));
}

// ── Specificity scoring ────────────────────────────────────────

#[test]
fn all_wildcards_score_zero() {
    assert_eq!(specificity_score("*", "*", "*"), 0);
}

#[test]
fn exact_fields_score_higher() {
    assert!(specificity_score("deploy", "*", "*") > specificity_score("*", "*", "*"));
    assert!(specificity_score("deploy", "prod", "*") > specificity_score("deploy", "*", "*"));
    assert!(
        specificity_score("deploy", "prod", "agent-1") > specificity_score("deploy", "prod", "*")
    );
}

#[test]
fn prefix_scores_between_wildcard_and_exact() {
    let prefix = specificity_score("deploy:*", "*", "*");
    let exact = specificity_score("deploy", "*", "*");
    let wildcard = specificity_score("*", "*", "*");
    assert!(prefix > wildcard);
    assert!(exact > prefix);
}

// ── Risk classification by naming convention ───────────────────

#[test]
fn read_actions_classified() {
    assert_eq!(classify_action_risk("read:config"), "read");
    assert_eq!(classify_action_risk("get:status"), "read");
    assert_eq!(classify_action_risk("list:agents"), "read");
    assert_eq!(classify_action_risk("view:logs"), "read");
    assert_eq!(classify_action_risk("describe:resources"), "read");
}

#[test]
fn destructive_actions_classified() {
    assert_eq!(classify_action_risk("delete:resource"), "destructive");
    assert_eq!(classify_action_risk("drop:table"), "destructive");
    assert_eq!(classify_action_risk("destroy:cluster"), "destructive");
    assert_eq!(classify_action_risk("purge:cache"), "destructive");
}

#[test]
fn irreversible_actions_classified() {
    assert_eq!(classify_action_risk("deploy:prod"), "irreversible");
    assert_eq!(classify_action_risk("revoke:token"), "irreversible");
}

#[test]
fn write_is_default() {
    assert_eq!(classify_action_risk("update:config"), "write");
    assert_eq!(classify_action_risk("create:resource"), "write");
    assert_eq!(classify_action_risk("deploy:staging"), "write");
}

// ── Evaluation by specificity ──────────────────────────────────

#[test]
fn most_specific_rule_wins() {
    let rules = vec![
        tenant_rule("broad", "*", "*", "*", "allow"),
        tenant_rule("specific", "deploy:prod", "cluster-1", "agent-1", "deny"),
    ];
    let (verdict, _reason, _risk, matched) =
        evaluate_tenant_rules(&rules, "deploy:prod", "cluster-1", "agent-1");
    assert_eq!(verdict, "deny");
    assert_eq!(matched.unwrap(), "specific");
}

#[test]
fn ties_break_in_list_order() {
    let rules = vec![
        tenant_rule("first", "deploy:prod", "*", "*", "allow"),
        tenant_rule("second", "deploy:prod", "*", "*", "deny"),
    ];
    let (verdict, _reason, _risk, matched) =
        evaluate_tenant_rules(&rules, "deploy:prod", "x", "y");
    assert_eq!(verdict, "allow");
    assert_eq!(matched.unwrap(), "first");
}

#[test]
fn disabled_rules_never_match() {
    let mut rule = tenant_rule("off", "*", "*", "*", "deny");
    rule.enabled = false;
    let rules = vec![rule];
    let (verdict, _reason, risk, matched) = evaluate_tenant_rules(&rules, "read:x", "r", "a");
    assert_eq!(verdict, "allow");
    assert_eq!(risk, "read");
    assert!(matched.is_none());
}

#[test]
fn fallback_read_default_allowed() {
    let rules: Vec<TenantRule> = Vec::new();
    let (verdict, reason, risk, matched) = evaluate_tenant_rules(&rules, "read:cfg", "r", "a");
    assert_eq!(verdict, "allow");
    assert_eq!(reason, "no matching rule; read actions default-allowed");
    assert_eq!(risk, "read");
    assert!(matched.is_none());
}

#[test]
fn fallback_write_default_allowed() {
    let rules: Vec<TenantRule> = Vec::new();
    let (verdict, reason, risk, _matched) = evaluate_tenant_rules(&rules, "update:cfg", "r", "a");
    assert_eq!(verdict, "allow");
    assert_eq!(reason, "no matching rule; write actions default-allowed");
    assert_eq!(risk, "write");
}

#[test]
fn fallback_destructive_escalates() {
    let rules: Vec<TenantRule> = Vec::new();
    let (verdict, reason, risk, _matched) = evaluate_tenant_rules(&rules, "drop:table", "r", "a");
    assert_eq!(verdict, "escalate");
    assert_eq!(reason, "no matching rule; high-risk action requires explicit policy");
    assert_eq!(risk, "destructive");
}

#[test]
fn fallback_irreversible_escalates() {
    let rules: Vec<TenantRule> = Vec::new();
    let (verdict, _reason, risk, _matched) = evaluate_tenant_rules(&rules, "revoke:key", "r", "a");
    assert_eq!(verdict, "escalate");
    assert_eq!(risk, "irreversible");
}
