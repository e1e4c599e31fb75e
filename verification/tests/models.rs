//! Small record-surface helpers: defaults and names.

use data_fabric::integrations::IntegrationTarget;
use data_fabric::memory::{default_gc_limit, default_token_budget, default_top_k};
use data_fabric::rate::RateLimitError;
use data_fabric::requests::{default_risk_level, default_wildcard};

#[test]
fn integration_target_names() {
    assert_eq!(IntegrationTarget::Oxidizedgraph.as_str(), "oxidizedgraph");
    assert_eq!(IntegrationTarget::Aivcs.as_str(), "aivcs");
    assert_eq!(IntegrationTarget::LlamaRs.as_str(), "llama_rs");
}

#[test]
fn memory_defaults() {
    assert_eq!(default_top_k(), 8);
    assert_eq!(default_token_budget(), 4096);
    assert_eq!(default_gc_limit(), 1000);
}

#[test]
fn rule_field_defaults() {
    assert_eq!(default_wildcard(), "*");
    assert_eq!(default_risk_level(), "read");
}

#[test]
fn rate_limit_error_messages() {
    let e = RateLimitError::Exceeded { tenant_id: "t1".to_string(), limit: 10 };
    assert_eq!(e.message(), "tenant t1: rate limit exceeded (10 rpm)");
    let c = RateLimitError::CircuitOpen { tenant_id: "t1".to_string(), until_ms: 230000 };
    assert!(c.message().contains("230000"));
}
