//! Wire-shaped request and response records of the governed API.

use vstd::prelude::*;
use vstd::string::StringExecFns;

verus! {

/// Acknowledgement of a created entity.
#[derive(Debug, Clone, PartialEq, Eq)]
pub struct Created {
    pub id: String,
    pub status: String,
}

/// Acknowledgement of an ingested event.
#[derive(Debug, Clone, PartialEq, Eq)]
pub struct EventAck {
    pub id: String,
    pub event_type: String,
    pub accepted: bool,
}

/// The outward form of a policy decision, with its risk and matched rule.
#[derive(Debug, Clone, PartialEq, Eq)]
pub struct PolicyCheckResponse {
    pub id: String,
    pub action: String,
    pub decision: String,
    pub reason: String,
    pub risk_level: String,
    pub matched_rule: Option<String>,
}

/// Request to create a per-tenant policy rule.
#[derive(Debug, Clone, PartialEq, Eq)]
pub struct CreatePolicyRule {
    pub name: String,
    pub action_pattern: String,
    pub resource_pattern: String,
    pub actor_pattern: String,
    pub risk_level: String,
    pub verdict: String,
    pub reason: String,
    pub priority: i32,
}

/// The outward form of a stored policy rule.
#[derive(Debug, Clone, PartialEq, Eq)]
pub struct PolicyRuleResponse {
    pub id: String,
    pub name: String,
    pub action_pattern: String,
    pub resource_pattern: String,
    pub actor_pattern: String,
    pub risk_level: String,
    pub verdict: String,
    pub reason: String,
    pub priority: i32,
    pub enabled: bool,
    pub created_at: String,
    pub updated_at: String,
}

/// Partial update of a stored policy rule; absent fields stay unchanged.
#[derive(Debug, Clone, PartialEq, Eq)]
pub struct UpdatePolicyRule {
    pub name: Option<String>,
    pub action_pattern: Option<String>,
    pub resource_pattern: Option<String>,
    pub actor_pattern: Option<String>,
    pub risk_level: Option<String>,
    pub verdict: Option<String>,
    pub reason: Option<String>,
    pub priority: Option<i32>,
    pub enabled: Option<bool>,
}

/// Request to provision a tenant.
#[derive(Debug, Clone, PartialEq, Eq)]
pub struct TenantProvisionRequest {
    pub tenant_id: String,
    pub display_name: String,
    pub plan: String,
    pub quota_runs_per_minute: i64,
}

/// Acknowledgement of a provisioned tenant.
#[derive(Debug, Clone, PartialEq, Eq)]
pub struct TenantProvisionResponse {
    pub tenant_id: String,
    pub status: String,
    pub provisioned_in_ms: i64,
}

/// Default pattern for an absent rule field: match everything.
pub fn default_wildcard() -> (r: String)
    ensures
        r@ == "*"@,
{
    String::from_str("*")
}

/// Default risk level for an absent rule field.
pub fn default_risk_level() -> (r: String)
    ensures
        r@ == "read"@,
{
    String::from_str("read")
}

} // verus!
