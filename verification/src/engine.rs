//! The policy-decision pipeline: from a classified, rate-checked request to
//! a recorded verdict.
//!
//! The surrounding service loads the active bundle, increments the durable
//! counter and persists the outcome; everything that decides lives here and
//! is pure.

use vstd::prelude::*;
use vstd::string::StringSliceAdditionalSpecFns;
use vstd::string::StringExecFns;
use crate::json::{JsonValue, clone_fields, clone_json, json_same};
use crate::risk::{RiskLevel, spec_risk_label, spec_risk_rank, risk_label, risk_rank};
use crate::rules::{PolicyBundle, RuleEffect, first_matching_rule, rule_matches};
use crate::text::str_eq;

verus! {

/// A policy check to decide: the governed action, who asks, what it touches,
/// and any structured context.
#[derive(Debug, Clone)]
pub struct PolicyCheckRequest {
    pub action: String,
    pub actor: String,
    pub resource: Option<String>,
    pub context: Option<JsonValue>,
    pub run_id: Option<String>,
}

/// The audit record of one policy check, appended once per check and
/// immutable after creation.
#[derive(Debug, Clone)]
pub struct Decision {
    pub decision_id: String,
    pub decision: String,
    pub reason: String,
    pub risk_level: RiskLevel,
    pub policy_version: String,
    pub matched_rule: Option<String>,
    pub escalation_id: Option<String>,
    pub rate_limited: bool,
}

/// A pending human-review ticket, created only when a check escalates.
#[derive(Debug, Clone)]
pub struct Escalation {
    pub id: String,
    pub decision_id: String,
    pub action: String,
    pub actor: String,
    pub resource: Option<String>,
    pub risk_level: RiskLevel,
    pub status: String,
    pub context: Option<JsonValue>,
    pub created_at: String,
}

/// What the rule stage of one check decided.
#[derive(Debug, Clone)]
pub struct PolicyOutcome {
    pub verdict: RuleEffect,
    pub reason: String,
    pub matched_rule: Option<String>,
    pub rate_limited: bool,
}

/// The wire label of a verdict.
pub open spec fn spec_verdict_label(effect: RuleEffect) -> Seq<char> {
    match effect {
        RuleEffect::Allow => "allow"@,
        RuleEffect::Deny => "deny"@,
        RuleEffect::Escalate => "escalate"@,
    }
}

/// The stored label of a verdict.
pub fn verdict_label(effect: RuleEffect) -> (r: String)
    ensures
        r@ == spec_verdict_label(effect),
{
    match effect {
        RuleEffect::Allow => String::from_str("allow"),
        RuleEffect::Deny => String::from_str("deny"),
        RuleEffect::Escalate => String::from_str("escalate"),
    }
}

/// Decide the verdict of one check after the rate limiter has spoken.
///
/// A rate-limited check escalates without consulting the rules.  Otherwise
/// the first matching bundle rule decides; with no match, High and Critical
/// risk escalate for want of an explicit policy and anything else is
/// auto-approved.
pub fn policy_outcome(
    bundle: &PolicyBundle,
    action: &str,
    resource: &str,
    actor: &str,
    risk: RiskLevel,
    exceeded: bool,
) -> (r: PolicyOutcome)
    ensures
        r.rate_limited == exceeded,
        (exceeded ==> r.verdict == RuleEffect::Escalate && r.reason@
            == "rate limit exceeded for actor/action class"@ && r.matched_rule is None),
        (!exceeded ==> {
            let a = action.spec_bytes();
            let res = resource.spec_bytes();
            let act = actor.spec_bytes();
            if exists|i: int|
                0 <= i < bundle.rules@.len() && rule_matches(
                    #[trigger] bundle.rules@[i],
                    a,
                    res,
                    act,
                    risk,
                ) {
                exists|i: int|
                    #![auto]
                    {
                        &&& 0 <= i < bundle.rules@.len()
                        &&& rule_matches(bundle.rules@[i], a, res, act, risk)
                        &&& forall|j: int|
                            0 <= j < i ==> !rule_matches(
                                #[trigger] bundle.rules@[j],
                                a,
                                res,
                                act,
                                risk,
                            )
                        &&& r.verdict == bundle.rules@[i].effect
                        &&& r.reason@ == bundle.rules@[i].reason@
                        &&& (r.matched_rule matches Some(id) && id@ == bundle.rules@[i].id@)
                    }
            } else if spec_risk_rank(risk) >= 2 {
                &&& r.verdict == RuleEffect::Escalate
                &&& r.reason@ == "high-risk action requires explicit policy match"@
                &&& r.matched_rule is None
            } else {
                &&& r.verdict == RuleEffect::Allow
                &&& r.reason@ == "auto-approved low-risk operation"@
                &&& r.matched_rule is None
            }
        }),
{
    if exceeded {
        return PolicyOutcome {
            verdict: RuleEffect::Escalate,
            reason: String::from_str("rate limit exceeded for actor/action class"),
            matched_rule: None,
            rate_limited: true,
        };
    }
    match first_matching_rule(&bundle.rules, action, resource, actor, risk) {
        Some(i) => {
            let rule = &bundle.rules[i];
            PolicyOutcome {
                verdict: rule.effect,
                reason: rule.reason.clone(),
                matched_rule: Some(rule.id.clone()),
                rate_limited: false,
            }
        },
        None => {
            if risk_rank(risk) >= 2 {
                PolicyOutcome {
                    verdict: RuleEffect::Escalate,
                    reason: String::from_str("high-risk action requires explicit policy match"),
                    matched_rule: None,
                    rate_limited: false,
                }
            } else {
                PolicyOutcome {
                    verdict: RuleEffect::Allow,
                    reason: String::from_str("auto-approved low-risk operation"),
                    matched_rule: None,
                    rate_limited: false,
                }
            }
        },
    }
}

/// Assemble the audit record of one check.  Every check produces exactly one
/// of these, whatever the verdict.
pub fn make_decision(
    decision_id: String,
    outcome: PolicyOutcome,
    risk: RiskLevel,
    policy_version: String,
    escalation_id: Option<String>,
) -> (r: Decision)
    ensures
        r.decision_id@ == decision_id@,
        r.decision@ == spec_verdict_label(outcome.verdict),
        r.reason@ == outcome.reason@,
        r.risk_level == risk,
        r.policy_version@ == policy_version@,
        r.matched_rule == outcome.matched_rule,
        r.escalation_id == escalation_id,
        r.rate_limited == outcome.rate_limited,
{
    let decision = verdict_label(outcome.verdict);
    Decision {
        decision_id,
        decision,
        reason: outcome.reason,
        risk_level: risk,
        policy_version,
        matched_rule: outcome.matched_rule,
        escalation_id,
        rate_limited: outcome.rate_limited,
    }
}

/// Open a pending escalation ticket linked to a decision.  Tickets are born
/// in status `pending`; their later lifecycle belongs to an external
/// approval queue, not to this core.
pub fn new_escalation(
    id: String,
    decision_id: String,
    action: String,
    actor: String,
    resource: Option<String>,
    risk_level: RiskLevel,
    context: Option<JsonValue>,
    created_at: String,
) -> (r: Escalation)
    ensures
        r.id@ == id@,
        r.decision_id@ == decision_id@,
        r.action@ == action@,
        r.actor@ == actor@,
        r.resource == resource,
        r.risk_level == risk_level,
        r.status@ == "pending"@,
        r.created_at@ == created_at@,
{
    Escalation {
        id,
        decision_id,
        action,
        actor,
        resource,
        risk_level,
        status: String::from_str("pending"),
        context,
        created_at,
    }
}

/// The number of fields the caller's context contributes to the audit
/// record: an object keeps its own fields, any other value is wrapped under
/// one `context` key, and an absent context contributes nothing.
pub open spec fn context_base_len(context: Option<JsonValue>) -> int {
    match context {
        Some(c) => match c {
            JsonValue::Obj(f) => f@.len() as int,
            _ => 1,
        },
        None => 0,
    }
}

/// Build the audit context stored with a decision: the caller's context
/// first (wrapped under a `context` key when it is not an object), then the
/// governance metadata of the check, so that the stored record can always be
/// traced back to its tenant, bundle version, matched rule and escalation.
pub fn decision_context(context: Option<&JsonValue>, tenant_id: &str, decision: &Decision) -> (r:
    JsonValue)
    ensures
        (r matches JsonValue::Obj(out) && {
            let base = context_base_len(match context {
                Some(c) => Some(*c),
                None => None,
            });
            &&& out@.len() == base + 6
            &&& (match context {
                Some(c) => match c {
                    JsonValue::Obj(f) => forall|i: int|
                        0 <= i < f@.len() ==> (#[trigger] out@[i]).0 == f@[i].0 && json_same(
                            f@[i].1,
                            out@[i].1,
                        ),
                    _ => out@[0].0@ == "context"@ && json_same(*c, out@[0].1),
                },
                None => true,
            })
            &&& out@[base].0@ == "tenant_id"@ && (out@[base].1 matches JsonValue::Str(t) && t@
                == tenant_id@)
            &&& out@[base + 1].0@ == "risk_level"@ && (out@[base + 1].1 matches JsonValue::Str(t)
                && t@ == spec_risk_label(decision.risk_level))
            &&& out@[base + 2].0@ == "policy_version"@ && (out@[base + 2].1 matches JsonValue::Str(
                t,
            ) && t@ == decision.policy_version@)
            &&& out@[base + 3].0@ == "matched_rule"@ && (match decision.matched_rule {
                Some(id) => out@[base + 3].1 matches JsonValue::Str(t) && t@ == id@,
                None => out@[base + 3].1 is Null,
            })
            &&& out@[base + 4].0@ == "escalation_id"@ && (match decision.escalation_id {
                Some(id) => out@[base + 4].1 matches JsonValue::Str(t) && t@ == id@,
                None => out@[base + 4].1 is Null,
            })
            &&& out@[base + 5].0@ == "rate_limited"@ && out@[base + 5].1 == JsonValue::Bool(
                decision.rate_limited,
            )
        }),
{
    let mut out: Vec<(String, JsonValue)> = match context {
        Some(c) => match c {
            JsonValue::Obj(fields) => clone_fields(fields),
            other => {
                let mut wrapped: Vec<(String, JsonValue)> = Vec::new();
                wrapped.push((String::from_str("context"), clone_json(other)));
                wrapped
            },
        },
        None => Vec::new(),
    };
    out.push(
        (String::from_str("tenant_id"), JsonValue::Str(String::from_str(tenant_id))),
    );
    out.push(
        (
            String::from_str("risk_level"),
            JsonValue::Str(String::from_str(risk_label(decision.risk_level))),
        ),
    );
    out.push(
        (String::from_str("policy_version"), JsonValue::Str(decision.policy_version.clone())),
    );
    let matched = match &decision.matched_rule {
        Some(id) => JsonValue::Str(id.clone()),
        None => JsonValue::Null,
    };
    out.push((String::from_str("matched_rule"), matched));
    let escalation = match &decision.escalation_id {
        Some(id) => JsonValue::Str(id.clone()),
        None => JsonValue::Null,
    };
    out.push((String::from_str("escalation_id"), escalation));
    out.push((String::from_str("rate_limited"), JsonValue::Bool(decision.rate_limited)));
    JsonValue::Obj(out)
}

/// Resolve the version a published bundle must carry: an empty version in
/// the bundle inherits the path version; a non-empty one must equal it, and
/// any other combination rejects the publish.
pub fn resolve_bundle_version(bundle_version: &str, path_version: &str) -> (r: Option<String>)
    ensures
        (bundle_version@.len() == 0 ==> (r matches Some(v) && v@ == path_version@)),
        (bundle_version@.len() > 0 && bundle_version@ == path_version@ ==> (r matches Some(v) && v@
            == path_version@)),
        (bundle_version@.len() > 0 && bundle_version@ != path_version@ ==> r is None),
{
    proof {
        crate::text::lemma_str_bytes_empty(bundle_version@);
    }
    if bundle_version.as_bytes().len() == 0 {
        Some(String::from_str(path_version))
    } else if str_eq(bundle_version, path_version) {
        Some(String::from_str(path_version))
    } else {
        None
    }
}

} // verus!
