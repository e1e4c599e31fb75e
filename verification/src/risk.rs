//! Risk classification: the single source of truth for action severity.
//!
//! The classifier lower-cases the action, the resource and a rendered form of
//! the request context into one haystack and tests keyword membership in four
//! tiers, most severe first; the first matching tier wins and an unmatched
//! action defaults to Medium.

use vstd::prelude::*;
use vstd::string::StringSliceAdditionalSpecFns;
use vstd::string::StringExecFns;
use crate::json::{JsonValue, json_bytes, spec_json_bytes};
use crate::text::{append_bytes, has_sub, has_word, lower_bytes, lower_str_bytes, lower_vec};

verus! {

/// Severity of a governed action, ordered `Low < Medium < High < Critical`.
#[derive(Debug, Clone, Copy, PartialEq, Eq, Structural, PartialOrd, Ord, Hash)]
pub enum RiskLevel {
    Low,
    Medium,
    High,
    Critical,
}

/// Numeric rank of a risk level, used to compare levels in contracts and code.
pub open spec fn spec_risk_rank(r: RiskLevel) -> int {
    match r {
        RiskLevel::Low => 0,
        RiskLevel::Medium => 1,
        RiskLevel::High => 2,
        RiskLevel::Critical => 3,
    }
}

/// Numeric rank of a risk level.
pub fn risk_rank(r: RiskLevel) -> (n: u8)
    ensures
        n as int == spec_risk_rank(r),
{
    match r {
        RiskLevel::Low => 0,
        RiskLevel::Medium => 1,
        RiskLevel::High => 2,
        RiskLevel::Critical => 3,
    }
}

/// The stored label of a risk level.
pub open spec fn spec_risk_label(r: RiskLevel) -> Seq<char> {
    match r {
        RiskLevel::Low => "low"@,
        RiskLevel::Medium => "medium"@,
        RiskLevel::High => "high"@,
        RiskLevel::Critical => "critical"@,
    }
}

/// The stored label of a risk level.
pub fn risk_label(r: RiskLevel) -> (s: &'static str)
    ensures
        s@ == spec_risk_label(r),
{
    match r {
        RiskLevel::Low => "low",
        RiskLevel::Medium => "medium",
        RiskLevel::High => "high",
        RiskLevel::Critical => "critical",
    }
}

/// Keywords whose presence marks an action Critical.
pub open spec fn hay_is_critical(l: Seq<u8>) -> bool {
    ||| has_word(l, "wipe")
    ||| has_word(l, "destroy")
    ||| has_word(l, "terminate")
    ||| has_word(l, "root-key")
    ||| has_word(l, "irreversible")
    ||| has_word(l, "hard-delete")
}

/// Keywords whose presence marks an action High.
pub open spec fn hay_is_high(l: Seq<u8>) -> bool {
    ||| has_word(l, "deploy")
    ||| has_word(l, "delete")
    ||| has_word(l, "drop")
    ||| has_word(l, "credential")
    ||| has_word(l, "secret")
    ||| has_word(l, "production")
    ||| has_word(l, "prod")
    ||| has_word(l, "revoke")
    ||| has_word(l, "merge-main")
    ||| has_word(l, "push-main")
}

/// Keywords whose presence marks an action Medium.
pub open spec fn hay_is_medium(l: Seq<u8>) -> bool {
    ||| has_word(l, "create")
    ||| has_word(l, "update")
    ||| has_word(l, "write")
    ||| has_word(l, "put")
    ||| has_word(l, "patch")
    ||| has_word(l, "commit")
    ||| has_word(l, "index")
}

/// Keywords whose presence marks an action Low.
pub open spec fn hay_is_low(l: Seq<u8>) -> bool {
    ||| has_word(l, "read")
    ||| has_word(l, "get")
    ||| has_word(l, "list")
    ||| has_word(l, "query")
    ||| has_word(l, "search")
    ||| has_word(l, "status")
    ||| has_word(l, "health")
    ||| has_word(l, "trace")
}

/// The classifier's haystack: lower-cased action, resource and rendered
/// context, space-separated.
pub open spec fn spec_risk_haystack(action: Seq<u8>, resource: Seq<u8>, context: Option<
    JsonValue,
>) -> Seq<u8> {
    let ctx = match context {
        Some(v) => spec_json_bytes(v),
        None => Seq::empty(),
    };
    lower_bytes(action) + seq![32u8] + lower_bytes(resource) + seq![32u8] + lower_bytes(ctx)
}

/// Classification of a haystack: the most severe tier with a keyword present
/// wins; with no keyword at all the action counts as Medium.
pub open spec fn spec_classify_hay(l: Seq<u8>) -> RiskLevel {
    if hay_is_critical(l) {
        RiskLevel::Critical
    } else if hay_is_high(l) {
        RiskLevel::High
    } else if hay_is_medium(l) {
        RiskLevel::Medium
    } else if hay_is_low(l) {
        RiskLevel::Low
    } else {
        RiskLevel::Medium
    }
}

/// The risk of an action with its optional resource and context.
pub open spec fn spec_classify_risk(action: Seq<u8>, resource: Seq<u8>, context: Option<
    JsonValue,
>) -> RiskLevel {
    spec_classify_hay(spec_risk_haystack(action, resource, context))
}

/// Classify the risk of a governed action.  Deterministic, case-insensitive
/// and total: every input yields a level.
pub fn classify_risk(action: &str, resource: Option<&str>, context: Option<&JsonValue>) -> (r:
    RiskLevel)
    ensures
        r == spec_classify_risk(
            action.spec_bytes(),
            match resource {
                Some(s) => s.spec_bytes(),
                None => Seq::empty(),
            },
            match context {
                Some(v) => Some(*v),
                None => None,
            },
        ),
{
    let mut hay = lower_str_bytes(action);
    hay.push(32);
    match resource {
        Some(s) => {
            let lowered = lower_str_bytes(s);
            append_bytes(&mut hay, lowered.as_slice());
        },
        None => {
            proof {
                assert(lower_bytes(Seq::<u8>::empty()) =~= Seq::<u8>::empty());
            }
        },
    }
    hay.push(32);
    match context {
        Some(v) => {
            let rendered = json_bytes(v);
            let lowered = lower_vec(rendered.as_slice());
            append_bytes(&mut hay, lowered.as_slice());
        },
        None => {
            proof {
                assert(lower_bytes(Seq::<u8>::empty()) =~= Seq::<u8>::empty());
            }
        },
    }
    proof {
        assert(hay@ =~= spec_risk_haystack(
            action.spec_bytes(),
            match resource {
                Some(s) => s.spec_bytes(),
                None => Seq::empty(),
            },
            match context {
                Some(v) => Some(*v),
                None => None,
            },
        ));
    }
    let h = hay.as_slice();
    if has_sub(h, "wipe".as_bytes()) || has_sub(h, "destroy".as_bytes()) || has_sub(
        h,
        "terminate".as_bytes(),
    ) || has_sub(h, "root-key".as_bytes()) || has_sub(h, "irreversible".as_bytes()) || has_sub(
        h,
        "hard-delete".as_bytes(),
    ) {
        RiskLevel::Critical
    } else if has_sub(h, "deploy".as_bytes()) || has_sub(h, "delete".as_bytes()) || has_sub(
        h,
        "drop".as_bytes(),
    ) || has_sub(h, "credential".as_bytes()) || has_sub(h, "secret".as_bytes()) || has_sub(
        h,
        "production".as_bytes(),
    ) || has_sub(h, "prod".as_bytes()) || has_sub(h, "revoke".as_bytes()) || has_sub(
        h,
        "merge-main".as_bytes(),
    ) || has_sub(h, "push-main".as_bytes()) {
        RiskLevel::High
    } else if has_sub(h, "create".as_bytes()) || has_sub(h, "update".as_bytes()) || has_sub(
        h,
        "write".as_bytes(),
    ) || has_sub(h, "put".as_bytes()) || has_sub(h, "patch".as_bytes()) || has_sub(
        h,
        "commit".as_bytes(),
    ) || has_sub(h, "index".as_bytes()) {
        RiskLevel::Medium
    } else if has_sub(h, "read".as_bytes()) || has_sub(h, "get".as_bytes()) || has_sub(
        h,
        "list".as_bytes(),
    ) || has_sub(h, "query".as_bytes()) || has_sub(h, "search".as_bytes()) || has_sub(
        h,
        "status".as_bytes(),
    ) || has_sub(h, "health".as_bytes()) || has_sub(h, "trace".as_bytes()) {
        RiskLevel::Low
    } else {
        RiskLevel::Medium
    }
}

/// Critical strictly dominates: whenever the haystack of an action holds a
/// Critical keyword, the classification is Critical, whatever High, Medium
/// or Low keywords occur beside it.
pub proof fn lemma_critical_dominates(action: Seq<u8>, resource: Seq<u8>, context: Option<
    JsonValue,
>)
    requires
        hay_is_critical(spec_risk_haystack(action, resource, context)),
    ensures
        spec_classify_risk(action, resource, context) == RiskLevel::Critical,
{
}

/// Risk classification is case-insensitive: two actions and resources that
/// agree after ASCII lowercasing classify identically under the same
/// context.
pub proof fn lemma_classify_risk_case_insensitive(
    action_a: Seq<u8>,
    resource_a: Seq<u8>,
    action_b: Seq<u8>,
    resource_b: Seq<u8>,
    context: Option<JsonValue>,
)
    requires
        lower_bytes(action_a) == lower_bytes(action_b),
        lower_bytes(resource_a) == lower_bytes(resource_b),
    ensures
        spec_classify_risk(action_a, resource_a, context) == spec_classify_risk(
            action_b,
            resource_b,
            context,
        ),
{
    assert(spec_risk_haystack(action_a, resource_a, context) == spec_risk_haystack(
        action_b,
        resource_b,
        context,
    ));
}

/// The coarse action class used to pick a rate-limit rule: `deploy` and
/// `delete` are recognised from the action text, anything else maps from the
/// risk level.
pub open spec fn spec_action_class(action: Seq<u8>, risk: RiskLevel) -> Seq<char> {
    let l = lower_bytes(action);
    if has_word(l, "deploy") {
        "deploy"@
    } else if has_word(l, "delete") || has_word(l, "drop") {
        "delete"@
    } else {
        match risk {
            RiskLevel::Low => "read"@,
            RiskLevel::Medium => "write"@,
            RiskLevel::High => "high_risk"@,
            RiskLevel::Critical => "critical"@,
        }
    }
}

/// Derive the action class from the action string and its risk.
pub fn classify_action_class(action: &str, risk: RiskLevel) -> (r: String)
    ensures
        r@ == spec_action_class(action.spec_bytes(), risk),
{
    let lowered = lower_str_bytes(action);
    let l = lowered.as_slice();
    if has_sub(l, "deploy".as_bytes()) {
        String::from_str("deploy")
    } else if has_sub(l, "delete".as_bytes()) || has_sub(l, "drop".as_bytes()) {
        String::from_str("delete")
    } else {
        match risk {
            RiskLevel::Low => String::from_str("read"),
            RiskLevel::Medium => String::from_str("write"),
            RiskLevel::High => String::from_str("high_risk"),
            RiskLevel::Critical => String::from_str("critical"),
        }
    }
}

} // verus!
