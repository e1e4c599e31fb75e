//! Ad hoc per-tenant rules and their specificity-scored matcher.
//!
//! Tenant rules are CRUD-managed and carry no authoritative priority, so a
//! match is ranked by specificity: two points per exact field, one point per
//! wildcarded-but-non-`*` field, zero for a bare `*`; the highest score wins
//! and ties break in list order.  Patterns here are exact, `prefix:` or
//! `prefix:*`, matched case-sensitively.

use vstd::prelude::*;
use vstd::string::StringSliceAdditionalSpecFns;
use vstd::string::StringExecFns;
use crate::rules::has_star;
use crate::text::{
    bytes_eq,
    contains_byte,
    contains_seq,
    has_sub,
    lower_bytes,
    lower_str_bytes,
    prefix_of,
    starts_with_bytes,
    str_bytes,
};

verus! {

/// One mutable per-tenant policy rule, as stored in the rule table.
#[derive(Debug, Clone)]
pub struct TenantRule {
    pub id: String,
    pub name: String,
    pub action_pattern: String,
    pub resource_pattern: String,
    pub actor_pattern: String,
    pub risk_level: String,
    pub verdict: String,
    pub reason: String,
    pub priority: i32,
    pub enabled: bool,
    pub created_at: String,
    pub updated_at: String,
}

/// `s` with every trailing colon removed.
pub open spec fn trim_colons(s: Seq<u8>) -> Seq<u8>
    decreases s.len(),
{
    if s.len() > 0 && s.last() == 58 {
        trim_colons(s.drop_last())
    } else {
        s
    }
}

/// Tenant-rule pattern semantics: `*` matches anything; `prefix:` matches
/// the literal prefix or the bare prefix without its colons; `prefix:*`
/// matches values starting with `prefix:` or equal to `prefix`; anything
/// else matches only itself.
pub open spec fn spec_pattern_matches(p: Seq<u8>, v: Seq<u8>) -> bool {
    if p == seq![42u8] {
        true
    } else if p.len() > 0 && p.last() == 58 {
        let prefix = p.drop_last();
        prefix_of(prefix, v) || v == trim_colons(prefix)
    } else if p.len() >= 2 && p[p.len() - 2] == 58 && p.last() == 42 {
        let prefix = p.subrange(0, p.len() - 2);
        prefix_of(prefix + seq![58u8], v) || v == prefix
    } else {
        p == v
    }
}

/// Match a value against a tenant-rule pattern.
pub fn pattern_matches(pattern: &str, value: &str) -> (r: bool)
    ensures
        r == spec_pattern_matches(pattern.spec_bytes(), value.spec_bytes()),
{
    let p = pattern.as_bytes();
    let v = value.as_bytes();
    if p.len() == 1 && p[0] == 42 {
        assert(p@ =~= seq![42u8]);
        return true;
    }
    assert(p@ != seq![42u8]) by {
        if p@ == seq![42u8] {
            assert(p@.len() == 1 && p@[0] == 42);
        }
    }
    if p.len() > 0 && p[p.len() - 1] == 58 {
        let prefix = &p[0..p.len() - 1];
        assert(prefix@ =~= p@.drop_last());
        if starts_with_bytes(v, prefix) {
            return true;
        }
        let mut t: usize = prefix.len();
        proof {
            assert(prefix@.subrange(0, prefix@.len() as int) =~= prefix@);
        }
        while t > 0 && prefix[t - 1] == 58
            invariant
                t <= prefix@.len(),
                trim_colons(prefix@) == trim_colons(prefix@.subrange(0, t as int)),
            decreases t,
        {
            proof {
                assert(prefix@.subrange(0, t as int).drop_last() =~= prefix@.subrange(0, t - 1));
                assert(prefix@.subrange(0, t as int).last() == prefix@[t - 1]);
            }
            t = t - 1;
        }
        proof {
            assert(trim_colons(prefix@.subrange(0, t as int)) == prefix@.subrange(0, t as int));
        }
        let trimmed = &prefix[0..t];
        assert(trimmed@ =~= prefix@.subrange(0, t as int));
        return bytes_eq(v, trimmed);
    }
    if p.len() >= 2 && p[p.len() - 2] == 58 && p[p.len() - 1] == 42 {
        let prefix = &p[0..p.len() - 2];
        assert(prefix@ =~= p@.subrange(0, p@.len() - 2));
        let with_colon = v.len() > prefix.len() && starts_with_bytes(v, prefix) && v[prefix.len()]
            == 58;
        proof {
            if with_colon {
                assert(v@.subrange(0, prefix@.len() as int + 1) =~= prefix@ + seq![58u8]);
                assert(prefix_of(prefix@ + seq![58u8], v@));
            }
            if prefix_of(prefix@ + seq![58u8], v@) {
                assert(v@.subrange(0, prefix@.len() as int + 1)[prefix@.len() as int] == 58);
                assert(v@[prefix@.len() as int] == 58);
                assert(v@.subrange(0, prefix@.len() as int) =~= v@.subrange(
                    0,
                    prefix@.len() as int + 1,
                ).subrange(0, prefix@.len() as int));
                assert((prefix@ + seq![58u8]).subrange(0, prefix@.len() as int) =~= prefix@);
                assert(prefix_of(prefix@, v@));
            }
        }
        if with_colon {
            return true;
        }
        return bytes_eq(v, prefix);
    }
    bytes_eq(p, v)
}

/// Specificity of one pattern field: two points when exact, one when
/// wildcarded but not bare `*`, none for `*` itself.
pub open spec fn field_score(p: Seq<u8>) -> int {
    if p == seq![42u8] {
        0
    } else if has_star(p) {
        1
    } else {
        2
    }
}

/// Specificity of one pattern field.
fn field_score_exec(p: &str) -> (r: u32)
    ensures
        r == field_score(p.spec_bytes()),
{
    let b = p.as_bytes();
    if b.len() == 1 && b[0] == 42 {
        assert(b@ =~= seq![42u8]);
        0
    } else {
        proof {
            if b@ == seq![42u8] {
                assert(b@.len() == 1 && b@[0] == 42);
            }
        }
        if contains_byte(b, 42) {
            1
        } else {
            2
        }
    }
}

/// Specificity of a whole rule pattern triple: exact fields outrank
/// wildcarded ones, which outrank bare `*`.
pub fn specificity_score(action: &str, resource: &str, actor: &str) -> (r: u32)
    ensures
        r == field_score(action.spec_bytes()) + field_score(resource.spec_bytes()) + field_score(
            actor.spec_bytes(),
        ),
{
    field_score_exec(action) + field_score_exec(resource) + field_score_exec(actor)
}

/// An enabled tenant rule applies to the query when all three patterns match.
pub open spec fn tr_matches(rule: TenantRule, action: Seq<u8>, resource: Seq<u8>, actor: Seq<
    u8,
>) -> bool {
    &&& rule.enabled
    &&& spec_pattern_matches(str_bytes(rule.action_pattern@), action)
    &&& spec_pattern_matches(str_bytes(rule.resource_pattern@), resource)
    &&& spec_pattern_matches(str_bytes(rule.actor_pattern@), actor)
}

/// Specificity of a tenant rule.
pub open spec fn tr_score(rule: TenantRule) -> int {
    field_score(str_bytes(rule.action_pattern@)) + field_score(str_bytes(rule.resource_pattern@))
        + field_score(str_bytes(rule.actor_pattern@))
}

/// Risk bucket of an action by naming convention, as a code:
/// 0 read, 1 destructive, 2 irreversible, 3 write (the default).
pub open spec fn spec_action_risk_code(a: Seq<u8>) -> int {
    let l = lower_bytes(a);
    if prefix_of("read".spec_bytes(), l) || prefix_of("get".spec_bytes(), l) || prefix_of(
        "list".spec_bytes(),
        l,
    ) || prefix_of("view".spec_bytes(), l) || prefix_of("describe".spec_bytes(), l) {
        0
    } else if prefix_of("delete".spec_bytes(), l) || prefix_of("drop".spec_bytes(), l)
        || prefix_of("destroy".spec_bytes(), l) || prefix_of("purge".spec_bytes(), l) {
        1
    } else if prefix_of("deploy:prod".spec_bytes(), l) || contains_seq(
        l,
        "irreversible".spec_bytes(),
    ) || prefix_of("revoke".spec_bytes(), l) {
        2
    } else {
        3
    }
}

/// The name of an action's risk bucket.
pub open spec fn spec_action_risk(a: Seq<u8>) -> Seq<char> {
    let code = spec_action_risk_code(a);
    if code == 0 {
        "read"@
    } else if code == 1 {
        "destructive"@
    } else if code == 2 {
        "irreversible"@
    } else {
        "write"@
    }
}

/// Risk bucket of an action, as a code.
fn action_risk_code(action: &str) -> (r: u8)
    ensures
        r as int == spec_action_risk_code(action.spec_bytes()),
{
    let lowered = lower_str_bytes(action);
    let l = lowered.as_slice();
    if starts_with_bytes(l, "read".as_bytes()) || starts_with_bytes(l, "get".as_bytes())
        || starts_with_bytes(l, "list".as_bytes()) || starts_with_bytes(l, "view".as_bytes())
        || starts_with_bytes(l, "describe".as_bytes()) {
        0
    } else if starts_with_bytes(l, "delete".as_bytes()) || starts_with_bytes(l, "drop".as_bytes())
        || starts_with_bytes(l, "destroy".as_bytes()) || starts_with_bytes(
        l,
        "purge".as_bytes(),
    ) {
        1
    } else if starts_with_bytes(l, "deploy:prod".as_bytes()) || has_sub(
        l,
        "irreversible".as_bytes(),
    ) || starts_with_bytes(l, "revoke".as_bytes()) {
        2
    } else {
        3
    }
}

/// Classify an action's risk bucket by naming convention.
pub fn classify_action_risk(action: &str) -> (r: String)
    ensures
        r@ == spec_action_risk(action.spec_bytes()),
{
    let code = action_risk_code(action);
    if code == 0 {
        String::from_str("read")
    } else if code == 1 {
        String::from_str("destructive")
    } else if code == 2 {
        String::from_str("irreversible")
    } else {
        String::from_str("write")
    }
}

/// The best-matching rule wins: no other match scores higher, and no earlier
/// match scores as high.
pub open spec fn is_best_match(
    rules: Seq<TenantRule>,
    action: Seq<u8>,
    resource: Seq<u8>,
    actor: Seq<u8>,
    i: int,
) -> bool {
    &&& 0 <= i < rules.len()
    &&& tr_matches(rules[i], action, resource, actor)
    &&& forall|j: int|
        0 <= j < rules.len() && tr_matches(#[trigger] rules[j], action, resource, actor)
            ==> tr_score(rules[j]) <= tr_score(rules[i])
    &&& forall|j: int|
        0 <= j < i && tr_matches(#[trigger] rules[j], action, resource, actor) ==> tr_score(
            rules[j],
        ) < tr_score(rules[i])
}

/// Evaluate a policy check against the tenant's own rules.
///
/// Returns `(verdict, reason, risk_level, matched_rule_id)`.  The
/// best-matching enabled rule decides; with no match, `read` and `write`
/// actions are default-allowed while `destructive` and `irreversible`
/// actions escalate for want of an explicit policy.
pub fn evaluate_tenant_rules(rules: &Vec<TenantRule>, action: &str, resource: &str, actor: &str) -> (r: (
    String,
    String,
    String,
    Option<String>,
))
    ensures
        ({
            let a = action.spec_bytes();
            let res = resource.spec_bytes();
            let act = actor.spec_bytes();
            if exists|i: int|
                0 <= i < rules@.len() && tr_matches(#[trigger] rules@[i], a, res, act) {
                exists|i: int|
                    #![auto]
                    {
                        &&& is_best_match(rules@, a, res, act, i)
                        &&& r.0@ == rules@[i].verdict@
                        &&& r.1@ == rules@[i].reason@
                        &&& r.2@ == rules@[i].risk_level@
                        &&& (r.3 matches Some(id) && id@ == rules@[i].id@)
                    }
            } else {
                let code = spec_action_risk_code(a);
                &&& r.3 is None
                &&& r.2@ == spec_action_risk(a)
                &&& (code == 1 || code == 2 ==> r.0@ == "escalate"@ && r.1@
                    == "no matching rule; high-risk action requires explicit policy"@)
                &&& (code == 0 ==> r.0@ == "allow"@ && r.1@
                    == "no matching rule; read actions default-allowed"@)
                &&& (code == 3 ==> r.0@ == "allow"@ && r.1@
                    == "no matching rule; write actions default-allowed"@)
            }
        }),
{
    let ghost a = action.spec_bytes();
    let ghost res = resource.spec_bytes();
    let ghost act = actor.spec_bytes();
    let mut have_best: bool = false;
    let mut best_i: usize = 0;
    let mut best_score: u32 = 0;
    let mut i: usize = 0;
    while i < rules.len()
        invariant
            i <= rules@.len(),
            a == action.spec_bytes(),
            res == resource.spec_bytes(),
            act == actor.spec_bytes(),
            !have_best ==> forall|j: int|
                0 <= j < i ==> !tr_matches(#[trigger] rules@[j], a, res, act),
            have_best ==> {
                &&& best_i < i <= rules@.len()
                &&& tr_matches(rules@[best_i as int], a, res, act)
                &&& best_score == tr_score(rules@[best_i as int])
                &&& forall|j: int|
                    0 <= j < i && tr_matches(#[trigger] rules@[j], a, res, act) ==> tr_score(
                        rules@[j],
                    ) <= best_score
                &&& forall|j: int|
                    0 <= j < best_i && tr_matches(#[trigger] rules@[j], a, res, act) ==> tr_score(
                        rules@[j],
                    ) < best_score
            },
        decreases rules@.len() - i,
    {
        let rule = &rules[i];
        if rule.enabled && pattern_matches(rule.action_pattern.as_str(), action) && pattern_matches(
            rule.resource_pattern.as_str(),
            resource,
        ) && pattern_matches(rule.actor_pattern.as_str(), actor) {
            let score = specificity_score(
                rule.action_pattern.as_str(),
                rule.resource_pattern.as_str(),
                rule.actor_pattern.as_str(),
            );
            if !have_best || score > best_score {
                have_best = true;
                best_i = i;
                best_score = score;
            }
        }
        i = i + 1;
    }
    if have_best {
        proof {
            assert(is_best_match(rules@, a, res, act, best_i as int));
        }
        let rule = &rules[best_i];
        (
            rule.verdict.clone(),
            rule.reason.clone(),
            rule.risk_level.clone(),
            Some(rule.id.clone()),
        )
    } else {
        let code = action_risk_code(action);
        let risk = classify_action_risk(action);
        if code == 1 || code == 2 {
            (
                String::from_str("escalate"),
                String::from_str("no matching rule; high-risk action requires explicit policy"),
                risk,
                None,
            )
        } else if code == 0 {
            (
                String::from_str("allow"),
                String::from_str("no matching rule; read actions default-allowed"),
                risk,
                None,
            )
        } else {
            (
                String::from_str("allow"),
                String::from_str("no matching rule; write actions default-allowed"),
                risk,
                None,
            )
        }
    }
}

} // verus!
