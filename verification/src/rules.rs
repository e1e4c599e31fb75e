//! Versioned policy-bundle rules and the glob matcher they use.
//!
//! Bundle rules are curated with explicit priorities and arrive already
//! sorted, so the first matching rule in list order wins.  Patterns are
//! matched case-insensitively; `*` in a pattern matches any run of bytes.

use vstd::prelude::*;
use vstd::string::StringSliceAdditionalSpecFns;
use vstd::string::StringExecFns;
use crate::risk::{RiskLevel, spec_risk_rank, risk_rank};
use crate::text::{
    bytes_eq,
    contains_byte,
    find_sub,
    lower_bytes,
    lower_str_bytes,
    match_at,
    str_bytes,
};

verus! {

/// What a matched rule decides.
#[derive(Debug, Clone, Copy, PartialEq, Eq, Structural)]
pub enum RuleEffect {
    Allow,
    Deny,
    Escalate,
}

/// One rule of a policy bundle.
#[derive(Debug, Clone)]
pub struct PolicyRule {
    pub id: String,
    pub effect: RuleEffect,
    pub action: String,
    pub resource: String,
    pub actor: String,
    pub min_risk: Option<RiskLevel>,
    pub reason: String,
}

/// A default request budget for one action class.
#[derive(Debug, Clone)]
pub struct RateLimitRule {
    pub action_class: String,
    pub window_seconds: i64,
    pub max_requests: i64,
}

/// An immutable, versioned set of rules and rate limits; exactly one version
/// is active at a time.
#[derive(Debug, Clone)]
pub struct PolicyBundle {
    pub version: String,
    pub rules: Vec<PolicyRule>,
    pub rate_limits: Vec<RateLimitRule>,
}

/// The pattern holds at least one `*`.
pub open spec fn has_star(p: Seq<u8>) -> bool {
    exists|i: int| 0 <= i < p.len() && p[i] == 42
}

/// The non-empty runs between `*` bytes, scanned left to right with the run
/// collected so far in `cur`.
pub open spec fn star_parts_acc(s: Seq<u8>, cur: Seq<u8>) -> Seq<Seq<u8>>
    decreases s.len(),
{
    if s.len() == 0 {
        if cur.len() == 0 {
            Seq::empty()
        } else {
            seq![cur]
        }
    } else if s[0] == 42 {
        (if cur.len() == 0 {
            Seq::empty()
        } else {
            seq![cur]
        }) + star_parts_acc(s.drop_first(), Seq::empty())
    } else {
        star_parts_acc(s.drop_first(), cur.push(s[0]))
    }
}

/// The non-empty runs of a pattern between its `*` bytes.
pub open spec fn star_parts(s: Seq<u8>) -> Seq<Seq<u8>> {
    star_parts_acc(s, Seq::empty())
}

/// The parts from index `k` on occur in `v` in order, the first at offset
/// `from` or later, each next one after the end of the one before it.
pub open spec fn parts_match_from(v: Seq<u8>, parts: Seq<Seq<u8>>, k: int, from: int) -> bool
    decreases parts.len() - k,
{
    if k < 0 || k >= parts.len() {
        true
    } else {
        exists|p: int|
            from <= p && match_at(v, parts[k], p) && parts_match_from(
                v,
                parts,
                k + 1,
                p + parts[k].len(),
            )
    }
}

/// The glob semantics of a rule pattern: with no `*` the lower-cased pattern
/// must equal the lower-cased value; with stars, every run between stars must
/// occur in the value in order.  `"*"` alone therefore matches everything.
pub open spec fn glob_match(pattern: Seq<u8>, value: Seq<u8>) -> bool {
    let p = lower_bytes(pattern);
    let v = lower_bytes(value);
    if has_star(p) {
        parts_match_from(v, star_parts(p), 0, 0)
    } else {
        p == v
    }
}

/// An ordered embedding that starts at `b` also starts at any earlier offset.
proof fn lemma_parts_mono(v: Seq<u8>, parts: Seq<Seq<u8>>, k: int, a: int, b: int)
    requires
        a <= b,
        parts_match_from(v, parts, k, b),
    ensures
        parts_match_from(v, parts, k, a),
{
    if 0 <= k < parts.len() {
        let p = choose|p: int|
            b <= p && match_at(v, parts[k], p) && parts_match_from(v, parts, k + 1, p
                + parts[k].len());
        assert(a <= p && match_at(v, parts[k], p) && parts_match_from(
            v,
            parts,
            k + 1,
            p + parts[k].len(),
        ));
    }
}

/// Taking the leftmost occurrence of the current part never rules out an
/// embedding: matching from `from` is equivalent to matching the rest after
/// the leftmost occurrence `f`.
proof fn lemma_greedy_step(v: Seq<u8>, parts: Seq<Seq<u8>>, k: int, from: int, f: int)
    requires
        0 <= k < parts.len(),
        from <= f,
        match_at(v, parts[k], f),
        forall|q: int| from <= q < f ==> !match_at(v, parts[k], q),
    ensures
        parts_match_from(v, parts, k, from) == parts_match_from(v, parts, k + 1, f
            + parts[k].len()),
{
    if parts_match_from(v, parts, k, from) {
        let p = choose|p: int|
            from <= p && match_at(v, parts[k], p) && parts_match_from(v, parts, k + 1, p
                + parts[k].len());
        assert(f <= p);
        lemma_parts_mono(v, parts, k + 1, f + parts[k].len(), p + parts[k].len());
    }
    if parts_match_from(v, parts, k + 1, f + parts[k].len()) {
        assert(from <= f && match_at(v, parts[k], f) && parts_match_from(v, parts, k + 1, f
            + parts[k].len()));
    }
}

/// The views of a vector of byte vectors.
pub open spec fn views_of(s: Seq<Vec<u8>>) -> Seq<Seq<u8>> {
    s.map_values(|x: Vec<u8>| x@)
}

/// Split a pattern into its non-empty runs between `*` bytes.
fn split_star_parts(p: &[u8]) -> (r: Vec<Vec<u8>>)
    ensures
        views_of(r@) == star_parts(p@),
{
    let mut parts: Vec<Vec<u8>> = Vec::new();
    let mut cur: Vec<u8> = Vec::new();
    let mut i: usize = 0;
    proof {
        assert(p@.skip(0) =~= p@);
        assert(views_of(parts@) + star_parts_acc(p@, cur@) =~= star_parts(p@));
    }
    while i < p.len()
        invariant
            i <= p@.len(),
            star_parts(p@) == views_of(parts@) + star_parts_acc(p@.skip(i as int), cur@),
        decreases p@.len() - i,
    {
        proof {
            assert(p@.skip(i as int)[0] == p@[i as int]);
            assert(p@.skip(i as int).drop_first() =~= p@.skip(i + 1));
        }
        let b = p[i];
        if b == 42 {
            if cur.len() > 0 {
                let ghost old_parts = parts@;
                let ghost old_cur = cur@;
                let done = cur;
                cur = Vec::new();
                parts.push(done);
                proof {
                    assert(views_of(parts@) =~= views_of(old_parts).push(old_cur));
                    assert(views_of(old_parts).push(old_cur) =~= views_of(old_parts) + seq![
                        old_cur,
                    ]);
                    assert(star_parts(p@) == views_of(parts@) + star_parts_acc(
                        p@.skip(i + 1),
                        cur@,
                    ));
                }
            } else {
                proof {
                    assert(cur@ =~= Seq::<u8>::empty());
                    assert(Seq::<Seq<u8>>::empty() + star_parts_acc(p@.skip(i + 1), cur@)
                        =~= star_parts_acc(p@.skip(i + 1), cur@));
                    assert(star_parts(p@) == views_of(parts@) + star_parts_acc(
                        p@.skip(i + 1),
                        cur@,
                    ));
                }
            }
        } else {
            cur.push(b);
            assert(star_parts(p@) == views_of(parts@) + star_parts_acc(p@.skip(i + 1), cur@));
        }
        i = i + 1;
    }
    proof {
        assert(p@.skip(p@.len() as int) =~= Seq::<u8>::empty());
    }
    if cur.len() > 0 {
        let ghost old_parts = parts@;
        let ghost old_cur = cur@;
        parts.push(cur);
        proof {
            assert(views_of(parts@) =~= views_of(old_parts).push(old_cur));
            assert(views_of(old_parts).push(old_cur) =~= views_of(old_parts) + seq![old_cur]);
        }
    }
    proof {
        assert(views_of(parts@) =~= star_parts(p@));
    }
    parts
}

/// Case-insensitive glob match of `value` against `pattern`.
pub fn wildcard_match(pattern: &str, value: &str) -> (r: bool)
    ensures
        r == glob_match(pattern.spec_bytes(), value.spec_bytes()),
{
    let p = lower_str_bytes(pattern);
    let v = lower_str_bytes(value);
    if !contains_byte(p.as_slice(), 42) {
        return bytes_eq(p.as_slice(), v.as_slice());
    }
    let parts = split_star_parts(p.as_slice());
    let ghost pseq = star_parts(p@);
    let vlen = v.len();
    let mut pos: usize = 0;
    let mut k: usize = 0;
    while k < parts.len()
        invariant
            parts@.len() == pseq.len(),
            forall|i: int| 0 <= i < pseq.len() ==> (#[trigger] parts@[i])@ == pseq[i],
            k <= pseq.len(),
            v@.len() == vlen,
            glob_match(pattern.spec_bytes(), value.spec_bytes()) == parts_match_from(
                v@,
                pseq,
                k as int,
                pos as int,
            ),
        decreases pseq.len() - k,
    {
        match find_sub(v.as_slice(), parts[k].as_slice(), pos) {
            Some(f) => {
                proof {
                    lemma_greedy_step(v@, pseq, k as int, pos as int, f as int);
                }
                pos = f + parts[k].len();
            },
            None => {
                proof {
                    assert(!parts_match_from(v@, pseq, k as int, pos as int)) by {
                        if parts_match_from(v@, pseq, k as int, pos as int) {
                            let p0 = choose|p0: int|
                                pos <= p0 && match_at(v@, pseq[k as int], p0) && parts_match_from(
                                    v@,
                                    pseq,
                                    k + 1,
                                    p0 + pseq[k as int].len(),
                                );
                        }
                    }
                }
                return false;
            },
        }
        k = k + 1;
    }
    true
}

/// The bare `*` pattern matches every value, the empty one included.
pub proof fn lemma_star_matches_anything(value: Seq<u8>)
    ensures
        glob_match("*".spec_bytes(), value),
{
    reveal_strlit("*");
    assert(vstd::string::is_ascii("*")) by {
        assert("*"@.len() == 1 && "*"@[0] == '*');
    }
    crate::text::lemma_ascii_literal_bytes("*");
    let p = "*".spec_bytes();
    assert(p =~= seq![42u8]);
    assert(lower_bytes(p) =~= seq![42u8]);
    assert(lower_bytes(p)[0] == 42u8);
    assert(has_star(lower_bytes(p)));
    let lp = lower_bytes(p);
    assert(star_parts_acc(lp, Seq::empty()) == Seq::<Seq<u8>>::empty() + star_parts_acc(
        lp.drop_first(),
        Seq::empty(),
    ));
    assert(lp.drop_first() =~= Seq::<u8>::empty());
    assert(star_parts_acc(Seq::empty(), Seq::empty()) =~= Seq::<Seq<u8>>::empty());
    assert(star_parts(lp) =~= Seq::<Seq<u8>>::empty());
    assert(parts_match_from(lower_bytes(value), star_parts(lp), 0, 0));
}

/// A bundle rule applies to the query: its minimum risk, when set, is at or
/// below the query risk, and all three patterns match their query fields.
pub open spec fn rule_matches(
    rule: PolicyRule,
    action: Seq<u8>,
    resource: Seq<u8>,
    actor: Seq<u8>,
    risk: RiskLevel,
) -> bool {
    &&& (rule.min_risk matches Some(m) ==> spec_risk_rank(risk) >= spec_risk_rank(m))
    &&& glob_match(str_bytes(rule.action@), action)
    &&& glob_match(str_bytes(rule.resource@), resource)
    &&& glob_match(str_bytes(rule.actor@), actor)
}

/// Index of the first rule in list order that applies to the query, if any.
/// Bundle rules carry authoritative priorities and arrive sorted, so the
/// first match wins and no re-ranking happens here.
pub fn first_matching_rule(
    rules: &Vec<PolicyRule>,
    action: &str,
    resource: &str,
    actor: &str,
    risk: RiskLevel,
) -> (r: Option<usize>)
    ensures
        match r {
            Some(i) => {
                &&& i < rules@.len()
                &&& rule_matches(
                    rules@[i as int],
                    action.spec_bytes(),
                    resource.spec_bytes(),
                    actor.spec_bytes(),
                    risk,
                )
                &&& forall|j: int|
                    0 <= j < i ==> !rule_matches(
                        #[trigger] rules@[j],
                        action.spec_bytes(),
                        resource.spec_bytes(),
                        actor.spec_bytes(),
                        risk,
                    )
            },
            None => forall|j: int|
                0 <= j < rules@.len() ==> !rule_matches(
                    #[trigger] rules@[j],
                    action.spec_bytes(),
                    resource.spec_bytes(),
                    actor.spec_bytes(),
                    risk,
                ),
        },
{
    let mut i: usize = 0;
    while i < rules.len()
        invariant
            i <= rules@.len(),
            forall|j: int|
                0 <= j < i ==> !rule_matches(
                    #[trigger] rules@[j],
                    action.spec_bytes(),
                    resource.spec_bytes(),
                    actor.spec_bytes(),
                    risk,
                ),
        decreases rules@.len() - i,
    {
        let rule = &rules[i];
        let risk_ok = match rule.min_risk {
            Some(m) => risk_rank(risk) >= risk_rank(m),
            None => true,
        };
        if risk_ok && wildcard_match(rule.action.as_str(), action) && wildcard_match(
            rule.resource.as_str(),
            resource,
        ) && wildcard_match(rule.actor.as_str(), actor) {
            return Some(i);
        }
        i = i + 1;
    }
    None
}

/// A rate-limit rule applies to an action class when its pattern matches.
pub open spec fn rl_matches(rule: RateLimitRule, action_class: Seq<u8>) -> bool {
    glob_match(str_bytes(rule.action_class@), action_class)
}

/// The built-in request budget for a risk level: 240 reads, 120 writes, 30
/// high-risk and 10 critical requests per 60-second window.
pub open spec fn is_default_rate_limit(r: RateLimitRule, risk: RiskLevel) -> bool {
    &&& r.window_seconds == 60
    &&& r.action_class@ == match risk {
        RiskLevel::Low => "read"@,
        RiskLevel::Medium => "write"@,
        RiskLevel::High => "high_risk"@,
        RiskLevel::Critical => "critical"@,
    }
    &&& r.max_requests == match risk {
        RiskLevel::Low => 240int,
        RiskLevel::Medium => 120int,
        RiskLevel::High => 30int,
        RiskLevel::Critical => 10int,
    }
}

/// The built-in request budget for one risk level.
pub fn default_rate_limit_for(risk: RiskLevel) -> (r: RateLimitRule)
    ensures
        is_default_rate_limit(r, risk),
{
    match risk {
        RiskLevel::Low => RateLimitRule {
            action_class: String::from_str("read"),
            window_seconds: 60,
            max_requests: 240,
        },
        RiskLevel::Medium => RateLimitRule {
            action_class: String::from_str("write"),
            window_seconds: 60,
            max_requests: 120,
        },
        RiskLevel::High => RateLimitRule {
            action_class: String::from_str("high_risk"),
            window_seconds: 60,
            max_requests: 30,
        },
        RiskLevel::Critical => RateLimitRule {
            action_class: String::from_str("critical"),
            window_seconds: 60,
            max_requests: 10,
        },
    }
}

/// The rate-limit rule in force for an action class: the first configured
/// rule whose pattern matches the class, or the risk-derived default.
pub fn effective_rate_limit(
    rate_limits: &Vec<RateLimitRule>,
    action_class: &str,
    risk: RiskLevel,
) -> (r: RateLimitRule)
    ensures
        ({
            let ac = action_class.spec_bytes();
            if exists|i: int| 0 <= i < rate_limits@.len() && rl_matches(#[trigger] rate_limits@[i], ac) {
                exists|i: int|
                    {
                        &&& 0 <= i < rate_limits@.len()
                        &&& rl_matches(#[trigger] rate_limits@[i], ac)
                        &&& forall|j: int| 0 <= j < i ==> !rl_matches(#[trigger] rate_limits@[j], ac)
                        &&& r.action_class@ == rate_limits@[i].action_class@
                        &&& r.window_seconds == rate_limits@[i].window_seconds
                        &&& r.max_requests == rate_limits@[i].max_requests
                    }
            } else {
                is_default_rate_limit(r, risk)
            }
        }),
{
    let mut i: usize = 0;
    while i < rate_limits.len()
        invariant
            i <= rate_limits@.len(),
            forall|j: int|
                0 <= j < i ==> !rl_matches(#[trigger] rate_limits@[j], action_class.spec_bytes()),
        decreases rate_limits@.len() - i,
    {
        let rule = &rate_limits[i];
        if wildcard_match(rule.action_class.as_str(), action_class) {
            return RateLimitRule {
                action_class: rule.action_class.clone(),
                window_seconds: rule.window_seconds,
                max_requests: rule.max_requests,
            };
        }
        i = i + 1;
    }
    default_rate_limit_for(risk)
}

/// The shape of the built-in fallback bundle: deny credential operations at
/// High risk and above, escalate production deploys, allow reads, and budget
/// the four common action classes.
pub open spec fn is_builtin_bundle(b: PolicyBundle) -> bool {
    &&& b.version@ == "builtin-2026-02-22"@
    &&& b.rules@.len() == 3
    &&& b.rules@[0].id@ == "deny-credential-exfiltration"@
    &&& b.rules@[0].effect == RuleEffect::Deny
    &&& b.rules@[0].action@ == "*credential*"@
    &&& b.rules@[0].resource@ == "*"@
    &&& b.rules@[0].actor@ == "*"@
    &&& b.rules@[0].min_risk == Some(RiskLevel::High)
    &&& b.rules@[0].reason@ == "credential operations require dedicated secure channel"@
    &&& b.rules@[1].id@ == "escalate-prod-deploy"@
    &&& b.rules@[1].effect == RuleEffect::Escalate
    &&& b.rules@[1].action@ == "*deploy*"@
    &&& b.rules@[1].resource@ == "*prod*"@
    &&& b.rules@[1].actor@ == "*"@
    &&& b.rules@[1].min_risk == Some(RiskLevel::High)
    &&& b.rules@[1].reason@ == "production deploy requires human-in-the-loop approval"@
    &&& b.rules@[2].id@ == "allow-read"@
    &&& b.rules@[2].effect == RuleEffect::Allow
    &&& b.rules@[2].action@ == "*read*"@
    &&& b.rules@[2].resource@ == "*"@
    &&& b.rules@[2].actor@ == "*"@
    &&& b.rules@[2].min_risk == Some(RiskLevel::Low)
    &&& b.rules@[2].reason@ == "read-only actions are auto-approved"@
    &&& b.rate_limits@.len() == 4
    &&& b.rate_limits@[0].action_class@ == "read"@ && b.rate_limits@[0].window_seconds == 60
        && b.rate_limits@[0].max_requests == 240
    &&& b.rate_limits@[1].action_class@ == "write"@ && b.rate_limits@[1].window_seconds == 60
        && b.rate_limits@[1].max_requests == 120
    &&& b.rate_limits@[2].action_class@ == "deploy"@ && b.rate_limits@[2].window_seconds == 60
        && b.rate_limits@[2].max_requests == 30
    &&& b.rate_limits@[3].action_class@ == "delete"@ && b.rate_limits@[3].window_seconds == 60
        && b.rate_limits@[3].max_requests == 20
}

/// The built-in fallback bundle, used whenever no published bundle can be
/// loaded.
pub fn default_bundle() -> (r: PolicyBundle)
    ensures
        is_builtin_bundle(r),
{
    let mut rules: Vec<PolicyRule> = Vec::new();
    rules.push(
        PolicyRule {
            id: String::from_str("deny-credential-exfiltration"),
            effect: RuleEffect::Deny,
            action: String::from_str("*credential*"),
            resource: String::from_str("*"),
            actor: String::from_str("*"),
            min_risk: Some(RiskLevel::High),
            reason: String::from_str("credential operations require dedicated secure channel"),
        },
    );
    rules.push(
        PolicyRule {
            id: String::from_str("escalate-prod-deploy"),
            effect: RuleEffect::Escalate,
            action: String::from_str("*deploy*"),
            resource: String::from_str("*prod*"),
            actor: String::from_str("*"),
            min_risk: Some(RiskLevel::High),
            reason: String::from_str("production deploy requires human-in-the-loop approval"),
        },
    );
    rules.push(
        PolicyRule {
            id: String::from_str("allow-read"),
            effect: RuleEffect::Allow,
            action: String::from_str("*read*"),
            resource: String::from_str("*"),
            actor: String::from_str("*"),
            min_risk: Some(RiskLevel::Low),
            reason: String::from_str("read-only actions are auto-approved"),
        },
    );
    let mut rate_limits: Vec<RateLimitRule> = Vec::new();
    rate_limits.push(
        RateLimitRule {
            action_class: String::from_str("read"),
            window_seconds: 60,
            max_requests: 240,
        },
    );
    rate_limits.push(
        RateLimitRule {
            action_class: String::from_str("write"),
            window_seconds: 60,
            max_requests: 120,
        },
    );
    rate_limits.push(
        RateLimitRule {
            action_class: String::from_str("deploy"),
            window_seconds: 60,
            max_requests: 30,
        },
    );
    rate_limits.push(
        RateLimitRule {
            action_class: String::from_str("delete"),
            window_seconds: 60,
            max_requests: 20,
        },
    );
    PolicyBundle { version: String::from_str("builtin-2026-02-22"), rules, rate_limits }
}

} // verus!
