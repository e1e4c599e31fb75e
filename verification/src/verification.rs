//! Verification gates and replay-drift bookkeeping for release promotion.

use vstd::prelude::*;
use vstd::string::StringExecFns;
use crate::orchestration::ReplayStep;
use crate::text::str_eq;

verus! {

/// Outcome of the three promotion gates for one candidate.
#[derive(Debug, Clone)]
pub struct VerificationGateResult {
    pub tests_passed: bool,
    pub policy_approved: bool,
    pub provenance_complete: bool,
    pub eligible_for_promotion: bool,
    pub confidence_score: u8,
    pub failed_gates: Vec<String>,
}

/// The names of the failed gates, in gate order.
pub open spec fn spec_failed_gates(tests_passed: bool, policy_approved: bool,
    provenance_complete: bool) -> Seq<Seq<char>> {
    (if tests_passed {
        Seq::<Seq<char>>::empty()
    } else {
        seq!["tests_passed"@]
    }) + (if policy_approved {
        Seq::<Seq<char>>::empty()
    } else {
        seq!["policy_approved"@]
    }) + (if provenance_complete {
        Seq::<Seq<char>>::empty()
    } else {
        seq!["provenance_complete"@]
    })
}

/// Evaluate the three promotion gates: passing tests are worth 40 points of
/// confidence, policy approval 35 and complete provenance 25; promotion
/// needs all three.
pub fn evaluate_verification_gates(
    tests_passed: bool,
    policy_approved: bool,
    provenance_complete: bool,
) -> (r: VerificationGateResult)
    ensures
        r.tests_passed == tests_passed,
        r.policy_approved == policy_approved,
        r.provenance_complete == provenance_complete,
        r.eligible_for_promotion == (tests_passed && policy_approved && provenance_complete),
        r.confidence_score as int == (if tests_passed {
            40int
        } else {
            0int
        }) + (if policy_approved {
            35int
        } else {
            0int
        }) + (if provenance_complete {
            25int
        } else {
            0int
        }),
        r.failed_gates.deep_view() == spec_failed_gates(
            tests_passed,
            policy_approved,
            provenance_complete,
        ),
{
    let mut confidence_score: u8 = 0;
    let mut failed_gates: Vec<String> = Vec::new();

    if tests_passed {
        confidence_score = confidence_score + 40;
    } else {
        failed_gates.push(String::from_str("tests_passed"));
    }

    if policy_approved {
        confidence_score = confidence_score + 35;
    } else {
        failed_gates.push(String::from_str("policy_approved"));
    }

    if provenance_complete {
        confidence_score = confidence_score + 25;
    } else {
        failed_gates.push(String::from_str("provenance_complete"));
    }

    proof {
        assert(failed_gates.deep_view() =~= spec_failed_gates(
            tests_passed,
            policy_approved,
            provenance_complete,
        ));
    }
    VerificationGateResult {
        tests_passed,
        policy_approved,
        provenance_complete,
        eligible_for_promotion: tests_passed && policy_approved && provenance_complete,
        confidence_score,
        failed_gates,
    }
}

/// Two optional strings hold the same text.
pub open spec fn opt_str_same(a: Option<String>, b: Option<String>) -> bool {
    match (a, b) {
        (Some(x), Some(y)) => x@ == y@,
        (None, None) => true,
        _ => false,
    }
}

/// The steps at index `i` disagree: one side is missing, or the event type,
/// node or actor differ.
pub open spec fn steps_disagree(a: Seq<ReplayStep>, b: Seq<ReplayStep>, i: int) -> bool {
    if 0 <= i < a.len() && 0 <= i < b.len() {
        ||| a[i].event_type@ != b[i].event_type@
        ||| !opt_str_same(a[i].node_id, b[i].node_id)
        ||| !opt_str_same(a[i].actor, b[i].actor)
    } else {
        true
    }
}

/// How many of the first `n` positions disagree.
pub open spec fn spec_drift_count(a: Seq<ReplayStep>, b: Seq<ReplayStep>, n: int) -> int
    decreases n,
{
    if n <= 0 {
        0
    } else {
        spec_drift_count(a, b, n - 1) + (if steps_disagree(a, b, n - 1) {
            1int
        } else {
            0int
        })
    }
}

/// Compare two optional strings.
fn opt_str_eq(a: &Option<String>, b: &Option<String>) -> (r: bool)
    ensures
        r == opt_str_same(*a, *b),
{
    match (a, b) {
        (Some(x), Some(y)) => str_eq(x.as_str(), y.as_str()),
        (None, None) => true,
        _ => false,
    }
}

/// Count the replayed steps that differ from the baseline, comparing
/// position by position over the longer of the two plans.
pub fn compute_replay_drift_count(steps: &Vec<ReplayStep>, baseline_steps: &Vec<ReplayStep>) -> (r:
    usize)
    ensures
        r == spec_drift_count(
            steps@,
            baseline_steps@,
            if steps@.len() >= baseline_steps@.len() {
                steps@.len() as int
            } else {
                baseline_steps@.len() as int
            },
        ),
        r <= steps@.len() || r <= baseline_steps@.len(),
{
    let compared: usize = if steps.len() >= baseline_steps.len() {
        steps.len()
    } else {
        baseline_steps.len()
    };
    let mut drift_count: usize = 0;
    let mut i: usize = 0;
    while i < compared
        invariant
            i <= compared,
            compared == (if steps@.len() >= baseline_steps@.len() {
                steps@.len()
            } else {
                baseline_steps@.len()
            }),
            drift_count == spec_drift_count(steps@, baseline_steps@, i as int),
            drift_count <= i,
        decreases compared - i,
    {
        let mismatch: bool = if i < steps.len() && i < baseline_steps.len() {
            let a = &steps[i];
            let b = &baseline_steps[i];
            !str_eq(a.event_type.as_str(), b.event_type.as_str()) || !opt_str_eq(
                &a.node_id,
                &b.node_id,
            ) || !opt_str_eq(&a.actor, &b.actor)
        } else {
            true
        };
        if mismatch {
            drift_count = drift_count + 1;
        }
        i = i + 1;
    }
    drift_count
}

/// How a failed replay is classified from its drift, in basis points of the
/// compared positions (one hundredth of a percent).
#[derive(Debug, Clone, Copy, PartialEq, Eq, Structural)]
pub enum FailureClass {
    Deterministic,
    Transient,
    Environmental,
    Logical,
}

/// Classify a failure from its replay drift in basis points: no drift is
/// deterministic, up to 10% transient, up to 35% environmental, and anything
/// beyond that logical.
pub fn classify_failure_from_drift_bps(drift_bps: u64) -> (r: FailureClass)
    ensures
        (drift_bps == 0 ==> r == FailureClass::Deterministic),
        (0 < drift_bps <= 1000 ==> r == FailureClass::Transient),
        (1000 < drift_bps <= 3500 ==> r == FailureClass::Environmental),
        (3500 < drift_bps ==> r == FailureClass::Logical),
{
    if drift_bps == 0 {
        FailureClass::Deterministic
    } else if drift_bps <= 1000 {
        FailureClass::Transient
    } else if drift_bps <= 3500 {
        FailureClass::Environmental
    } else {
        FailureClass::Logical
    }
}

} // verus!
