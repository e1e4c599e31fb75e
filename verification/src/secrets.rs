//! Secret-sensitivity classification and cross-tenant federation gating.
//!
//! Field names are classified into four ordered tiers by case-insensitive
//! substring matching; the most sensitive matching tier wins.

use vstd::prelude::*;
use vstd::string::StringSliceAdditionalSpecFns;
use vstd::string::StrSliceExecFns;
use vstd::string::StringExecFns;
use crate::json::{JsonValue, json_same, clone_json};
use crate::text::{
    has_word,
    lower_bytes,
    lower_str_bytes,
    has_sub,
    str_eq,
    str_bytes,
    prefix_of,
    starts_with_bytes,
};

verus! {

broadcast use vstd::std_specs::vec::group_vec_axioms;

/// Sensitivity tier of a field, ordered `Public < Internal < Confidential < Restricted`.
#[derive(Debug, Clone, Copy, PartialEq, Eq, Structural, PartialOrd, Ord)]
pub enum SecretClassification {
    Public,
    Internal,
    Confidential,
    Restricted,
}

/// Numeric rank of a tier, used to compare tiers in contracts and code.
pub open spec fn spec_class_rank(c: SecretClassification) -> int {
    match c {
        SecretClassification::Public => 0,
        SecretClassification::Internal => 1,
        SecretClassification::Confidential => 2,
        SecretClassification::Restricted => 3,
    }
}

/// Numeric rank of a tier.
pub fn class_rank(c: SecretClassification) -> (r: u8)
    ensures
        r as int == spec_class_rank(c),
{
    match c {
        SecretClassification::Public => 0,
        SecretClassification::Internal => 1,
        SecretClassification::Confidential => 2,
        SecretClassification::Restricted => 3,
    }
}

/// Field names that indicate restricted material (credentials and identifiers
/// that must never be stored in plain text).
pub open spec fn is_restricted_name(l: Seq<u8>) -> bool {
    ||| has_word(l, "password")
    ||| has_word(l, "secret")
    ||| has_word(l, "token")
    ||| has_word(l, "api_key")
    ||| has_word(l, "apikey")
    ||| has_word(l, "private_key")
    ||| has_word(l, "credential")
    ||| has_word(l, "credentials")
    ||| has_word(l, "ssn")
    ||| has_word(l, "credit_card")
}

/// Field names that indicate confidential personal or session data.
pub open spec fn is_confidential_name(l: Seq<u8>) -> bool {
    ||| has_word(l, "email")
    ||| has_word(l, "phone")
    ||| has_word(l, "address")
    ||| has_word(l, "ip_address")
    ||| has_word(l, "session_id")
    ||| has_word(l, "cookie")
}

/// Field names that indicate internal identifiers.
pub open spec fn is_internal_name(l: Seq<u8>) -> bool {
    ||| has_word(l, "tenant_id")
    ||| has_word(l, "user_id")
    ||| has_word(l, "account_id")
    ||| has_word(l, "internal_id")
    ||| has_word(l, "trace_id")
}

/// Classification of a field name given its UTF-8 bytes: the most sensitive
/// tier whose keyword list matches the lower-cased name wins.
pub open spec fn spec_classify_field(name: Seq<u8>) -> SecretClassification {
    let l = lower_bytes(name);
    if is_restricted_name(l) {
        SecretClassification::Restricted
    } else if is_confidential_name(l) {
        SecretClassification::Confidential
    } else if is_internal_name(l) {
        SecretClassification::Internal
    } else {
        SecretClassification::Public
    }
}

/// Classify a field name based on naming patterns, case-insensitively.
pub fn classify_field(field_name: &str) -> (r: SecretClassification)
    ensures
        r == spec_classify_field(field_name.spec_bytes()),
{
    let lower = lower_str_bytes(field_name);
    if has_sub(lower.as_slice(), "password".as_bytes())
        || has_sub(lower.as_slice(), "secret".as_bytes())
        || has_sub(lower.as_slice(), "token".as_bytes())
        || has_sub(lower.as_slice(), "api_key".as_bytes())
        || has_sub(lower.as_slice(), "apikey".as_bytes())
        || has_sub(lower.as_slice(), "private_key".as_bytes())
        || has_sub(lower.as_slice(), "credential".as_bytes())
        || has_sub(lower.as_slice(), "credentials".as_bytes())
        || has_sub(lower.as_slice(), "ssn".as_bytes())
        || has_sub(lower.as_slice(), "credit_card".as_bytes()) {
        SecretClassification::Restricted
    } else if has_sub(lower.as_slice(), "email".as_bytes())
        || has_sub(lower.as_slice(), "phone".as_bytes())
        || has_sub(lower.as_slice(), "address".as_bytes())
        || has_sub(lower.as_slice(), "ip_address".as_bytes())
        || has_sub(lower.as_slice(), "session_id".as_bytes())
        || has_sub(lower.as_slice(), "cookie".as_bytes()) {
        SecretClassification::Confidential
    } else if has_sub(lower.as_slice(), "tenant_id".as_bytes())
        || has_sub(lower.as_slice(), "user_id".as_bytes())
        || has_sub(lower.as_slice(), "account_id".as_bytes())
        || has_sub(lower.as_slice(), "internal_id".as_bytes())
        || has_sub(lower.as_slice(), "trace_id".as_bytes()) {
        SecretClassification::Internal
    } else {
        SecretClassification::Public
    }
}

/// A sequence of strings contains `t` (by character content).
pub open spec fn seq_contains_str(s: Seq<String>, t: Seq<char>) -> bool {
    exists|i: int| 0 <= i < s.len() && s[i]@ == t
}

/// Linear membership test over a vector of strings.
pub fn vec_contains_str(v: &Vec<String>, t: &str) -> (r: bool)
    ensures
        r == seq_contains_str(v@, t@),
{
    let mut i: usize = 0;
    while i < v.len()
        invariant
            i <= v@.len(),
            forall|k: int| 0 <= k < i ==> v@[k]@ != t@,
        decreases v@.len() - i,
    {
        if str_eq(v[i].as_str(), t) {
            assert(v@[i as int]@ == t@);
            return true;
        }
        i = i + 1;
    }
    false
}

/// Configuration for cross-tenant data sharing.
#[derive(Debug, Clone)]
pub struct FederationConfig {
    /// Whether this tenant has opted into federation.
    pub opt_in: bool,
    /// Tenant IDs allowed to receive federated data.
    pub allowed_tenants: Vec<String>,
    /// Types of data that may be shared.
    pub sharing_scope: Vec<String>,
}

impl Default for FederationConfig {
    /// The default configuration opts out of federation entirely.
    fn default() -> (r: Self)
        ensures
            !r.opt_in,
            r.allowed_tenants@.len() == 0,
            r.sharing_scope@.len() == 0,
    {
        FederationConfig { opt_in: false, allowed_tenants: Vec::new(), sharing_scope: Vec::new() }
    }
}

/// Federation is permitted only with explicit opt-in, an allow-listed target
/// tenant, and a data type inside the sharing scope.
pub open spec fn spec_can_federate(
    config: FederationConfig,
    target_tenant: Seq<char>,
    data_type: Seq<char>,
) -> bool {
    &&& config.opt_in
    &&& seq_contains_str(config.allowed_tenants@, target_tenant)
    &&& seq_contains_str(config.sharing_scope@, data_type)
}

/// Check whether federation is allowed between two tenants for a given
/// data type.  Absence of explicit opt-in is a hard deny.
pub fn can_federate(source_config: &FederationConfig, target_tenant: &str, data_type: &str) -> (r:
    bool)
    ensures
        r == spec_can_federate(*source_config, target_tenant@, data_type@),
{
    source_config.opt_in && vec_contains_str(&source_config.allowed_tenants, target_tenant)
        && vec_contains_str(&source_config.sharing_scope, data_type)
}

/// A field violates storage hygiene: its name classifies as Confidential or
/// Restricted and its value is a non-empty string that is neither encrypted
/// (`enc:` prefix) nor already masked (`***` prefix).
pub open spec fn violating_field(f: (String, JsonValue)) -> bool {
    &&& spec_class_rank(spec_classify_field(str_bytes(f.0@))) >= 2
    &&& match f.1 {
        JsonValue::Str(s) => {
            let b = str_bytes(s@);
            &&& b.len() > 0
            &&& !prefix_of("enc:".spec_bytes(), b)
            &&& !prefix_of("***".spec_bytes(), b)
        },
        _ => false,
    }
}

/// The names of the violating fields, in field order.
pub open spec fn spec_violations(fields: Seq<(String, JsonValue)>) -> Seq<String>
    decreases fields.len(),
{
    if fields.len() == 0 {
        Seq::empty()
    } else {
        spec_violations(fields.drop_last()) + (if violating_field(fields.last()) {
            seq![fields.last().0]
        } else {
            Seq::empty()
        })
    }
}

/// The violations of a whole record: only top-level fields of an object are
/// inspected; any other value has none.
pub open spec fn spec_record_violations(v: JsonValue) -> Seq<String> {
    match v {
        JsonValue::Obj(fields) => spec_violations(fields@),
        _ => Seq::empty(),
    }
}

/// Validate that a record contains no plaintext secrets.
///
/// Returns `Ok(())` when every field classified Confidential or Restricted
/// holds an empty, encrypted (`enc:`) or masked (`***`) string value, and
/// `Err` with the offending field names otherwise.
pub fn validate_no_plaintext_secrets(record: &JsonValue) -> (r: Result<(), Vec<String>>)
    ensures
        (r is Ok <==> spec_record_violations(*record).len() == 0),
        (r matches Err(vs) ==> vs@ == spec_record_violations(*record)),
{
    let mut violations: Vec<String> = Vec::new();
    if let JsonValue::Obj(fields) = record {
        let mut i: usize = 0;
        while i < fields.len()
            invariant
                i <= fields@.len(),
                violations@ == spec_violations(fields@.subrange(0, i as int)),
            decreases fields@.len() - i,
        {
            proof {
                assert(fields@.subrange(0, i + 1).drop_last() =~= fields@.subrange(0, i as int));
                assert(fields@.subrange(0, i + 1).last() == fields@[i as int]);
            }
            let classification = classify_field(fields[i].0.as_str());
            if class_rank(classification) >= 2 {
                if let JsonValue::Str(s) = &fields[i].1 {
                    let b = s.as_str().as_bytes();
                    if b.len() > 0 && !starts_with_bytes(b, "enc:".as_bytes())
                        && !starts_with_bytes(b, "***".as_bytes()) {
                        violations.push(fields[i].0.clone());
                    }
                }
            }
            assert(violations@ =~= spec_violations(fields@.subrange(0, i + 1)));
            i = i + 1;
        }
        proof {
            assert(fields@.subrange(0, fields@.len() as int) =~= fields@);
        }
    }
    if violations.len() == 0 {
        Ok(())
    } else {
        Err(violations)
    }
}

/// How one field value must look after redaction, given its name's tier:
/// Restricted values become the literal `***REDACTED***`; Confidential
/// string values keep their first two characters followed by `***` when they
/// are longer than four characters, otherwise they become `***`; Confidential
/// non-string values become `***`; everything else is unchanged.
pub open spec fn redacted_value(orig: JsonValue, red: JsonValue, cls: SecretClassification) -> bool {
    if cls is Restricted {
        red matches JsonValue::Str(t) && t@ == "***REDACTED***"@
    } else if cls is Confidential {
        match orig {
            JsonValue::Str(s) => {
                if s@.len() > 4 {
                    red matches JsonValue::Str(t) && t@ == s@.subrange(0, 2) + "***"@
                } else {
                    red matches JsonValue::Str(t) && t@ == "***"@
                }
            },
            _ => red matches JsonValue::Str(t) && t@ == "***"@,
        }
    } else {
        json_same(orig, red)
    }
}

/// Redact one field value according to its name's classification.
fn redact_one(value: &JsonValue, classification: SecretClassification) -> (r: JsonValue)
    ensures
        redacted_value(*value, r, classification),
{
    let rank = class_rank(classification);
    if rank == 3 {
        JsonValue::Str(String::from_str("***REDACTED***"))
    } else if rank == 2 {
        match value {
            JsonValue::Str(s) => {
                let ss = s.as_str();
                if ss.unicode_len() > 4 {
                    let kept = ss.substring_char(0, 2);
                    let mut masked = String::from_str(kept);
                    masked.append("***");
                    JsonValue::Str(masked)
                } else {
                    JsonValue::Str(String::from_str("***"))
                }
            },
            _ => JsonValue::Str(String::from_str("***")),
        }
    } else {
        clone_json(value)
    }
}

/// Redact sensitive fields of a record for logging and audit.
///
/// Restricted fields become `***REDACTED***`; Confidential fields are
/// partially masked; Internal and Public fields pass through.  Only the top
/// level of an object is rewritten; any other value is returned unchanged.
#[verifier::rlimit(100)]
pub fn redact_sensitive_fields(record: &JsonValue) -> (r: JsonValue)
    ensures
        (record matches JsonValue::Obj(fields) ==> (r matches JsonValue::Obj(out) && out.len()
            == fields.len() && (forall|i: int|
            0 <= i < fields@.len() ==> (#[trigger] out@[i]).0 == fields@[i].0 && redacted_value(
                fields@[i].1,
                out@[i].1,
                spec_classify_field(str_bytes(fields@[i].0@)),
            )))),
        (!(record is Obj) ==> json_same(*record, r)),
{
    match record {
        JsonValue::Obj(fields) => {
            let mut out: Vec<(String, JsonValue)> = Vec::new();
            let mut i: usize = 0;
            while i < fields.len()
                invariant
                    i <= fields@.len(),
                    out@.len() == i,
                    forall|k: int|
                        0 <= k < i ==> (#[trigger] out@[k]).0 == fields@[k].0 && redacted_value(
                            fields@[k].1,
                            out@[k].1,
                            spec_classify_field(str_bytes(fields@[k].0@)),
                        ),
                decreases fields@.len() - i,
            {
                let classification = classify_field(fields[i].0.as_str());
                let ghost cls = spec_classify_field(str_bytes(fields@[i as int].0@));
                assert(classification == cls);
                let red = redact_one(&fields[i].1, classification);
                let key = fields[i].0.clone();
                out.push((key, red));
                i = i + 1;
            }
            JsonValue::Obj(out)
        },
        other => clone_json(other),
    }
}

/// A field name that may cross the federation boundary: classified below
/// Confidential.
pub open spec fn keep_field(k: String) -> bool {
    spec_class_rank(spec_classify_field(str_bytes(k@))) < 2
}

/// `out` is `orig` with every Confidential or Restricted field stripped, at
/// every nesting level; arrays are rewritten elementwise and scalars kept.
pub open spec fn anonymized(orig: JsonValue, out: JsonValue) -> bool
    decreases orig,
{
    match orig {
        JsonValue::Obj(fields) => out matches JsonValue::Obj(o) && obj_anonymized(fields@, o@),
        JsonValue::Arr(items) => out matches JsonValue::Arr(o) && arr_anonymized(items@, o@),
        _ => json_same(orig, out),
    }
}

/// Elementwise anonymization of an array.
pub open spec fn arr_anonymized(a: Seq<JsonValue>, b: Seq<JsonValue>) -> bool
    decreases a,
{
    b.len() == a.len() && (forall|i: int| 0 <= i < a.len() ==> anonymized(a[i], #[trigger] b[i]))
}

/// Fieldwise anonymization of an object: kept fields appear in order with
/// anonymized values, stripped fields leave no trace.
pub open spec fn obj_anonymized(f: Seq<(String, JsonValue)>, g: Seq<(String, JsonValue)>) -> bool
    decreases f,
{
    if f.len() == 0 {
        g.len() == 0
    } else if keep_field(f.last().0) {
        &&& g.len() > 0
        &&& g.last().0 == f.last().0
        &&& anonymized(f.last().1, g.last().1)
        &&& obj_anonymized(f.drop_last(), g.drop_last())
    } else {
        obj_anonymized(f.drop_last(), g)
    }
}

/// Safe to cross the federation boundary: no object field at any nesting
/// level carries a name classified Confidential or Restricted.
pub open spec fn federation_safe(v: JsonValue) -> bool
    decreases v,
{
    match v {
        JsonValue::Obj(fields) => forall|i: int|
            0 <= i < fields@.len() ==> keep_field((#[trigger] fields@[i]).0) && federation_safe(
                fields@[i].1,
            ),
        JsonValue::Arr(items) => forall|i: int|
            0 <= i < items@.len() ==> federation_safe(#[trigger] items@[i]),
        _ => true,
    }
}

/// Whatever the input, an anonymized value is federation-safe: stripping
/// leaves no Confidential or Restricted field behind, at any nesting level.
pub proof fn lemma_anonymized_is_federation_safe(orig: JsonValue, out: JsonValue)
    requires
        anonymized(orig, out),
    ensures
        federation_safe(out),
    decreases orig,
{
    match orig {
        JsonValue::Obj(fields) => {
            if let JsonValue::Obj(o) = out {
                lemma_obj_anonymized_safe(fields@, o@);
            }
        },
        JsonValue::Arr(items) => {
            if let JsonValue::Arr(o) = out {
                lemma_arr_anonymized_safe(items@, o@);
            }
        },
        _ => {},
    }
}

/// The kept fields of an anonymized object level are all safe.
proof fn lemma_obj_anonymized_safe(f: Seq<(String, JsonValue)>, g: Seq<(String, JsonValue)>)
    requires
        obj_anonymized(f, g),
    ensures
        forall|i: int|
            0 <= i < g.len() ==> keep_field((#[trigger] g[i]).0) && federation_safe(g[i].1),
    decreases f,
{
    if f.len() > 0 {
        if keep_field(f.last().0) {
            lemma_obj_anonymized_safe(f.drop_last(), g.drop_last());
            lemma_anonymized_is_federation_safe(f.last().1, g.last().1);
            assert forall|i: int|
                0 <= i < g.len() implies keep_field((#[trigger] g[i]).0) && federation_safe(
                g[i].1,
            ) by {
                if i < g.len() - 1 {
                    assert(g[i] == g.drop_last()[i]);
                } else {
                    assert(g[i] == g.last());
                }
            }
        } else {
            lemma_obj_anonymized_safe(f.drop_last(), g);
        }
    }
}

/// The elements of an anonymized array level are all safe.
proof fn lemma_arr_anonymized_safe(a: Seq<JsonValue>, b: Seq<JsonValue>)
    requires
        arr_anonymized(a, b),
    ensures
        forall|i: int| 0 <= i < b.len() ==> federation_safe(#[trigger] b[i]),
    decreases a,
{
    assert forall|i: int| 0 <= i < b.len() implies federation_safe(#[trigger] b[i]) by {
        assert(anonymized(a[i], b[i]));
        lemma_anonymized_is_federation_safe(a[i], b[i]);
    }
}

/// Strip PII for federation: remove every field classified Confidential or
/// Restricted at every nesting level, keeping Internal and Public fields.
pub fn anonymize_for_federation(data: &JsonValue) -> (r: JsonValue)
    ensures
        anonymized(*data, r),
    decreases *data,
{
    match data {
        JsonValue::Obj(fields) => JsonValue::Obj(anonymize_fields(fields)),
        JsonValue::Arr(items) => JsonValue::Arr(anonymize_arr(items)),
        other => clone_json(other),
    }
}

/// Strip and rewrite the fields of one object level.
fn anonymize_fields(fields: &Vec<(String, JsonValue)>) -> (r: Vec<(String, JsonValue)>)
    ensures
        obj_anonymized(fields@, r@),
    decreases *fields,
{
    let mut out: Vec<(String, JsonValue)> = Vec::new();
    let mut i: usize = 0;
    while i < fields.len()
        invariant
            i <= fields@.len(),
            obj_anonymized(fields@.subrange(0, i as int), out@),
        decreases fields@.len() - i,
    {
        proof {
            assert(fields@.subrange(0, i + 1).drop_last() =~= fields@.subrange(0, i as int));
            assert(fields@.subrange(0, i + 1).last() == fields@[i as int]);
        }
        let classification = classify_field(fields[i].0.as_str());
        if class_rank(classification) < 2 {
            let key = fields[i].0.clone();
            proof {
                assert(decreases_to!(*fields => fields@));
                assert(decreases_to!(fields@ => fields@[i as int]));
                assert(decreases_to!(fields@[i as int] => fields@[i as int].1));
            }
            let v = anonymize_for_federation(&fields[i].1);
            let ghost prev = out@;
            out.push((key, v));
            proof {
                assert(out@.drop_last() =~= prev);
            }
        }
        assert(obj_anonymized(fields@.subrange(0, i + 1), out@));
        i = i + 1;
    }
    proof {
        assert(fields@.subrange(0, fields@.len() as int) =~= fields@);
    }
    out
}

/// Rewrite the elements of one array level.
fn anonymize_arr(items: &Vec<JsonValue>) -> (r: Vec<JsonValue>)
    ensures
        arr_anonymized(items@, r@),
    decreases *items,
{
    let mut out: Vec<JsonValue> = Vec::new();
    let mut i: usize = 0;
    while i < items.len()
        invariant
            i <= items@.len(),
            out@.len() == i,
            forall|k: int| 0 <= k < i ==> anonymized(items@[k], #[trigger] out@[k]),
        decreases items@.len() - i,
    {
        proof {
            assert(decreases_to!(*items => items@));
            assert(decreases_to!(items@ => items@[i as int]));
        }
        let v = anonymize_for_federation(&items[i]);
        out.push(v);
        i = i + 1;
    }
    out
}

} // verus!
