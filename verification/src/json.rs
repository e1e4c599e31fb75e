//! A plain JSON value model.
//!
//! Request contexts and audit records move through the governance core as
//! structured values; this model holds them as plain data so that the
//! classifiers and scrubbers can be specified and verified over it.  The
//! boundary code that speaks to the outside world converts between this
//! model and its wire form.

use vstd::prelude::*;
use vstd::string::StringSliceAdditionalSpecFns;
use crate::text::{dec_bytes, hex_digit, push_dec_bytes, str_bytes};

verus! {

broadcast use vstd::std_specs::vec::group_vec_axioms;

/// A JSON-like value: objects keep their fields in insertion order.
#[derive(Debug)]
pub enum JsonValue {
    Null,
    Bool(bool),
    Int(i64),
    Str(String),
    Arr(Vec<JsonValue>),
    Obj(Vec<(String, JsonValue)>),
}

/// Rendering of one string byte inside a JSON string literal: quote,
/// backslash and control bytes are escaped, everything else passes through.
pub open spec fn esc_byte(b: u8) -> Seq<u8> {
    if b == 34 {
        seq![92u8, 34u8]
    } else if b == 92 {
        seq![92u8, 92u8]
    } else if b == 10 {
        seq![92u8, 110u8]
    } else if b == 13 {
        seq![92u8, 114u8]
    } else if b == 9 {
        seq![92u8, 116u8]
    } else if b < 32 {
        seq![92u8, 117u8, 48u8, 48u8, hex_digit((b / 16) as nat), hex_digit((b % 16) as nat)]
    } else {
        seq![b]
    }
}

/// Rendering of a whole string body, byte by byte.
pub open spec fn esc_bytes(s: Seq<u8>) -> Seq<u8>
    decreases s.len(),
{
    if s.len() == 0 {
        Seq::empty()
    } else {
        esc_bytes(s.drop_last()) + esc_byte(s.last())
    }
}

/// Rendering of an integer: decimal digits, with a leading minus sign for
/// negative values.
pub open spec fn int_bytes(i: int) -> Seq<u8> {
    if i >= 0 {
        dec_bytes(i as nat)
    } else {
        seq![45u8] + dec_bytes((-i) as nat)
    }
}

/// Compact rendering of a JSON value, with no whitespace.
pub open spec fn spec_json_bytes(v: JsonValue) -> Seq<u8>
    decreases v,
{
    match v {
        JsonValue::Null => "null".spec_bytes(),
        JsonValue::Bool(b) => if b {
            "true".spec_bytes()
        } else {
            "false".spec_bytes()
        },
        JsonValue::Int(i) => int_bytes(i as int),
        JsonValue::Str(s) => seq![34u8] + esc_bytes(str_bytes(s@)) + seq![34u8],
        JsonValue::Arr(items) => seq![91u8] + spec_arr_bytes(items@) + seq![93u8],
        JsonValue::Obj(fields) => seq![123u8] + spec_obj_bytes(fields@) + seq![125u8],
    }
}

/// Rendering of array elements, comma-separated.
pub open spec fn spec_arr_bytes(items: Seq<JsonValue>) -> Seq<u8>
    decreases items,
{
    if items.len() == 0 {
        Seq::empty()
    } else if items.len() == 1 {
        spec_json_bytes(items[0])
    } else {
        spec_arr_bytes(items.drop_last()) + seq![44u8] + spec_json_bytes(items.last())
    }
}

/// Rendering of object fields, comma-separated `"key":value` pairs.
pub open spec fn spec_obj_bytes(fields: Seq<(String, JsonValue)>) -> Seq<u8>
    decreases fields,
{
    if fields.len() == 0 {
        Seq::empty()
    } else if fields.len() == 1 {
        spec_field_bytes(fields[0])
    } else {
        spec_obj_bytes(fields.drop_last()) + seq![44u8] + spec_field_bytes(fields.last())
    }
}

/// Rendering of one object field.
pub open spec fn spec_field_bytes(field: (String, JsonValue)) -> Seq<u8>
    decreases field,
{
    seq![34u8] + esc_bytes(str_bytes(field.0@)) + seq![34u8, 58u8] + spec_json_bytes(field.1)
}

/// Append the escaped rendering of the string bytes `s` to `out`.
fn push_esc_bytes(out: &mut Vec<u8>, s: &[u8])
    ensures
        final(out)@ == old(out)@ + esc_bytes(s@),
{
    let mut i: usize = 0;
    while i < s.len()
        invariant
            i <= s@.len(),
            out@ == old(out)@ + esc_bytes(s@.subrange(0, i as int)),
        decreases s@.len() - i,
    {
        let b = s[i];
        proof {
            assert(s@.subrange(0, i + 1).drop_last() =~= s@.subrange(0, i as int));
            assert(s@.subrange(0, i + 1).last() == s@[i as int]);
        }
        if b == 34 {
            out.push(92);
            out.push(34);
        } else if b == 92 {
            out.push(92);
            out.push(92);
        } else if b == 10 {
            out.push(92);
            out.push(110);
        } else if b == 13 {
            out.push(92);
            out.push(114);
        } else if b == 9 {
            out.push(92);
            out.push(116);
        } else if b < 32 {
            out.push(92);
            out.push(117);
            out.push(48);
            out.push(48);
            let hi = b / 16;
            let lo = b % 16;
            out.push(if hi < 10 { 48 + hi } else { 87 + hi });
            out.push(if lo < 10 { 48 + lo } else { 87 + lo });
        } else {
            out.push(b);
        }
        assert(out@ =~= old(out)@ + esc_bytes(s@.subrange(0, i + 1)));
        i = i + 1;
    }
    assert(s@.subrange(0, s@.len() as int) =~= s@);
}

/// Append the rendering of the integer `i` to `out`.
fn push_int_bytes(out: &mut Vec<u8>, i: i64)
    ensures
        final(out)@ == old(out)@ + int_bytes(i as int),
{
    if i >= 0 {
        push_dec_bytes(out, i as u64);
    } else {
        out.push(45);
        let m: u64 = ((-(i + 1)) as u64) + 1;
        assert(m as nat == (-(i as int)) as nat);
        push_dec_bytes(out, m);
        assert(out@ =~= old(out)@ + int_bytes(i as int));
    }
}

/// Append the compact rendering of `v` to `out`.
pub fn push_json_bytes(out: &mut Vec<u8>, v: &JsonValue)
    ensures
        final(out)@ == old(out)@ + spec_json_bytes(*v),
    decreases *v,
{
    match v {
        JsonValue::Null => {
            let b = "null".as_bytes();
            crate::text::append_bytes(out, b);
        },
        JsonValue::Bool(x) => {
            let b = if *x {
                "true".as_bytes()
            } else {
                "false".as_bytes()
            };
            crate::text::append_bytes(out, b);
        },
        JsonValue::Int(i) => {
            push_int_bytes(out, *i);
        },
        JsonValue::Str(s) => {
            out.push(34);
            push_esc_bytes(out, s.as_str().as_bytes());
            out.push(34);
            assert(out@ =~= old(out)@ + spec_json_bytes(*v));
        },
        JsonValue::Arr(items) => {
            out.push(91);
            push_arr_items(out, items);
            out.push(93);
            assert(out@ =~= old(out)@ + spec_json_bytes(*v));
        },
        JsonValue::Obj(fields) => {
            out.push(123);
            push_obj_fields(out, fields);
            out.push(125);
            assert(out@ =~= old(out)@ + spec_json_bytes(*v));
        },
    }
}

/// Append the comma-separated rendering of array elements to `out`.
fn push_arr_items(out: &mut Vec<u8>, items: &Vec<JsonValue>)
    ensures
        final(out)@ == old(out)@ + spec_arr_bytes(items@),
    decreases *items,
{
    let ghost items_seq = items@;
    let mut i: usize = 0;
    while i < items.len()
        invariant
            items@ == items_seq,
            i <= items_seq.len(),
            out@ == old(out)@ + spec_arr_bytes(items_seq.subrange(0, i as int)),
        decreases items_seq.len() - i,
    {
        proof {
            assert(items_seq.subrange(0, i + 1).drop_last() =~= items_seq.subrange(0, i as int));
            assert(items_seq.subrange(0, i + 1).last() == items_seq[i as int]);
        }
        if i > 0 {
            out.push(44);
        }
        proof {
            assert(decreases_to!(*items => items@));
            assert(decreases_to!(items@ => items@[i as int]));
        }
        push_json_bytes(out, &items[i]);
        proof {
            if i == 0 {
                assert(items_seq.subrange(0, 1).len() == 1);
                assert(items_seq.subrange(0, 1)[0] == items_seq[0]);
            }
            assert(out@ =~= old(out)@ + spec_arr_bytes(items_seq.subrange(0, i + 1)));
        }
        i = i + 1;
    }
    assert(items_seq.subrange(0, items_seq.len() as int) =~= items_seq);
}

/// Append the comma-separated rendering of object fields to `out`.
fn push_obj_fields(out: &mut Vec<u8>, fields: &Vec<(String, JsonValue)>)
    ensures
        final(out)@ == old(out)@ + spec_obj_bytes(fields@),
    decreases *fields,
{
    let ghost fields_seq = fields@;
    let mut i: usize = 0;
    while i < fields.len()
        invariant
            fields@ == fields_seq,
            i <= fields_seq.len(),
            out@ == old(out)@ + spec_obj_bytes(fields_seq.subrange(0, i as int)),
        decreases fields_seq.len() - i,
    {
        proof {
            assert(fields_seq.subrange(0, i + 1).drop_last() =~= fields_seq.subrange(0, i as int));
            assert(fields_seq.subrange(0, i + 1).last() == fields_seq[i as int]);
        }
        if i > 0 {
            out.push(44);
        }
        proof {
            assert(decreases_to!(*fields => fields@));
            assert(decreases_to!(fields@ => fields@[i as int]));
        }
        push_field(out, &fields[i]);
        proof {
            if i == 0 {
                assert(fields_seq.subrange(0, 1).len() == 1);
                assert(fields_seq.subrange(0, 1)[0] == fields_seq[0]);
            }
            assert(out@ =~= old(out)@ + spec_obj_bytes(fields_seq.subrange(0, i + 1)));
        }
        i = i + 1;
    }
    assert(fields_seq.subrange(0, fields_seq.len() as int) =~= fields_seq);
}

/// Append the rendering of one `"key":value` pair to `out`.
fn push_field(out: &mut Vec<u8>, field: &(String, JsonValue))
    ensures
        final(out)@ == old(out)@ + spec_field_bytes(*field),
    decreases *field,
{
    out.push(34);
    push_esc_bytes(out, field.0.as_str().as_bytes());
    out.push(34);
    out.push(58);
    push_json_bytes(out, &field.1);
    assert(out@ =~= old(out)@ + spec_field_bytes(*field));
}

/// Structural equality of two values: same shape, same field names in the
/// same order, same scalar contents.
pub open spec fn json_same(a: JsonValue, b: JsonValue) -> bool
    decreases a,
{
    match a {
        JsonValue::Null => b is Null,
        JsonValue::Bool(x) => b matches JsonValue::Bool(y) && y == x,
        JsonValue::Int(x) => b matches JsonValue::Int(y) && y == x,
        JsonValue::Str(s) => b matches JsonValue::Str(t) && t == s,
        JsonValue::Arr(items) => b matches JsonValue::Arr(o) && arr_same(items@, o@),
        JsonValue::Obj(fields) => b matches JsonValue::Obj(o) && fields_same(fields@, o@),
    }
}

/// Elementwise structural equality of two element sequences.
pub open spec fn arr_same(a: Seq<JsonValue>, b: Seq<JsonValue>) -> bool
    decreases a,
{
    b.len() == a.len() && (forall|i: int| 0 <= i < a.len() ==> json_same(a[i], #[trigger] b[i]))
}

/// Elementwise structural equality of two field sequences.
pub open spec fn fields_same(a: Seq<(String, JsonValue)>, b: Seq<(String, JsonValue)>) -> bool
    decreases a,
{
    b.len() == a.len() && (forall|i: int|
        0 <= i < a.len() ==> (#[trigger] b[i]).0 == a[i].0 && json_same(a[i].1, b[i].1))
}

/// Deep copy of a value.
pub fn clone_json(v: &JsonValue) -> (r: JsonValue)
    ensures
        json_same(*v, r),
    decreases *v,
{
    match v {
        JsonValue::Null => JsonValue::Null,
        JsonValue::Bool(x) => JsonValue::Bool(*x),
        JsonValue::Int(x) => JsonValue::Int(*x),
        JsonValue::Str(s) => JsonValue::Str(s.clone()),
        JsonValue::Arr(items) => JsonValue::Arr(clone_arr(items)),
        JsonValue::Obj(fields) => JsonValue::Obj(clone_fields(fields)),
    }
}

/// Deep copy of an element vector.
fn clone_arr(items: &Vec<JsonValue>) -> (r: Vec<JsonValue>)
    ensures
        arr_same(items@, r@),
    decreases *items,
{
    let mut out: Vec<JsonValue> = Vec::new();
    let mut i: usize = 0;
    while i < items.len()
        invariant
            i <= items@.len(),
            out@.len() == i,
            forall|k: int| 0 <= k < i ==> json_same(items@[k], #[trigger] out@[k]),
        decreases items@.len() - i,
    {
        proof {
            assert(decreases_to!(*items => items@));
            assert(decreases_to!(items@ => items@[i as int]));
        }
        let c = clone_json(&items[i]);
        out.push(c);
        i = i + 1;
    }
    out
}

/// Deep copy of a field vector.
pub(crate) fn clone_fields(fields: &Vec<(String, JsonValue)>) -> (r: Vec<(String, JsonValue)>)
    ensures
        fields_same(fields@, r@),
    decreases *fields,
{
    let mut out: Vec<(String, JsonValue)> = Vec::new();
    let mut i: usize = 0;
    while i < fields.len()
        invariant
            i <= fields@.len(),
            out@.len() == i,
            forall|k: int|
                0 <= k < i ==> (#[trigger] out@[k]).0 == fields@[k].0 && json_same(
                    fields@[k].1,
                    out@[k].1,
                ),
        decreases fields@.len() - i,
    {
        proof {
            assert(decreases_to!(*fields => fields@));
            assert(decreases_to!(fields@ => fields@[i as int]));
            assert(decreases_to!(fields@[i as int] => fields@[i as int].1));
        }
        let key = fields[i].0.clone();
        let c = clone_json(&fields[i].1);
        out.push((key, c));
        i = i + 1;
    }
    out
}

impl Clone for JsonValue {
    /// A deep copy: structurally the same value.
    fn clone(&self) -> (r: Self)
        ensures
            json_same(*self, r),
    {
        clone_json(self)
    }
}

/// Compact rendering of `v` as UTF-8 bytes.
pub fn json_bytes(v: &JsonValue) -> (r: Vec<u8>)
    ensures
        r@ == spec_json_bytes(*v),
{
    let mut out: Vec<u8> = Vec::new();
    push_json_bytes(&mut out, v);
    out
}

} // verus!
