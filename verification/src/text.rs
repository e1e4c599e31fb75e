//! Byte-level text primitives shared by the classifiers and matchers.
//!
//! All pattern and keyword matching in the governance core is ASCII
//! case-insensitive substring or prefix matching, so the executable code
//! works on UTF-8 bytes and the specifications are stated over `Seq<u8>`.

use vstd::prelude::*;
use vstd::string::StringSliceAdditionalSpecFns;
use vstd::string::StringExecFns;

verus! {

/// ASCII lowercasing of one byte; bytes outside `A..=Z` are unchanged.
pub open spec fn lower_byte(b: u8) -> u8 {
    if 65 <= b && b <= 90 {
        (b + 32) as u8
    } else {
        b
    }
}

/// ASCII lowercasing of a byte sequence.
pub open spec fn lower_bytes(s: Seq<u8>) -> Seq<u8> {
    s.map_values(|b: u8| lower_byte(b))
}

/// `needle` occurs in `hay` starting at offset `i`.
pub open spec fn match_at(hay: Seq<u8>, needle: Seq<u8>, i: int) -> bool {
    &&& 0 <= i
    &&& i + needle.len() <= hay.len()
    &&& hay.subrange(i, i + needle.len() as int) == needle
}

/// `needle` occurs somewhere in `hay` (the empty needle always occurs).
pub open spec fn contains_seq(hay: Seq<u8>, needle: Seq<u8>) -> bool {
    exists|i: int| match_at(hay, needle, i)
}

/// `p` is a prefix of `v`.
pub open spec fn prefix_of(p: Seq<u8>, v: Seq<u8>) -> bool {
    p.len() <= v.len() && v.subrange(0, p.len() as int) == p
}

/// ASCII-lowercase a byte slice into a fresh vector.
pub fn lower_vec(s: &[u8]) -> (r: Vec<u8>)
    ensures
        r@ == lower_bytes(s@),
{
    let mut out: Vec<u8> = Vec::new();
    let mut i: usize = 0;
    while i < s.len()
        invariant
            i <= s@.len(),
            out@.len() == i,
            forall|k: int| 0 <= k < i ==> out@[k] == lower_byte(s@[k]),
        decreases s@.len() - i,
    {
        let b = s[i];
        if 65 <= b && b <= 90 {
            out.push(b + 32);
        } else {
            out.push(b);
        }
        i = i + 1;
    }
    assert(out@ =~= lower_bytes(s@));
    out
}

/// ASCII-lowercase the UTF-8 bytes of a string slice.
pub fn lower_str_bytes(s: &str) -> (r: Vec<u8>)
    ensures
        r@ == lower_bytes(s.spec_bytes()),
{
    lower_vec(s.as_bytes())
}

/// Compare two byte slices for equality.
pub fn bytes_eq(a: &[u8], b: &[u8]) -> (r: bool)
    ensures
        r == (a@ == b@),
{
    if a.len() != b.len() {
        return false;
    }
    let mut i: usize = 0;
    while i < a.len()
        invariant
            a@.len() == b@.len(),
            i <= a@.len(),
            forall|k: int| 0 <= k < i ==> a@[k] == b@[k],
        decreases a@.len() - i,
    {
        if a[i] != b[i] {
            return false;
        }
        i = i + 1;
    }
    assert(a@ =~= b@);
    true
}

/// String equality, stated over the character views.
pub fn str_eq(a: &str, b: &str) -> (r: bool)
    ensures
        r == (a@ == b@),
{
    let r = bytes_eq(a.as_bytes(), b.as_bytes());
    proof {
        if a.spec_bytes() == b.spec_bytes() {
            vstd::utf8::encode_utf8_decode_utf8(a@);
            vstd::utf8::encode_utf8_decode_utf8(b@);
        }
    }
    r
}

/// `needle` occurs in `hay` at exactly offset `i`.
fn matches_here(hay: &[u8], needle: &[u8], i: usize) -> (r: bool)
    requires
        i + needle@.len() <= hay@.len(),
    ensures
        r == match_at(hay@, needle@, i as int),
{
    let hlen = hay.len();
    let mut j: usize = 0;
    while j < needle.len()
        invariant
            i + needle@.len() <= hay@.len(),
            hay@.len() == hlen,
            j <= needle@.len(),
            forall|k: int| 0 <= k < j ==> hay@[i + k] == needle@[k],
        decreases needle@.len() - j,
    {
        if hay[i + j] != needle[j] {
            assert(hay@.subrange(i as int, i + needle@.len() as int)[j as int] != needle@[j as int]);
            return false;
        }
        j = j + 1;
    }
    assert(hay@.subrange(i as int, i + needle@.len() as int) =~= needle@);
    true
}

/// Find the leftmost occurrence of `needle` in `hay` at offset `from` or later.
pub fn find_sub(hay: &[u8], needle: &[u8], from: usize) -> (r: Option<usize>)
    ensures
        match r {
            Some(i) => from <= i && match_at(hay@, needle@, i as int) && (forall|k: int|
                from <= k < i ==> !match_at(hay@, needle@, k)),
            None => forall|k: int| from <= k ==> !match_at(hay@, needle@, k),
        },
{
    if needle.len() > hay.len() {
        return None;
    }
    let last = hay.len() - needle.len();
    if from > last {
        return None;
    }
    let mut i: usize = from;
    loop
        invariant
            needle@.len() <= hay@.len(),
            last == hay@.len() - needle@.len(),
            from <= i <= last,
            forall|k: int| from <= k < i ==> !match_at(hay@, needle@, k),
        decreases last - i,
    {
        if matches_here(hay, needle, i) {
            return Some(i);
        }
        if i == last {
            assert(forall|k: int| k > last ==> !match_at(hay@, needle@, k));
            return None;
        }
        i = i + 1;
    }
}

/// `needle` occurs somewhere in `hay`.
pub fn has_sub(hay: &[u8], needle: &[u8]) -> (r: bool)
    ensures
        r == contains_seq(hay@, needle@),
{
    match find_sub(hay, needle, 0) {
        Some(i) => {
            assert(match_at(hay@, needle@, i as int));
            true
        },
        None => {
            assert(forall|k: int| !match_at(hay@, needle@, k));
            false
        },
    }
}

/// Some byte of `v` equals `b`.
pub fn contains_byte(v: &[u8], b: u8) -> (r: bool)
    ensures
        r == exists|i: int| 0 <= i < v@.len() && v@[i] == b,
{
    let mut i: usize = 0;
    while i < v.len()
        invariant
            i <= v@.len(),
            forall|k: int| 0 <= k < i ==> v@[k] != b,
        decreases v@.len() - i,
    {
        if v[i] == b {
            return true;
        }
        i = i + 1;
    }
    false
}

/// `p` is a prefix of `v`.
pub fn starts_with_bytes(v: &[u8], p: &[u8]) -> (r: bool)
    ensures
        r == prefix_of(p@, v@),
{
    if p.len() > v.len() {
        return false;
    }
    matches_here(v, p, 0)
}

/// The (usually lower-cased) byte sequence contains the keyword `w`.
pub open spec fn has_word(hay: Seq<u8>, w: &str) -> bool {
    contains_seq(hay, w.spec_bytes())
}

/// Append every byte of `b` to `out`.
pub fn append_bytes(out: &mut Vec<u8>, b: &[u8])
    ensures
        final(out)@ == old(out)@ + b@,
{
    let mut i: usize = 0;
    while i < b.len()
        invariant
            i <= b@.len(),
            out@ == old(out)@ + b@.subrange(0, i as int),
        decreases b@.len() - i,
    {
        out.push(b[i]);
        assert(out@ =~= old(out)@ + b@.subrange(0, i + 1));
        i = i + 1;
    }
    assert(b@.subrange(0, b@.len() as int) =~= b@);
}

/// The UTF-8 bytes of a character sequence.
pub open spec fn str_bytes(s: Seq<char>) -> Seq<u8> {
    vstd::utf8::encode_utf8(s)
}

/// The UTF-8 bytes of an ASCII string are its characters, byte for byte.
pub proof fn lemma_ascii_literal_bytes(s: &str)
    requires
        vstd::string::is_ascii(s),
    ensures
        s.spec_bytes() == Seq::new(s@.len(), |i: int| s@[i] as u8),
{
    vstd::string::is_ascii_spec_bytes(s);
}

/// A character sequence is empty exactly when its UTF-8 encoding is.
pub proof fn lemma_str_bytes_empty(s: Seq<char>)
    ensures
        (str_bytes(s).len() == 0) <==> (s.len() == 0),
{
    if s.len() > 0 {
        assert(vstd::utf8::encode_scalar(s[0] as u32).len() >= 1);
    }
}

/// Lowercase hexadecimal digit byte for a value below sixteen.
pub open spec fn hex_digit(d: nat) -> u8
    recommends
        d < 16,
{
    if d < 10 {
        (48 + d) as u8
    } else {
        (87 + d) as u8
    }
}

/// Decimal digit byte for a value below ten.
pub open spec fn dec_byte(d: nat) -> u8
    recommends
        d < 10,
{
    (48 + d) as u8
}

/// Decimal representation of `n` as ASCII digit bytes, most significant first.
pub open spec fn dec_bytes(n: nat) -> Seq<u8>
    decreases n,
{
    if n < 10 {
        seq![dec_byte(n)]
    } else {
        dec_bytes(n / 10) + seq![dec_byte(n % 10)]
    }
}

/// Append the decimal digits of `n` to `out`.
pub fn push_dec_bytes(out: &mut Vec<u8>, n: u64)
    ensures
        final(out)@ == old(out)@ + dec_bytes(n as nat),
    decreases n,
{
    if n < 10 {
        out.push(48 + n as u8);
        assert(out@ =~= old(out)@ + dec_bytes(n as nat));
    } else {
        assert(n / 10 < n && n / 10 >= 1) by {
            assert(n >= 10);
        }
        push_dec_bytes(out, n / 10);
        out.push(48 + (n % 10) as u8);
        assert(out@ =~= old(out)@ + dec_bytes(n as nat));
    }
}

/// Decimal representation of `n` as characters, most significant first.
pub open spec fn dec_chars(n: nat) -> Seq<char> {
    dec_bytes(n).map_values(|b: u8| b as char)
}

/// Append the decimal digits of `n` to a string.
pub fn push_dec_str(out: &mut String, n: u64)
    ensures
        final(out)@ == old(out)@ + dec_chars(n as nat),
    decreases n,
{
    proof {
        reveal_strlit("0");
        reveal_strlit("1");
        reveal_strlit("2");
        reveal_strlit("3");
        reveal_strlit("4");
        reveal_strlit("5");
        reveal_strlit("6");
        reveal_strlit("7");
        reveal_strlit("8");
        reveal_strlit("9");
    }
    if n < 10 {
        let d: &str = match n {
            0 => "0",
            1 => "1",
            2 => "2",
            3 => "3",
            4 => "4",
            5 => "5",
            6 => "6",
            7 => "7",
            8 => "8",
            _ => "9",
        };
        out.append(d);
        assert(out@ =~= old(out)@ + dec_chars(n as nat));
    } else {
        assert(n / 10 < n && n / 10 >= 1) by {
            assert(n >= 10);
        }
        push_dec_str(out, n / 10);
        let m = n % 10;
        let d: &str = match m {
            0 => "0",
            1 => "1",
            2 => "2",
            3 => "3",
            4 => "4",
            5 => "5",
            6 => "6",
            7 => "7",
            8 => "8",
            _ => "9",
        };
        out.append(d);
        assert(out@ =~= old(out)@ + dec_chars(n as nat));
    }
}

} // verus!
