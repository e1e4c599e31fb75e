//! Random decision and escalation identifiers.
//!
//! An identifier is 16 random bytes rendered as 32 lowercase hex digits.
//! The randomness comes from the operating system and can fail; the hex
//! rendering is exact.

use vstd::prelude::*;
use crate::text::hex_digit;

verus! {

/// The outside error type of the randomness source.
#[verifier::external_type_specification]
#[verifier::external_body]
pub struct ExGetrandomError(getrandom::Error);

/// Failure to draw randomness from the operating system.
#[derive(Debug, Clone, Copy, PartialEq, Eq, Structural)]
pub enum IdError {
    RandomUnavailable,
}

/// Lowercase hex digit for a value below sixteen, as a character.
pub open spec fn hex_char(d: nat) -> char {
    hex_digit(d) as char
}

/// Lowercase hex rendering of a byte sequence, two digits per byte, high
/// nibble first.
pub open spec fn hex_of(bytes: Seq<u8>) -> Seq<char>
    decreases bytes.len(),
{
    if bytes.len() == 0 {
        Seq::empty()
    } else {
        hex_of(bytes.drop_last()) + seq![
            hex_char((bytes.last() / 16) as nat),
            hex_char((bytes.last() % 16) as nat),
        ]
    }
}

/// A lowercase hexadecimal digit character.
pub open spec fn is_hex_char(c: char) -> bool {
    ('0' <= c && c <= '9') || ('a' <= c && c <= 'f')
}

/// Each byte contributes exactly two digits, and every character of the
/// rendering is a lowercase hex digit.
pub proof fn lemma_hex_of_len(bytes: Seq<u8>)
    ensures
        hex_of(bytes).len() == 2 * bytes.len(),
        forall|i: int| 0 <= i < hex_of(bytes).len() ==> is_hex_char(#[trigger] hex_of(bytes)[i]),
    decreases bytes.len(),
{
    if bytes.len() > 0 {
        lemma_hex_of_len(bytes.drop_last());
        assert(is_hex_char(hex_char((bytes.last() / 16) as nat)));
        assert(is_hex_char(hex_char((bytes.last() % 16) as nat)));
    }
}

/// Relies on getrandom::getrandom: fills the whole buffer with random bytes
/// on success and reports an error otherwise; the buffer keeps its length
/// either way, and nothing can be promised about the bytes themselves.
#[verifier::external_body]
fn fill_random(buf: &mut Vec<u8>) -> (r: Result<(), getrandom::Error>)
    ensures
        final(buf)@.len() == old(buf)@.len(),
{
    getrandom::getrandom(buf.as_mut_slice())
}

/// Relies on hex::encode: lowercase hex, two digits per input byte, high
/// nibble first.
#[verifier::external_body]
fn hex_encode(b: &Vec<u8>) -> (r: String)
    ensures
        r@ == hex_of(b@),
{
    hex::encode(b.as_slice())
}

/// Draw a fresh 32-digit lowercase hex identifier, or report that the
/// randomness source is unavailable.
pub fn random_hex_id() -> (r: Result<String, IdError>)
    ensures
        r matches Ok(s) ==> s@.len() == 32 && (forall|i: int|
            0 <= i < s@.len() ==> is_hex_char(#[trigger] s@[i])),
{
    let mut buf: Vec<u8> = Vec::new();
    let mut i: usize = 0;
    while i < 16
        invariant
            i <= 16,
            buf@.len() == i,
        decreases 16 - i,
    {
        buf.push(0);
        i = i + 1;
    }
    match fill_random(&mut buf) {
        Ok(()) => {
            let s = hex_encode(&buf);
            proof {
                lemma_hex_of_len(buf@);
            }
            Ok(s)
        },
        Err(_) => Err(IdError::RandomUnavailable),
    }
}

} // verus!
