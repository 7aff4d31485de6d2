//! Turning rendered bytes into `String`s.
use vstd::prelude::*;
use vstd::string::StringSliceAdditionalSpecFns;
use vstd::utf8::{encode_utf8, is_ascii_chars, is_ascii_chars_encode_utf8, valid_utf8};

use crate::render::{decimal, lemma_decimal_digits, push_bytes, push_decimal};

verus! {

/// Every byte is 7-bit ASCII.
pub open spec fn all_ascii(b: Seq<u8>) -> bool {
    forall|i: int| 0 <= i < b.len() ==> #[trigger] b[i] < 128
}

/// ASCII bytes are valid UTF-8.
pub proof fn lemma_ascii_valid_utf8(b: Seq<u8>)
    requires
        all_ascii(b),
    ensures
        valid_utf8(b),
{
    let c = Seq::new(b.len(), |i: int| b[i] as char);
    assert(is_ascii_chars(c));
    is_ascii_chars_encode_utf8(c);
    assert(encode_utf8(c) =~= b);
    vstd::utf8::encode_utf8_valid_utf8(c);
}

pub proof fn lemma_decimal_ascii(n: nat)
    ensures
        all_ascii(decimal(n)),
{
    lemma_decimal_digits(n);
}

/// `String::from_utf8`: a vector of valid UTF-8 becomes the `String` whose
/// UTF-8 bytes are exactly that vector (std documents that the bytes are
/// moved, not re-encoded).
#[verifier::external_body]
pub(crate) fn utf8_string(bytes: Vec<u8>) -> (r: String)
    requires
        valid_utf8(bytes@),
    ensures
        encode_utf8(r@) == bytes@,
{
    match String::from_utf8(bytes) {
        Ok(s) => s,
        Err(_) => String::new(),
    }
}

/// The empty byte string is valid UTF-8.
pub proof fn lemma_empty_valid_utf8()
    ensures
        valid_utf8(Seq::<u8>::empty()),
{
    lemma_ascii_valid_utf8(Seq::<u8>::empty());
}

/// Appends the UTF-8 bytes of `s`.
pub(crate) fn push_str(out: &mut Vec<u8>, s: &str)
    ensures
        final(out)@ == old(out)@ + s.spec_bytes(),
        valid_utf8(old(out)@) ==> valid_utf8(final(out)@),
{
    proof {
        vstd::utf8::encode_utf8_valid_utf8(s@);
        if valid_utf8(old(out)@) {
            vstd::utf8::valid_utf8_concat(old(out)@, s.spec_bytes());
        }
    }
    push_bytes(out, s.as_bytes());
}

/// Appends the decimal rendering of `n`.
pub(crate) fn push_u64_text(out: &mut Vec<u8>, n: u64)
    ensures
        final(out)@ == old(out)@ + decimal(n as nat),
        valid_utf8(old(out)@) ==> valid_utf8(final(out)@),
{
    proof {
        lemma_decimal_ascii(n as nat);
        lemma_ascii_valid_utf8(decimal(n as nat));
        if valid_utf8(old(out)@) {
            vstd::utf8::valid_utf8_concat(old(out)@, decimal(n as nat));
        }
    }
    push_decimal(out, n);
}

/// A fresh, empty text buffer.
pub(crate) fn new_text() -> (r: Vec<u8>)
    ensures
        r@ == Seq::<u8>::empty(),
        valid_utf8(r@),
{
    proof {
        lemma_empty_valid_utf8();
    }
    Vec::new()
}

} // verus!
