//! Byte-level text rendering shared by the ABCI event encoder and the
//! human-readable renderings of the wire types: little-endian length
//! prefixes, decimal integers and lower-case hex.
use vstd::prelude::*;

verus! {

/// Two little-endian bytes of `n`, truncated to 16 bits (the behaviour of
/// `n as u16` followed by `to_le_bytes`).
pub open spec fn le16(n: nat) -> Seq<u8> {
    seq![(n % 256) as u8, ((n % 65536) / 256) as u8]
}

/// Only the low 16 bits of a length reach the wire.
pub proof fn lemma_le16_mod(a: nat, b: nat)
    requires
        a % 65536 == b % 65536,
    ensures
        le16(a) == le16(b),
{
    vstd::arithmetic::div_mod::lemma_mod_mod(a as int, 256, 256);
    vstd::arithmetic::div_mod::lemma_mod_mod(b as int, 256, 256);
}

/// The low 16 bits of twice a length.
pub proof fn lemma_double_mod(n: nat)
    ensures
        (2 * n) % 65536 == 2 * (n % 32768),
{
    vstd::arithmetic::div_mod::lemma_fundamental_div_mod(n as int, 32768);
    let q = n / 32768;
    let r = n % 32768;
    assert(2 * n == 65536 * q + 2 * r);
    vstd::arithmetic::div_mod::lemma_mod_multiples_vanish(q as int, (2 * r) as int, 65536);
    vstd::arithmetic::div_mod::lemma_small_mod((2 * r) as nat, 65536);
}

/// A length-prefixed string: `[len: u16 LE][bytes]`.
pub open spec fn frame(s: Seq<u8>) -> Seq<u8> {
    le16(s.len()) + s
}

/// One ABCI attribute: a framed key followed by a framed value.
pub open spec fn attr(key: Seq<u8>, value: Seq<u8>) -> Seq<u8> {
    frame(key) + frame(value)
}

/// ASCII digit for `d < 10`.
pub open spec fn digit(d: nat) -> u8 {
    (48 + d) as u8
}

/// Decimal rendering of a natural number, most significant digit first,
/// without leading zeros (`0` renders as `"0"`).
pub open spec fn decimal(n: nat) -> Seq<u8>
    decreases n,
{
    if n < 10 {
        seq![digit(n)]
    } else {
        decimal(n / 10).push(digit(n % 10))
    }
}

/// Decimal rendering of a signed integer: a leading `-` for negatives.
pub open spec fn signed_decimal(i: int) -> Seq<u8> {
    if i < 0 {
        seq![45u8] + decimal((-i) as nat)
    } else {
        decimal(i as nat)
    }
}

/// The length a two-byte little-endian prefix denotes.
pub open spec fn le16_value(b0: u8, b1: u8) -> nat {
    b0 as nat + 256 * b1 as nat
}

/// Reads one length-prefixed string off the front of `s`: the string and
/// what follows it.
pub open spec fn unframe(s: Seq<u8>) -> (Seq<u8>, Seq<u8>) {
    let n = le16_value(s[0], s[1]) as int;
    (s.subrange(2, 2 + n), s.subrange(2 + n, s.len() as int))
}

/// The encoding is self-describing: a reader that takes the two-byte length
/// and then that many bytes recovers every string shorter than 64 KiB
/// exactly, and is left positioned at whatever was written next.
pub proof fn lemma_unframe_frame(x: Seq<u8>, rest: Seq<u8>)
    requires
        x.len() < 65536,
    ensures
        unframe(frame(x) + rest) == (x, rest),
{
    let n = x.len();
    let s = frame(x) + rest;
    vstd::arithmetic::div_mod::lemma_fundamental_div_mod(n as int, 256);
    vstd::arithmetic::div_mod::lemma_small_mod(n, 65536);
    assert(le16_value(s[0], s[1]) == n);
    assert(s.subrange(2, 2 + n as int) =~= x);
    assert(s.subrange(2 + n as int, s.len() as int) =~= rest);
}

/// An attribute reads back as its key followed by its value.
pub proof fn lemma_unframe_attr(key: Seq<u8>, value: Seq<u8>, rest: Seq<u8>)
    requires
        key.len() < 65536,
        value.len() < 65536,
    ensures
        unframe(attr(key, value) + rest).0 == key,
        unframe(unframe(attr(key, value) + rest).1) == (value, rest),
{
    vstd::seq_lib::lemma_concat_associative(frame(key), frame(value), rest);
    lemma_unframe_frame(key, frame(value) + rest);
    lemma_unframe_frame(value, rest);
}

/// Lower-case hex digit for `v < 16` (`0123456789abcdef`).
pub open spec fn hex_digit(v: nat) -> u8 {
    if v < 10 {
        (48 + v) as u8
    } else {
        (87 + v) as u8
    }
}

/// Lower-case hex rendering, two digits per byte, high nibble first.
pub open spec fn hex(s: Seq<u8>) -> Seq<u8>
    decreases s.len(),
{
    if s.len() == 0 {
        Seq::empty()
    } else {
        hex(s.drop_last()) + seq![hex_digit(s.last() as nat / 16), hex_digit(s.last() as nat % 16)]
    }
}

pub proof fn lemma_hex_len(s: Seq<u8>)
    ensures
        hex(s).len() == 2 * s.len(),
    decreases s.len(),
{
    if s.len() > 0 {
        lemma_hex_len(s.drop_last());
    }
}

/// A decimal rendering is never empty and is made of ASCII digits only.
pub proof fn lemma_decimal_digits(n: nat)
    ensures
        decimal(n).len() >= 1,
        forall|i: int| 0 <= i < decimal(n).len() ==> 48 <= #[trigger] decimal(n)[i] <= 57,
    decreases n,
{
    if n >= 10 {
        lemma_decimal_digits(n / 10);
    }
}

/// The number a string of ASCII decimal digits denotes, most significant
/// digit first.
pub open spec fn digits_value(s: Seq<u8>) -> nat
    decreases s.len(),
{
    if s.len() == 0 {
        0
    } else {
        digits_value(s.drop_last()) * 10 + (s.last() - 48) as nat
    }
}

/// The number a signed decimal string denotes: a leading `-` negates.
pub open spec fn signed_digits_value(s: Seq<u8>) -> int {
    if s.len() > 0 && s[0] == 45 {
        -(digits_value(s.drop_first()) as int)
    } else {
        digits_value(s) as int
    }
}

/// A decimal rendering reads back as the number it renders, uses only the
/// digits `0`-`9`, and has no leading zero (only `0` itself starts with one).
pub proof fn lemma_decimal_denotes(n: nat)
    ensures
        digits_value(decimal(n)) == n,
        decimal(n).len() >= 1,
        forall|i: int| 0 <= i < decimal(n).len() ==> 48 <= #[trigger] decimal(n)[i] <= 57,
        decimal(n)[0] == 48 ==> n == 0,
    decreases n,
{
    lemma_decimal_digits(n);
    let d = decimal(n);
    if n >= 10 {
        lemma_decimal_denotes(n / 10);
        assert(d.drop_last() =~= decimal(n / 10));
        assert(d[0] == decimal(n / 10)[0]);
        assert(d.last() == digit(n % 10));
        assert(digit(n % 10) == 48 + n % 10);
        assert(digits_value(d) == (n / 10) * 10 + n % 10);
        assert((n / 10) * 10 + n % 10 == n);
    } else {
        assert(d.drop_last() =~= Seq::<u8>::empty());
        assert(digits_value(d.drop_last()) == 0);
        assert(d.last() == 48 + n);
        assert(digits_value(d) == n);
    }
}

/// A signed decimal rendering reads back as the value it renders, with a
/// leading `-` exactly for negative values.
pub proof fn lemma_signed_decimal_denotes(i: int)
    ensures
        signed_digits_value(signed_decimal(i)) == i,
        (signed_decimal(i)[0] == 45) <==> i < 0,
{
    if i < 0 {
        lemma_decimal_denotes((-i) as nat);
        let d = decimal((-i) as nat);
        assert((seq![45u8] + d).drop_first() =~= d);
        assert((seq![45u8] + d)[0] == 45);
    } else {
        lemma_decimal_denotes(i as nat);
    }
}

/// The value of one lower-case hex digit.
pub open spec fn hex_digit_value(c: u8) -> nat {
    if c <= 57 {
        (c - 48) as nat
    } else {
        (c - 87) as nat
    }
}

/// A hex rendering holds two lower-case hex digits (`0`-`9`, `a`-`f`) per
/// byte, high nibble first, that read back as that byte.
pub proof fn lemma_hex_denotes(s: Seq<u8>)
    ensures
        hex(s).len() == 2 * s.len(),
        forall|i: int|
            0 <= i < hex(s).len() ==> (48 <= #[trigger] hex(s)[i] <= 57 || 97 <= hex(s)[i] <= 102),
        forall|i: int|
            0 <= i < s.len() ==> hex_digit_value(#[trigger] hex(s)[2 * i]) * 16 + hex_digit_value(
                hex(s)[2 * i + 1],
            ) == s[i],
    decreases s.len(),
{
    lemma_hex_len(s);
    if s.len() > 0 {
        let t = s.drop_last();
        lemma_hex_denotes(t);
        lemma_hex_len(t);
        let b = s.last() as nat;
        let h = hex(s);
        assert(h == hex(t) + seq![hex_digit(b / 16), hex_digit(b % 16)]);
        assert forall|i: int| 0 <= i < h.len() implies (48 <= #[trigger] h[i] <= 57 || 97 <= h[i]
            <= 102) by {
            if i < hex(t).len() {
                assert(h[i] == hex(t)[i]);
            }
        }
        assert forall|i: int| 0 <= i < s.len() implies hex_digit_value(#[trigger] h[2 * i]) * 16
            + hex_digit_value(h[2 * i + 1]) == s[i] by {
            if i < t.len() {
                assert(h[2 * i] == hex(t)[2 * i]);
                assert(h[2 * i + 1] == hex(t)[2 * i + 1]);
                assert(s[i] == t[i]);
            } else {
                assert(h[2 * i] == hex_digit(b / 16));
                assert(h[2 * i + 1] == hex_digit(b % 16));
            }
        }
    }
}

/// Appends the two little-endian bytes of `n` truncated to 16 bits.
pub(crate) fn push_le16(out: &mut Vec<u8>, n: usize)
    ensures
        final(out)@ == old(out)@ + le16(n as nat),
{
    out.push((n % 256) as u8);
    out.push(((n % 65536) / 256) as u8);
    assert(final(out)@ =~= old(out)@ + le16(n as nat));
}

/// Appends `bytes` unchanged.
pub(crate) fn push_bytes(out: &mut Vec<u8>, bytes: &[u8])
    ensures
        final(out)@ == old(out)@ + bytes@,
{
    let ghost start = out@;
    let mut i: usize = 0;
    while i < bytes.len()
        invariant
            i <= bytes@.len(),
            out@ == start + bytes@.subrange(0, i as int),
        decreases bytes@.len() - i,
    {
        out.push(bytes[i]);
        i = i + 1;
        assert(out@ =~= start + bytes@.subrange(0, i as int));
    }
    assert(bytes@.subrange(0, bytes@.len() as int) =~= bytes@);
}

/// Appends the framed form of `bytes`: its length (truncated to 16 bits)
/// then the bytes.
pub(crate) fn push_framed(out: &mut Vec<u8>, bytes: &[u8])
    ensures
        final(out)@ == old(out)@ + frame(bytes@),
{
    push_le16(out, bytes.len());
    push_bytes(out, bytes);
    assert(final(out)@ =~= old(out)@ + frame(bytes@));
}

/// Appends the decimal rendering of `n`.
pub(crate) fn push_decimal(out: &mut Vec<u8>, n: u64)
    ensures
        final(out)@ == old(out)@ + decimal(n as nat),
    decreases n,
{
    if n >= 10 {
        push_decimal(out, n / 10);
    }
    out.push((48 + n % 10) as u8);
    assert(final(out)@ =~= old(out)@ + decimal(n as nat));
}

/// Appends the decimal rendering of a signed value.
pub(crate) fn push_signed_decimal(out: &mut Vec<u8>, v: i64)
    ensures
        final(out)@ == old(out)@ + signed_decimal(v as int),
{
    if v < 0 {
        out.push(45u8);
        let magnitude: u64 = ((-(v + 1)) as u64) + 1;
        push_decimal(out, magnitude);
        assert(final(out)@ =~= old(out)@ + signed_decimal(v as int));
    } else {
        push_decimal(out, v as u64);
    }
}

/// Appends the lower-case hex rendering of `bytes`.
pub(crate) fn push_hex(out: &mut Vec<u8>, bytes: &[u8])
    ensures
        final(out)@ == old(out)@ + hex(bytes@),
{
    let ghost start = out@;
    let mut i: usize = 0;
    while i < bytes.len()
        invariant
            i <= bytes@.len(),
            out@ == start + hex(bytes@.subrange(0, i as int)),
        decreases bytes@.len() - i,
    {
        let b = bytes[i];
        let hi = b / 16;
        let lo = b % 16;
        out.push(if hi < 10 { 48 + hi } else { 87 + hi });
        out.push(if lo < 10 { 48 + lo } else { 87 + lo });
        proof {
            let prefix = bytes@.subrange(0, i + 1);
            assert(prefix.drop_last() =~= bytes@.subrange(0, i as int));
            assert(prefix.last() == b);
        }
        i = i + 1;
        assert(out@ =~= start + hex(bytes@.subrange(0, i as int)));
    }
    assert(bytes@.subrange(0, bytes@.len() as int) =~= bytes@);
}

} // verus!
