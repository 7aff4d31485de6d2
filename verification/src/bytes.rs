//! Big-endian fixed-width integer encodings, used for state keys whose
//! byte order must follow numeric order.
use vstd::prelude::*;

verus! {

pub open spec fn pow256(n: nat) -> nat
    decreases n,
{
    if n == 0 {
        1
    } else {
        256 * pow256((n - 1) as nat)
    }
}

/// The `n` low bytes of `x`, most significant first.
pub open spec fn be_bytes(x: nat, n: nat) -> Seq<u8>
    decreases n,
{
    if n == 0 {
        Seq::empty()
    } else {
        be_bytes(x / 256, (n - 1) as nat).push((x % 256) as u8)
    }
}

/// The number a big-endian byte string denotes.
pub open spec fn be_value(s: Seq<u8>) -> nat
    decreases s.len(),
{
    if s.len() == 0 {
        0
    } else {
        be_value(s.drop_last()) * 256 + s.last() as nat
    }
}

/// Lexicographic order on byte strings of equal length (the order in which
/// a key-value store scans keys): decided by the first position at which
/// they differ.
pub open spec fn lex_less(s: Seq<u8>, t: Seq<u8>) -> bool
    decreases s.len(),
{
    if s.len() == 0 || t.len() == 0 {
        false
    } else if s.drop_last() != t.drop_last() {
        lex_less(s.drop_last(), t.drop_last())
    } else {
        s.last() < t.last()
    }
}

pub proof fn lemma_be_bytes_len(x: nat, n: nat)
    ensures
        be_bytes(x, n).len() == n,
    decreases n,
{
    if n > 0 {
        lemma_be_bytes_len(x / 256, (n - 1) as nat);
    }
}

/// A byte string of length `n` denotes a value below `256^n`.
pub proof fn lemma_be_value_bound(s: Seq<u8>)
    ensures
        be_value(s) < pow256(s.len()),
    decreases s.len(),
{
    if s.len() > 0 {
        lemma_be_value_bound(s.drop_last());
        let p = pow256((s.len() - 1) as nat);
        let v = be_value(s.drop_last());
        let b = s.last() as nat;
        assert(v * 256 + b < 256 * p) by (nonlinear_arith)
            requires
                b < 256,
                v < p,
        ;
    }
}

/// Decoding the big-endian encoding of `x` gives back `x`.
pub proof fn lemma_be_roundtrip(x: nat, n: nat)
    requires
        x < pow256(n),
    ensures
        be_bytes(x, n).len() == n,
        be_value(be_bytes(x, n)) == x,
    decreases n,
{
    lemma_be_bytes_len(x, n);
    if n > 0 {
        let m = (n - 1) as nat;
        let q = x / 256;
        let r = x % 256;
        vstd::arithmetic::div_mod::lemma_fundamental_div_mod(x as int, 256);
        assert(q < pow256(m)) by (nonlinear_arith)
            requires
                x == 256 * q + r,
                0 <= r,
                x < 256 * pow256(m),
        ;
        lemma_be_roundtrip(q, m);
        let s = be_bytes(x, n);
        assert(s.drop_last() =~= be_bytes(q, m));
    }
}

/// Encoding the value of a byte string gives back the byte string.
pub proof fn lemma_be_value_bytes(s: Seq<u8>)
    ensures
        be_bytes(be_value(s), s.len()) == s,
    decreases s.len(),
{
    if s.len() > 0 {
        let rest = s.drop_last();
        let v = be_value(rest);
        lemma_be_value_bytes(rest);
        let b = s.last() as nat;
        let x = be_value(s);
        vstd::arithmetic::div_mod::lemma_fundamental_div_mod_converse(
            x as int,
            256,
            v as int,
            b as int,
        );
        assert(be_bytes(x, s.len()) =~= rest.push(s.last()));
        assert(rest.push(s.last()) =~= s);
    }
}

/// Equal-width byte strings with equal values are equal.
pub proof fn lemma_be_value_injective(s: Seq<u8>, t: Seq<u8>)
    requires
        s.len() == t.len(),
        be_value(s) == be_value(t),
    ensures
        s == t,
{
    lemma_be_value_bytes(s);
    lemma_be_value_bytes(t);
}

/// Big-endian encodings of equal width sort like the numbers they encode.
pub proof fn lemma_be_value_order(s: Seq<u8>, t: Seq<u8>)
    requires
        s.len() == t.len(),
    ensures
        be_value(s) < be_value(t) <==> lex_less(s, t),
    decreases s.len(),
{
    if s.len() > 0 {
        let s1 = s.drop_last();
        let t1 = t.drop_last();
        let vs = be_value(s1);
        let vt = be_value(t1);
        let a = s.last() as nat;
        let b = t.last() as nat;
        lemma_be_value_order(s1, t1);
        if s1 != t1 {
            if vs == vt {
                lemma_be_value_injective(s1, t1);
            }
            if vs < vt {
                assert(vs * 256 + a < vt * 256 + b) by (nonlinear_arith)
                    requires
                        vs < vt,
                        a < 256,
                ;
            } else {
                assert(vt * 256 + b < vs * 256 + a) by (nonlinear_arith)
                    requires
                        vt < vs,
                        b < 256,
                ;
            }
        }
    }
}

/// Big-endian encodings of equal width are equal only for equal numbers.
pub proof fn lemma_be_bytes_injective(x: nat, y: nat, n: nat)
    requires
        x < pow256(n),
        y < pow256(n),
        be_bytes(x, n) == be_bytes(y, n),
    ensures
        x == y,
{
    lemma_be_roundtrip(x, n);
    lemma_be_roundtrip(y, n);
}

/// Eight-byte big-endian keys decode to their number and sort like it.
pub proof fn lemma_u64_key_order(a: u64, b: u64)
    ensures
        be_value(be_bytes(a as nat, 8)) == a,
        be_bytes(a as nat, 8).len() == 8,
        a < b <==> lex_less(be_bytes(a as nat, 8), be_bytes(b as nat, 8)),
        a == b <==> be_bytes(a as nat, 8) == be_bytes(b as nat, 8),
{
    assert(pow256(8) == 0x1_0000_0000_0000_0000) by {
        reveal_with_fuel(pow256, 9);
    }
    lemma_be_roundtrip(a as nat, 8);
    lemma_be_roundtrip(b as nat, 8);
    lemma_be_value_order(be_bytes(a as nat, 8), be_bytes(b as nat, 8));
}

/// `u64::to_be_bytes`.
pub fn u64_to_be(x: u64) -> (r: [u8; 8])
    ensures
        r@ == be_bytes(x as nat, 8),
{
    let x1 = x / 256;
    let x2 = x1 / 256;
    let x3 = x2 / 256;
    let x4 = x3 / 256;
    let x5 = x4 / 256;
    let x6 = x5 / 256;
    let x7 = x6 / 256;
    let r = [
        (x7 % 256) as u8,
        (x6 % 256) as u8,
        (x5 % 256) as u8,
        (x4 % 256) as u8,
        (x3 % 256) as u8,
        (x2 % 256) as u8,
        (x1 % 256) as u8,
        (x % 256) as u8,
    ];
    proof {
        reveal_with_fuel(be_bytes, 9);
        assert(r@ =~= be_bytes(x as nat, 8));
    }
    r
}

/// `u64::from_be_bytes`.
pub fn u64_from_be(b: [u8; 8]) -> (r: u64)
    ensures
        r as nat == be_value(b@),
{
    let ghost s = b@;
    let v1 = b[0] as u64;
    let v2 = v1 * 256 + b[1] as u64;
    let v3 = v2 * 256 + b[2] as u64;
    let v4 = v3 * 256 + b[3] as u64;
    let v5 = v4 * 256 + b[4] as u64;
    let v6 = v5 * 256 + b[5] as u64;
    let v7 = v6 * 256 + b[6] as u64;
    let v8 = v7 * 256 + b[7] as u64;
    proof {
        assert(s.subrange(0, 0).len() == 0);
        assert(be_value(s.subrange(0, 0)) == 0);
        assert(s.subrange(0, 1).drop_last() =~= s.subrange(0, 0));
        assert(s.subrange(0, 2).drop_last() =~= s.subrange(0, 1));
        assert(s.subrange(0, 3).drop_last() =~= s.subrange(0, 2));
        assert(s.subrange(0, 4).drop_last() =~= s.subrange(0, 3));
        assert(s.subrange(0, 5).drop_last() =~= s.subrange(0, 4));
        assert(s.subrange(0, 6).drop_last() =~= s.subrange(0, 5));
        assert(s.subrange(0, 7).drop_last() =~= s.subrange(0, 6));
        assert(s.subrange(0, 8).drop_last() =~= s.subrange(0, 7));
        assert(be_value(s.subrange(0, 1)) == v1);
        assert(be_value(s.subrange(0, 2)) == v2);
        assert(be_value(s.subrange(0, 3)) == v3);
        assert(be_value(s.subrange(0, 4)) == v4);
        assert(be_value(s.subrange(0, 5)) == v5);
        assert(be_value(s.subrange(0, 6)) == v6);
        assert(be_value(s.subrange(0, 7)) == v7);
        assert(be_value(s.subrange(0, 8)) == v8);
        assert(s.subrange(0, 8) =~= s);
    }
    v8
}

/// `u16::to_be_bytes`.
pub fn u16_to_be(x: u16) -> (r: [u8; 2])
    ensures
        r@ == be_bytes(x as nat, 2),
{
    let r = [((x / 256) % 256) as u8, (x % 256) as u8];
    proof {
        reveal_with_fuel(be_bytes, 3);
        assert(r@ =~= be_bytes(x as nat, 2));
    }
    r
}

} // verus!
