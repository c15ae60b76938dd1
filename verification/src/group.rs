//! The arithmetic that the signature scheme rests on: integers modulo the
//! order of the Ristretto group, and the little-endian reading of byte strings.
//!
//! Every scalar is modelled by the natural number below the group order that
//! it stands for. Every group element is modelled by its discrete logarithm to
//! the basepoint `G`: the unique `k` below the group order with `k * G` equal to
//! the element. Under that model adding two elements adds their logarithms, and
//! multiplying an element by a scalar multiplies its logarithm, both modulo the
//! group order.
use vstd::arithmetic::div_mod::*;
use vstd::arithmetic::mul::*;
use vstd::prelude::*;

verus! {

/// The prime order of the Ristretto group,
/// `2^252 + 27742317777372353535851937790883648493`.
pub open spec fn group_order() -> nat {
    7237005577332262213973186563042994240857116359379907606001950938285454250989nat
}

/// Sum modulo the group order.
pub open spec fn add_mod(a: nat, b: nat) -> nat {
    (a + b) % group_order()
}

/// Difference modulo the group order.
pub open spec fn sub_mod(a: nat, b: nat) -> nat {
    ((a - b) % (group_order() as int)) as nat
}

/// Product modulo the group order.
pub open spec fn mul_mod(a: nat, b: nat) -> nat {
    (a * b) % group_order()
}

/// The number that a byte string encodes, least significant byte first.
pub open spec fn le_value(bytes: Seq<u8>) -> nat
    decreases bytes.len(),
{
    if bytes.len() == 0 {
        0
    } else {
        bytes[0] as nat + 256 * le_value(bytes.drop_first())
    }
}

/// Two byte strings of one length that encode the same number are equal.
pub proof fn lemma_le_value_injective(a: Seq<u8>, b: Seq<u8>)
    requires
        a.len() == b.len(),
        le_value(a) == le_value(b),
    ensures
        a == b,
    decreases a.len(),
{
    if a.len() == 0 {
        assert(a =~= b);
    } else {
        let ta = a.drop_first();
        let tb = b.drop_first();
        let va = le_value(ta);
        let vb = le_value(tb);
        assert(a[0] as nat + 256 * va == b[0] as nat + 256 * vb);
        assert(a[0] == b[0] && va == vb) by (nonlinear_arith)
            requires
                a[0] as nat + 256 * va == b[0] as nat + 256 * vb,
                a[0] < 256,
                b[0] < 256,
        ;
        lemma_le_value_injective(ta, tb);
        assert(a =~= seq![a[0]] + ta);
        assert(b =~= seq![b[0]] + tb);
    }
}

/// A sum, a difference and a product modulo the group order lie below it.
pub proof fn lemma_mod_ops_bounded(a: nat, b: nat)
    ensures
        add_mod(a, b) < group_order(),
        sub_mod(a, b) < group_order(),
        mul_mod(a, b) < group_order(),
{
    let l = group_order() as int;
    lemma_mod_bound((a + b) as int, l);
    lemma_mod_bound(a - b, l);
    lemma_mul_nonnegative(a as int, b as int);
    lemma_mod_bound((a * b) as int, l);
}

/// The identity behind a Schnorr response: with `r = alpha - c * x`,
/// `r * B + c * (x * B) = alpha * B` for every element `B` of the group, here
/// on the logarithm `base` of `B`.
pub proof fn lemma_response_cancels(alpha: nat, c: nat, x: nat, base: nat)
    ensures
        add_mod(mul_mod(sub_mod(alpha, mul_mod(c, x)), base), mul_mod(c, mul_mod(x, base)))
            == mul_mod(alpha, base),
{
    let l = group_order() as int;
    let cx = mul_mod(c, x) as int;
    let r = sub_mod(alpha, mul_mod(c, x)) as int;
    let xb = mul_mod(x, base) as int;
    let a = alpha as int;
    let b = base as int;
    let ci = c as int;
    let xi = x as int;
    // r * b is congruent to (alpha - c * x) * b
    lemma_mul_mod_noop_left(a - cx, b, l);
    assert((r * b) % l == ((a - cx) * b) % l);
    // cx * b is congruent to c * x * b
    lemma_mul_mod_noop_left(ci * xi, b, l);
    assert((cx * b) % l == ((ci * xi) * b) % l);
    // c * xb is congruent to c * (x * b)
    lemma_mul_mod_noop_right(ci, xi * b, l);
    assert((ci * xb) % l == (ci * (xi * b)) % l);
    assert((ci * xi) * b == ci * (xi * b)) by (nonlinear_arith);
    assert((a - cx) * b == a * b - cx * b) by (nonlinear_arith);
    // so cx * b and c * xb are congruent, and their difference vanishes
    lemma_sub_mod_noop(a * b, cx * b, l);
    lemma_sub_mod_noop(a * b, ci * xb, l);
    assert((a * b - cx * b) % l == (a * b - ci * xb) % l);
    lemma_add_mod_noop(r * b, ci * xb, l);
    lemma_add_mod_noop(a * b - ci * xb, ci * xb, l);
    assert(((r * b) % l + (ci * xb) % l) % l == (a * b - ci * xb + ci * xb) % l);
}

} // verus!
