//! Arithmetic modulo the order of the pairing groups.
//!
//! Every group of the pairing setting (the two source groups and the target
//! group) is cyclic of the same prime order, so an element is determined by
//! its exponent with respect to the group's fixed generator, an integer below
//! the order. The contracts of this crate speak of group elements through
//! those exponents; this module holds the arithmetic on them.

use vstd::arithmetic::div_mod::{
    lemma_add_mod_noop, lemma_mod_multiples_vanish, lemma_mul_mod_noop_general, lemma_small_mod,
};
use vstd::prelude::*;

verus! {

/// The order of the scalar field and of the three pairing groups of BLS12-381.
pub open spec fn order() -> nat {
    0x73eda753299d7d483339d80809a1d80553bda402fffe5bfeffffffff00000001nat
}

/// Sum of two residues.
pub open spec fn add_mod(a: nat, b: nat) -> nat {
    (a + b) % order()
}

/// Product of two residues.
pub open spec fn mul_mod(a: nat, b: nat) -> nat {
    (a * b) % order()
}

/// The residue that added to `a` gives zero.
pub open spec fn neg_mod(a: nat) -> nat {
    if a % order() == 0 {
        0
    } else {
        (order() - a % order()) as nat
    }
}

/// `x` is the reduced multiplicative inverse of `a`.
pub open spec fn is_inverse(a: nat, x: nat) -> bool {
    x < order() && mul_mod(a, x) == 1
}

/// `a` has a multiplicative inverse modulo the order.
pub open spec fn invertible(a: nat) -> bool {
    exists|x: nat| is_inverse(a, x)
}

/// The reduced multiplicative inverse of `a`, and zero where there is none.
pub open spec fn inverse_mod(a: nat) -> nat {
    if invertible(a) {
        choose|x: nat| is_inverse(a, x)
    } else {
        0
    }
}

/// A reduced residue is unchanged by reduction, by adding zero and by
/// multiplying with one.
pub proof fn lemma_reduced(a: nat)
    requires
        a < order(),
    ensures
        a % order() == a,
        add_mod(a, 0) == a,
        add_mod(0, a) == a,
        mul_mod(a, 1) == a,
        mul_mod(1, a) == a,
{
    lemma_small_mod(a, order());
    assert(a * 1 == a && 1 * a == a) by (nonlinear_arith);
}

/// Zero annihilates.
pub proof fn lemma_mul_mod_zero(a: nat)
    ensures
        mul_mod(a, 0) == 0,
        mul_mod(0, a) == 0,
{
    assert(a * 0 == 0 && 0 * a == 0) by (nonlinear_arith);
    lemma_small_mod(0, order());
}

/// Multiplication of residues is commutative.
pub proof fn lemma_mul_mod_comm(a: nat, b: nat)
    ensures
        mul_mod(a, b) == mul_mod(b, a),
{
    assert(a * b == b * a) by (nonlinear_arith);
}

/// Multiplication of residues is associative.
pub proof fn lemma_mul_mod_assoc(a: nat, b: nat, c: nat)
    ensures
        mul_mod(mul_mod(a, b), c) == mul_mod(a, mul_mod(b, c)),
{
    let m = order() as int;
    lemma_mul_mod_noop_general((a * b) as int, c as int, m);
    lemma_mul_mod_noop_general(a as int, (b * c) as int, m);
    assert((a * b) * c == a * (b * c)) by (nonlinear_arith);
}

/// Multiplication distributes over addition of residues.
pub proof fn lemma_mul_mod_distributes(a: nat, b: nat, c: nat)
    ensures
        mul_mod(a, add_mod(b, c)) == add_mod(mul_mod(a, b), mul_mod(a, c)),
        mul_mod(add_mod(b, c), a) == add_mod(mul_mod(b, a), mul_mod(c, a)),
{
    let m = order() as int;
    lemma_mul_mod_noop_general(a as int, (b + c) as int, m);
    lemma_add_mod_noop((a * b) as int, (a * c) as int, m);
    assert(a * (b + c) == a * b + a * c) by (nonlinear_arith);
    lemma_mul_mod_comm(add_mod(b, c), a);
    lemma_mul_mod_comm(b, a);
    lemma_mul_mod_comm(c, a);
}

/// Adding a residue and then its negation gives back the start.
pub proof fn lemma_add_mod_cancel(a: nat, b: nat)
    ensures
        add_mod(add_mod(a, b), neg_mod(b)) == a % order(),
{
    let m = order() as int;
    lemma_add_mod_noop((a + b) as int, neg_mod(b) as int, m);
    lemma_add_mod_noop(a as int, b as int, m);
    if b % order() == 0 {
        lemma_small_mod(0, order());
        lemma_add_mod_noop((a + b) as int, 0, m);
    } else {
        let nb = (order() - b % order()) as nat;
        lemma_small_mod(nb, order());
        // (a + b) % m + nb is congruent to a % m + b % m + m - b % m
        lemma_add_mod_noop(((a % order()) + (b % order())) as int, nb as int, m);
        assert((a % order()) + (b % order()) + nb == (a % order()) + 1 * m);
        lemma_mod_multiples_vanish(1, (a % order()) as int, m);
        lemma_small_mod(a % order(), order());
    }
}

/// Two sums with a common term are equal exactly when the other terms are
/// congruent.
pub proof fn lemma_add_mod_common_term(a: nat, b: nat, c: nat)
    ensures
        (add_mod(a, c) == add_mod(b, c)) == (a % order() == b % order()),
{
    let m = order() as int;
    lemma_add_mod_cancel(a, c);
    lemma_add_mod_cancel(b, c);
    lemma_add_mod_noop(a as int, c as int, m);
    lemma_add_mod_noop(b as int, c as int, m);
}

/// Multiplying by a negation negates the product.
pub proof fn lemma_mul_mod_neg(a: nat, b: nat)
    ensures
        mul_mod(a, neg_mod(b)) == neg_mod(mul_mod(a, b)),
{
    let m = order() as int;
    let p = mul_mod(a, b);
    // a * neg(b) + a * b is a multiple of the order
    lemma_mul_mod_distributes(a, neg_mod(b), b);
    lemma_add_mod_cancel(0, b);
    lemma_small_mod(0, order());
    assert(add_mod(neg_mod(b), b) == 0) by {
        lemma_add_mod_noop(0, b as int, m);
        if b % order() != 0 {
            lemma_add_mod_noop(neg_mod(b) as int, b as int, m);
            lemma_small_mod(neg_mod(b), order());
            lemma_mod_multiples_vanish(1, 0, m);
        }
    }
    lemma_mul_mod_zero(a);
    // so mul(a, neg b) + p == 0 mod order, with both reduced
    let q = mul_mod(a, neg_mod(b));
    assert(add_mod(q, p) == 0);
    if p == 0 {
        lemma_small_mod(q, order());
    } else {
        lemma_small_mod(p, order());
        assert(q + p == order()) by {
            if q + p < order() {
                lemma_small_mod(q + p, order());
            } else {
                assert(q + p < 2 * order());
                lemma_mod_multiples_vanish(-1, (q + p) as int, m);
                lemma_small_mod((q + p - order()) as nat, order());
            }
        }
    }
}

/// An invertible residue times its inverse is one.
pub proof fn lemma_inverse(a: nat)
    requires
        invertible(a),
    ensures
        is_inverse(a, inverse_mod(a)),
        mul_mod(a, inverse_mod(a)) == 1,
        mul_mod(inverse_mod(a), a) == 1,
{
    lemma_mul_mod_comm(a, inverse_mod(a));
}

/// A residue has at most one reduced inverse.
pub proof fn lemma_inverse_unique(a: nat, x: nat, y: nat)
    requires
        is_inverse(a, x),
        is_inverse(a, y),
    ensures
        x == y,
{
    // x == x * (a * y) == (x * a) * y == y
    lemma_mul_mod_assoc(x, a, y);
    lemma_mul_mod_comm(x, a);
    lemma_reduced(x);
    lemma_reduced(y);
}

} // verus!
