//! The first source group of the pairing.

use crate::arith::{add_mod, mul_mod, order};
use crate::scalar::{scalar_value, Scalar};
use amcl_wrapper::field_elem::FieldElement;
use amcl_wrapper::group_elem::GroupElement;
use amcl_wrapper::group_elem_g1::G1;
use vstd::prelude::*;

verus! {

#[verifier::external_type_specification]
#[verifier::external_body]
pub struct ExG1(G1);

/// The exponent of a point of the first source group with respect to the
/// group's generator: below the group order for the points of the
/// prime-order subgroup, and for no other value.
pub uninterp spec fn g1_exponent(p: G1) -> nat;

/// The exponent of the point that the substrate's hash into the first source
/// group gives for a message.
pub uninterp spec fn g1_hash_exponent(msg: Seq<u8>) -> nat;

/// A point of the first source group, seen as its exponent with respect to
/// the generator.
pub struct G1Point {
    inner: G1,
}

impl View for G1Point {
    type V = nat;

    closed spec fn view(&self) -> nat {
        g1_exponent(self.inner)
    }
}

impl G1Point {
    /// Every point lies in the subgroup of prime order.
    #[verifier::type_invariant]
    pub open spec fn in_subgroup(self) -> bool {
        self@ < order()
    }

    /// The fixed generator of the group.
    pub fn generator() -> (g: G1Point)
        ensures
            g@ == 1,
    {
        G1Point { inner: g1_generator() }
    }

    /// The point of the substrate that this point holds.
    pub fn as_g1(&self) -> (raw: &G1)
        ensures
            g1_exponent(*raw) == self@,
    {
        &self.inner
    }

    /// The group operation, written as a sum.
    pub fn plus(&self, other: &G1Point) -> (sum: G1Point)
        ensures
            sum@ == add_mod(self@, other@),
    {
        proof {
            use_type_invariant(self);
            use_type_invariant(other);
        }
        G1Point { inner: g1_plus(&self.inner, &other.inner) }
    }

    /// The point added to itself `s` times.
    pub fn scalar_mul(&self, s: &Scalar) -> (product: G1Point)
        ensures
            product@ == mul_mod(self@, s@),
    {
        proof {
            use_type_invariant(self);
            use_type_invariant(s);
        }
        G1Point { inner: g1_scalar_mul(&self.inner, s.as_field_element()) }
    }
}

/// Hashes a byte string to a point of the first source group.
pub fn hash_to_g1(bytes: &[u8]) -> (p: G1Point)
    ensures
        p@ == g1_hash_exponent(bytes@),
{
    G1Point { inner: g1_from_msg_hash(bytes) }
}

/// `G1::generator`: the point that all exponents refer to.
#[verifier::external_body]
fn g1_generator() -> (g: G1)
    ensures
        g1_exponent(g) == 1,
{
    G1::generator()
}

/// `G1::from_msg_hash`: the result lies in the prime-order subgroup and
/// depends on the message alone.
#[verifier::external_body]
fn g1_from_msg_hash(msg: &[u8]) -> (p: G1)
    ensures
        g1_exponent(p) == g1_hash_exponent(msg@),
        g1_exponent(p) < order(),
{
    G1::from_msg_hash(msg)
}

/// `G1::plus`: the group operation, which adds exponents.
#[verifier::external_body]
fn g1_plus(p: &G1, q: &G1) -> (sum: G1)
    requires
        g1_exponent(*p) < order(),
        g1_exponent(*q) < order(),
    ensures
        g1_exponent(sum) == add_mod(g1_exponent(*p), g1_exponent(*q)),
{
    p.plus(q)
}

/// `G1::scalar_mul_const_time`: the scalar multiple, whose exponent is the
/// product of the point's exponent and the scalar.
#[verifier::external_body]
fn g1_scalar_mul(p: &G1, s: &FieldElement) -> (product: G1)
    requires
        g1_exponent(*p) < order(),
        scalar_value(*s) < order(),
    ensures
        g1_exponent(product) == mul_mod(g1_exponent(*p), scalar_value(*s)),
{
    p.scalar_mul_const_time(s)
}

} // verus!
