//! The second source group of the pairing.

use crate::arith::{add_mod, mul_mod, order};
use crate::scalar::{scalar_value, Scalar};
use amcl_wrapper::field_elem::FieldElement;
use amcl_wrapper::group_elem::GroupElement;
use amcl_wrapper::group_elem_g2::G2;
use vstd::prelude::*;

verus! {

#[verifier::external_type_specification]
#[verifier::external_body]
pub struct ExG2(G2);

/// The exponent of a point of the second source group with respect to the
/// group's generator: below the group order for the points of the
/// prime-order subgroup, and for no other value.
pub uninterp spec fn g2_exponent(p: G2) -> nat;

/// The exponent of the point that the substrate's hash into the second
/// source group gives for a message.
pub uninterp spec fn g2_hash_exponent(msg: Seq<u8>) -> nat;

/// The uncompressed encoding of the point of the second source group that
/// has a given exponent.
pub uninterp spec fn g2_encoding(exponent: nat) -> Seq<u8>;

/// The encoding of the neutral point: the mark of an uncompressed point,
/// then the coordinates zero and one, each of two coefficients of 48 bytes.
pub open spec fn neutral_encoding() -> Seq<u8> {
    Seq::new(
        193,
        |i: int|
            if i == 0 {
                4u8
            } else if i == 144 {
                1u8
            } else {
                0u8
            },
    )
}

/// A point of the second source group, seen as its exponent with respect to
/// the generator.
pub struct G2Point {
    inner: G2,
}

impl View for G2Point {
    type V = nat;

    closed spec fn view(&self) -> nat {
        g2_exponent(self.inner)
    }
}

impl G2Point {
    /// Every point lies in the subgroup of prime order.
    #[verifier::type_invariant]
    pub open spec fn in_subgroup(self) -> bool {
        self@ < order()
    }

    /// The fixed generator of the group.
    pub fn generator() -> (g: G2Point)
        ensures
            g@ == 1,
    {
        G2Point { inner: g2_generator() }
    }

    /// The point of the substrate that this point holds.
    pub fn as_g2(&self) -> (raw: &G2)
        ensures
            g2_exponent(*raw) == self@,
    {
        &self.inner
    }

    /// The uncompressed encoding of the point. The neutral point is written
    /// as the substrate writes its constant, however it was computed.
    pub fn to_bytes(&self) -> (bytes: Vec<u8>)
        ensures
            bytes@ == g2_encoding(self@),
            self@ == 0 ==> bytes@ == neutral_encoding(),
    {
        proof {
            use_type_invariant(self);
        }
        if g2_is_identity(&self.inner) {
            g2_identity_to_bytes()
        } else {
            g2_to_bytes(&self.inner)
        }
    }

    /// The group operation, written as a sum.
    pub fn plus(&self, other: &G2Point) -> (sum: G2Point)
        ensures
            sum@ == add_mod(self@, other@),
    {
        proof {
            use_type_invariant(self);
            use_type_invariant(other);
        }
        G2Point { inner: g2_plus(&self.inner, &other.inner) }
    }

    /// The point added to itself `s` times.
    pub fn scalar_mul(&self, s: &Scalar) -> (product: G2Point)
        ensures
            product@ == mul_mod(self@, s@),
    {
        proof {
            use_type_invariant(self);
            use_type_invariant(s);
        }
        G2Point { inner: g2_scalar_mul(&self.inner, s.as_field_element()) }
    }
}

/// Hashes a byte string to a point of the second source group.
pub fn hash_to_g2(bytes: &[u8]) -> (p: G2Point)
    ensures
        p@ == g2_hash_exponent(bytes@),
{
    G2Point { inner: g2_from_msg_hash(bytes) }
}

/// `G2::generator`: the point that all exponents refer to.
#[verifier::external_body]
fn g2_generator() -> (g: G2)
    ensures
        g2_exponent(g) == 1,
{
    G2::generator()
}

/// `G2::from_msg_hash`: the result lies in the prime-order subgroup and
/// depends on the message alone.
#[verifier::external_body]
fn g2_from_msg_hash(msg: &[u8]) -> (p: G2)
    ensures
        g2_exponent(p) == g2_hash_exponent(msg@),
        g2_exponent(p) < order(),
{
    G2::from_msg_hash(msg)
}

/// `G2::is_identity`: whether the point is the neutral one.
#[verifier::external_body]
fn g2_is_identity(p: &G2) -> (neutral: bool)
    requires
        g2_exponent(*p) < order(),
    ensures
        neutral == (g2_exponent(*p) == 0),
{
    p.is_identity()
}

/// `G2::to_bytes` without compression on `G2::identity`: the encoding of the
/// neutral point, which is the mark 4 and the coordinates zero and one.
#[verifier::external_body]
fn g2_identity_to_bytes() -> (bytes: Vec<u8>)
    ensures
        bytes@ == neutral_encoding(),
        bytes@ == g2_encoding(0),
{
    G2::identity().to_bytes(false)
}

/// `G2::to_bytes` without compression: the encoding of the affine point,
/// which depends on the point alone. The neutral point is left out: it has
/// no affine form, and the substrate writes the coordinates that its
/// computation left.
#[verifier::external_body]
fn g2_to_bytes(p: &G2) -> (bytes: Vec<u8>)
    requires
        0 < g2_exponent(*p) < order(),
    ensures
        bytes@ == g2_encoding(g2_exponent(*p)),
{
    p.to_bytes(false)
}

/// `G2::plus`: the group operation, which adds exponents.
#[verifier::external_body]
fn g2_plus(p: &G2, q: &G2) -> (sum: G2)
    requires
        g2_exponent(*p) < order(),
        g2_exponent(*q) < order(),
    ensures
        g2_exponent(sum) == add_mod(g2_exponent(*p), g2_exponent(*q)),
{
    p.plus(q)
}

/// `G2::scalar_mul_const_time`: the scalar multiple, whose exponent is the
/// product of the point's exponent and the scalar.
#[verifier::external_body]
fn g2_scalar_mul(p: &G2, s: &FieldElement) -> (product: G2)
    requires
        g2_exponent(*p) < order(),
        scalar_value(*s) < order(),
    ensures
        g2_exponent(product) == mul_mod(g2_exponent(*p), scalar_value(*s)),
{
    p.scalar_mul_const_time(s)
}

} // verus!
