//! The target group of the pairing, and the pairing itself.

use crate::arith::{add_mod, mul_mod, order};
use crate::g1::{g1_exponent, G1Point};
use crate::g2::{g2_exponent, G2Point};
use crate::scalar::{scalar_value, Scalar};
use amcl_wrapper::extension_field_gt::GT;
use amcl_wrapper::field_elem::FieldElement;
use amcl_wrapper::group_elem_g1::G1;
use amcl_wrapper::group_elem_g2::G2;
use vstd::prelude::*;

verus! {

#[verifier::external_type_specification]
#[verifier::external_body]
pub struct ExGT(GT);

/// The exponent of an element of the target group with respect to the
/// pairing of the two source groups' generators: below the group order for
/// the elements of the prime-order subgroup, and for no other value.
pub uninterp spec fn gt_exponent(x: GT) -> nat;

/// The encoding of the element of the target group that has a given exponent.
pub uninterp spec fn gt_encoding(exponent: nat) -> Seq<u8>;

/// The encoding of the neutral element: twelve coefficients of 48 bytes, the
/// first of them one and the others zero.
pub open spec fn neutral_encoding() -> Seq<u8> {
    Seq::new(576, |i: int| if i == 47 { 1u8 } else { 0u8 })
}

/// An element of the target group, seen as its exponent with respect to the
/// pairing of the generators.
pub struct GtElement {
    inner: GT,
}

impl View for GtElement {
    type V = nat;

    closed spec fn view(&self) -> nat {
        gt_exponent(self.inner)
    }
}

impl GtElement {
    /// Every element lies in the subgroup of prime order.
    #[verifier::type_invariant]
    pub open spec fn in_subgroup(self) -> bool {
        self@ < order()
    }

    /// The neutral element.
    pub fn one() -> (x: GtElement)
        ensures
            x@ == 0,
    {
        GtElement { inner: gt_one() }
    }

    /// The pairing of two points. It is bilinear: the exponents multiply.
    pub fn pairing(p: &G1Point, q: &G2Point) -> (x: GtElement)
        ensures
            x@ == mul_mod(p@, q@),
    {
        proof {
            use_type_invariant(p);
            use_type_invariant(q);
        }
        GtElement { inner: gt_pairing(p.as_g1(), q.as_g2()) }
    }

    /// The product of two pairings, computed in one pass.
    pub fn pairing_product(p1: &G1Point, q1: &G2Point, p2: &G1Point, q2: &G2Point) -> (x: GtElement)
        ensures
            x@ == add_mod(mul_mod(p1@, q1@), mul_mod(p2@, q2@)),
    {
        proof {
            use_type_invariant(p1);
            use_type_invariant(q1);
            use_type_invariant(p2);
            use_type_invariant(q2);
        }
        GtElement { inner: gt_pairing_product(p1.as_g1(), q1.as_g2(), p2.as_g1(), q2.as_g2()) }
    }

    /// The element of the substrate that this element holds.
    pub fn as_gt(&self) -> (raw: &GT)
        ensures
            gt_exponent(*raw) == self@,
    {
        &self.inner
    }

    /// The encoding of the element. The neutral element is written as the
    /// substrate writes its constant, however it was computed.
    pub fn to_bytes(&self) -> (bytes: Vec<u8>)
        ensures
            bytes@ == gt_encoding(self@),
            self@ == 0 ==> bytes@ == neutral_encoding(),
    {
        proof {
            use_type_invariant(self);
        }
        if gt_is_one(&self.inner) {
            gt_one_to_bytes()
        } else {
            gt_to_bytes(&self.inner)
        }
    }

    /// Whether two elements are the same.
    pub fn equals(&self, other: &GtElement) -> (same: bool)
        ensures
            same == (self@ == other@),
    {
        proof {
            use_type_invariant(self);
            use_type_invariant(other);
        }
        gt_eq(&self.inner, &other.inner)
    }

    /// The group operation, written as a product.
    pub fn product(&self, other: &GtElement) -> (x: GtElement)
        ensures
            x@ == add_mod(self@, other@),
    {
        proof {
            use_type_invariant(self);
            use_type_invariant(other);
        }
        GtElement { inner: gt_product(&self.inner, &other.inner) }
    }

    /// The element raised to a scalar. The substrate's exponentiation does
    /// not take the exponent zero, for which the neutral element is returned
    /// here.
    pub fn pow(&self, e: &Scalar) -> (x: GtElement)
        ensures
            x@ == mul_mod(self@, e@),
    {
        proof {
            use_type_invariant(self);
            use_type_invariant(e);
        }
        if e.is_zero() {
            GtElement::one()
        } else {
            GtElement { inner: gt_pow(&self.inner, e.as_field_element()) }
        }
    }
}

/// `GT::one`: the neutral element.
#[verifier::external_body]
fn gt_one() -> (x: GT)
    ensures
        gt_exponent(x) == 0,
{
    GT::one()
}

/// `GT::ate_pairing`: the reduced pairing, which is bilinear, so that the
/// exponent of the result is the product of the exponents of the points.
#[verifier::external_body]
fn gt_pairing(p: &G1, q: &G2) -> (x: GT)
    requires
        g1_exponent(*p) < order(),
        g2_exponent(*q) < order(),
    ensures
        gt_exponent(x) == mul_mod(g1_exponent(*p), g2_exponent(*q)),
{
    GT::ate_pairing(p, q)
}

/// `GT::ate_2_pairing`: the product of the pairing of the first two points
/// and the pairing of the last two.
#[verifier::external_body]
fn gt_pairing_product(p1: &G1, q1: &G2, p2: &G1, q2: &G2) -> (x: GT)
    requires
        g1_exponent(*p1) < order(),
        g2_exponent(*q1) < order(),
        g1_exponent(*p2) < order(),
        g2_exponent(*q2) < order(),
    ensures
        gt_exponent(x) == add_mod(
            mul_mod(g1_exponent(*p1), g2_exponent(*q1)),
            mul_mod(g1_exponent(*p2), g2_exponent(*q2)),
        ),
{
    GT::ate_2_pairing(p1, q1, p2, q2)
}

/// `GT::product`: the group operation, which adds exponents.
#[verifier::external_body]
fn gt_product(a: &GT, b: &GT) -> (x: GT)
    requires
        gt_exponent(*a) < order(),
        gt_exponent(*b) < order(),
    ensures
        gt_exponent(x) == add_mod(gt_exponent(*a), gt_exponent(*b)),
{
    GT::product(a, b)
}

/// `GT::pow`: the power, whose exponent is the product of the element's
/// exponent and the scalar. The scalar zero is left out: on it the
/// substrate's loop bound underflows.
#[verifier::external_body]
fn gt_pow(a: &GT, e: &FieldElement) -> (x: GT)
    requires
        gt_exponent(*a) < order(),
        0 < scalar_value(*e) < order(),
    ensures
        gt_exponent(x) == mul_mod(gt_exponent(*a), scalar_value(*e)),
{
    a.pow(e)
}

/// `GT::is_one`: whether the element is the neutral one.
#[verifier::external_body]
fn gt_is_one(a: &GT) -> (neutral: bool)
    requires
        gt_exponent(*a) < order(),
    ensures
        neutral == (gt_exponent(*a) == 0),
{
    a.is_one()
}

/// `GT::to_bytes` on `GT::one`: the encoding of the neutral element, which
/// is the coefficient one followed by eleven zeros.
#[verifier::external_body]
fn gt_one_to_bytes() -> (bytes: Vec<u8>)
    ensures
        bytes@ == neutral_encoding(),
        bytes@ == gt_encoding(0),
{
    GT::one().to_bytes()
}

/// `GT::to_bytes`: the encoding of the element's coefficients, which depends
/// on the element alone. The neutral element is left out: the substrate
/// writes a coefficient that is zero as zero or as the field's modulus,
/// depending on how the element was computed.
#[verifier::external_body]
fn gt_to_bytes(a: &GT) -> (bytes: Vec<u8>)
    requires
        0 < gt_exponent(*a) < order(),
    ensures
        bytes@ == gt_encoding(gt_exponent(*a)),
{
    a.to_bytes()
}

/// `GT::eq`: two elements of the prime-order subgroup are equal exactly when
/// their exponents are.
#[verifier::external_body]
fn gt_eq(a: &GT, b: &GT) -> (same: bool)
    requires
        gt_exponent(*a) < order(),
        gt_exponent(*b) < order(),
    ensures
        same == (gt_exponent(*a) == gt_exponent(*b)),
{
    a.eq(b)
}

} // verus!
