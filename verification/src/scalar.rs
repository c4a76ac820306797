//! Scalars: the integers modulo the group order.

use crate::arith::{
    add_mod, inverse_mod, invertible, is_inverse, lemma_inverse_unique, lemma_mul_mod_zero, neg_mod,
    order,
};
use amcl_wrapper::errors::SerzDeserzError;
use amcl_wrapper::field_elem::FieldElement;
use rand::rngs::ThreadRng;
use vstd::prelude::*;

verus! {

#[verifier::external_type_specification]
#[verifier::external_body]
pub struct ExFieldElement(FieldElement);

#[verifier::external_type_specification]
#[verifier::external_body]
pub struct ExSerzDeserzError(SerzDeserzError);

#[verifier::external_type_specification]
#[verifier::external_body]
pub struct ExThreadRng(ThreadRng);

/// The integer that a field element of the substrate holds, where its limbs
/// are normalised and the integer is below the group order. Any other field
/// element, whatever its limbs hold, counts as not below the order.
pub uninterp spec fn scalar_value(x: FieldElement) -> nat;

/// The number of bytes in which a scalar is written.
pub const SCALAR_BYTES: usize = 48;

/// The integer that a byte string spells, most significant byte first.
pub open spec fn be_value(bytes: Seq<u8>) -> nat
    decreases bytes.len(),
{
    if bytes.len() == 0 {
        0
    } else {
        be_value(bytes.drop_last()) * 256 + bytes.last() as nat
    }
}

/// The scalar that the substrate's hash gives for a message.
pub uninterp spec fn scalar_hash(msg: Seq<u8>) -> nat;

/// An integer modulo the group order, always held reduced.
pub struct Scalar {
    inner: FieldElement,
}

impl View for Scalar {
    type V = nat;

    closed spec fn view(&self) -> nat {
        scalar_value(self.inner)
    }
}

impl Scalar {
    /// Every scalar is below the group order.
    #[verifier::type_invariant]
    pub open spec fn reduced(self) -> bool {
        self@ < order()
    }

    /// A fresh scalar that is not zero, drawn from the thread's generator.
    pub fn random(rng: &mut ThreadRng) -> (s: Scalar)
        ensures
            s@ != 0,
    {
        Scalar { inner: fe_random(rng) }
    }

    /// The scalar that 48 bytes spell, most significant byte first, reduced
    /// modulo the group order. A byte string of another length spells none.
    pub fn from_bytes(bytes: &[u8]) -> (parsed: Option<Scalar>)
        ensures
            parsed is Some <==> bytes@.len() == SCALAR_BYTES,
            parsed matches Some(s) ==> s@ == be_value(bytes@) % order(),
    {
        match fe_from_bytes(bytes) {
            Ok(inner) => Some(Scalar { inner }),
            Err(_) => None,
        }
    }

    /// The field element of the substrate that holds this scalar.
    pub fn as_field_element(&self) -> (raw: &FieldElement)
        ensures
            scalar_value(*raw) == self@,
    {
        &self.inner
    }

    /// Whether the scalar is zero.
    pub fn is_zero(&self) -> (zero: bool)
        ensures
            zero == (self@ == 0),
    {
        proof {
            use_type_invariant(self);
        }
        fe_is_zero(&self.inner)
    }

    /// Whether two scalars are the same.
    pub fn equals(&self, other: &Scalar) -> (same: bool)
        ensures
            same == (self@ == other@),
    {
        proof {
            use_type_invariant(self);
            use_type_invariant(other);
        }
        fe_eq(&self.inner, &other.inner)
    }

    /// The sum modulo the group order.
    pub fn plus(&self, other: &Scalar) -> (sum: Scalar)
        ensures
            sum@ == add_mod(self@, other@),
    {
        proof {
            use_type_invariant(self);
            use_type_invariant(other);
        }
        Scalar { inner: fe_plus(&self.inner, &other.inner) }
    }

    /// The scalar that added to this one gives zero.
    pub fn negation(&self) -> (neg: Scalar)
        ensures
            neg@ == neg_mod(self@),
    {
        proof {
            use_type_invariant(self);
        }
        Scalar { inner: fe_negation(&self.inner) }
    }

    /// The multiplicative inverse; zero has none and is mapped to zero.
    pub fn inverse(&self) -> (inv: Scalar)
        ensures
            inv@ == inverse_mod(self@),
            self@ != 0 ==> is_inverse(self@, inv@),
    {
        proof {
            use_type_invariant(self);
        }
        let inv = Scalar { inner: fe_inverse(&self.inner) };
        proof {
            if self@ != 0 {
                assert(invertible(self@));
                lemma_inverse_unique(self@, inv@, inverse_mod(self@));
            } else {
                assert forall|x: nat| !is_inverse(0, x) by {
                    lemma_mul_mod_zero(x);
                }
            }
        }
        inv
    }
}

/// Hashes a byte string to a scalar.
pub fn hash_to_scalar(bytes: &[u8]) -> (h: Scalar)
    ensures
        h@ == scalar_hash(bytes@),
{
    Scalar { inner: fe_from_msg_hash(bytes) }
}

/// `FieldElement::from_msg_hash`: the result is reduced and depends on the
/// message alone.
#[verifier::external_body]
fn fe_from_msg_hash(msg: &[u8]) -> (h: FieldElement)
    ensures
        scalar_value(h) == scalar_hash(msg@),
        scalar_value(h) < order(),
{
    FieldElement::from_msg_hash(msg)
}

/// `FieldElement::random_using_rng`: the result is reduced and not zero.
#[verifier::external_body]
fn fe_random(rng: &mut ThreadRng) -> (s: FieldElement)
    ensures
        0 < scalar_value(s) < order(),
{
    FieldElement::random_using_rng(rng)
}

/// `FieldElement::from_bytes`: refuses every length but 48; reads 48 bytes
/// as an integer, most significant byte first, and reduces it modulo the
/// group order.
#[verifier::external_body]
fn fe_from_bytes(bytes: &[u8]) -> (parsed: Result<FieldElement, SerzDeserzError>)
    ensures
        parsed is Ok <==> bytes@.len() == SCALAR_BYTES,
        parsed matches Ok(x) ==> scalar_value(x) == be_value(bytes@) % order(),
{
    FieldElement::from_bytes(bytes)
}

/// `FieldElement::is_zero`, on a reduced integer held in normalised limbs.
#[verifier::external_body]
fn fe_is_zero(x: &FieldElement) -> (zero: bool)
    requires
        scalar_value(*x) < order(),
    ensures
        zero == (scalar_value(*x) == 0),
{
    x.is_zero()
}

/// `FieldElement::eq`: equality of two reduced integers held in normalised
/// limbs.
#[verifier::external_body]
fn fe_eq(a: &FieldElement, b: &FieldElement) -> (same: bool)
    requires
        scalar_value(*a) < order(),
        scalar_value(*b) < order(),
    ensures
        same == (scalar_value(*a) == scalar_value(*b)),
{
    a.eq(b)
}

/// `FieldElement::plus`: the sum modulo the group order.
#[verifier::external_body]
fn fe_plus(a: &FieldElement, b: &FieldElement) -> (sum: FieldElement)
    requires
        scalar_value(*a) < order(),
        scalar_value(*b) < order(),
    ensures
        scalar_value(sum) == add_mod(scalar_value(*a), scalar_value(*b)),
        scalar_value(sum) < order(),
{
    a.plus(b)
}

/// `FieldElement::negation`: zero minus the argument, modulo the group order.
#[verifier::external_body]
fn fe_negation(a: &FieldElement) -> (neg: FieldElement)
    requires
        scalar_value(*a) < order(),
    ensures
        scalar_value(neg) == neg_mod(scalar_value(*a)),
        scalar_value(neg) < order(),
{
    a.negation()
}

/// `FieldElement::inverse`: for every reduced integer but zero the result is
/// its inverse modulo the group order, which exists because the order is
/// prime; zero is mapped to zero.
#[verifier::external_body]
fn fe_inverse(a: &FieldElement) -> (inv: FieldElement)
    requires
        scalar_value(*a) < order(),
    ensures
        scalar_value(*a) != 0 ==> is_inverse(scalar_value(*a), scalar_value(inv)),
        scalar_value(*a) == 0 ==> scalar_value(inv) == 0,
        scalar_value(inv) < order(),
{
    a.inverse()
}

} // verus!
