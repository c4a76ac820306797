//! The scheme of Hess (2003).
//!
//! The authority's public key lives in the second source group and the user
//! keys in the first. A signature is a point of the first source group and a
//! challenge scalar. Signing takes a point of the first source group and
//! consumes an ephemeral scalar, which must be fresh for every signature.

use crate::arith::{
    add_mod, lemma_add_mod_cancel, lemma_add_mod_common_term, lemma_mul_mod_neg, lemma_reduced,
    mul_mod, neg_mod,
};
use crate::bytes::join;
use crate::g1::{g1_hash_exponent, hash_to_g1, G1Point};
use crate::g2::G2Point;
use crate::gt::{gt_encoding, GtElement};
use crate::scalar::{hash_to_scalar, scalar_hash, Scalar};
use rand::rngs::ThreadRng;
use vstd::prelude::*;

verus! {

/// The key of an identity: the identity's point raised to the master secret.
pub open spec fn user_key(identity: Seq<u8>, ta_secret: nat) -> nat {
    mul_mod(g1_hash_exponent(identity), ta_secret)
}

/// The challenge that binds a message to a commitment in the target group.
pub open spec fn challenge(message: Seq<u8>, commitment: nat) -> nat {
    scalar_hash(message + gt_encoding(commitment))
}

/// The signature on a message under a user key, made with the point `p1` and
/// the ephemeral scalar `k`.
pub open spec fn signature(message: Seq<u8>, p1: nat, k: nat, user_secret: nat) -> (nat, nat) {
    let v = challenge(message, mul_mod(p1, k));
    (add_mod(mul_mod(user_secret, v), mul_mod(p1, k)), v)
}

/// The commitment that a verifier recovers from a signature.
pub open spec fn recovered_commitment(u: nat, v: nat, identity: Seq<u8>, ta_pub_key: nat) -> nat {
    add_mod(u, mul_mod(mul_mod(g1_hash_exponent(identity), ta_pub_key), neg_mod(v)))
}

/// The signature `(u, v)` is valid for the message and the identity.
pub open spec fn accepts(
    message: Seq<u8>,
    u: nat,
    v: nat,
    identity: Seq<u8>,
    ta_pub_key: nat,
) -> bool {
    v == challenge(message, recovered_commitment(u, v, identity, ta_pub_key))
}

/// The keys of an authority whose master secret is `ta_secret`: the secret
/// and the public key.
pub fn setup_with_secret(ta_secret: Scalar) -> (keys: (Scalar, G2Point))
    ensures
        keys.0@ == ta_secret@,
        keys.1@ == ta_secret@,
{
    proof {
        use_type_invariant(&ta_secret);
        lemma_reduced(ta_secret@);
    }
    let ta_pub = G2Point::generator().scalar_mul(&ta_secret);
    (ta_secret, ta_pub)
}

/// Draws a master secret and gives the keys of the authority that holds it.
pub fn setup(rng: &mut ThreadRng) -> (keys: (Scalar, G2Point))
    ensures
        keys.0@ != 0,
        keys.1@ == keys.0@,
{
    setup_with_secret(Scalar::random(rng))
}

/// Derives the signing key of an identity from the master secret.
pub fn extract(identity: &[u8], ta_secret: &Scalar) -> (key: G1Point)
    ensures
        key@ == user_key(identity@, ta_secret@),
{
    hash_to_g1(identity).scalar_mul(ta_secret)
}

/// Signs a message with a user key, the point `p1` and the ephemeral scalar
/// `k`, which is used up.
pub fn sign(message: &[u8], p1: &G1Point, k: Scalar, user_secret: &G1Point) -> (sig: (
    G1Point,
    Scalar,
))
    ensures
        (sig.0@, sig.1@) == signature(message@, p1@, k@, user_secret@),
{
    proof {
        use_type_invariant(p1);
        lemma_reduced(p1@);
    }
    let r = GtElement::pairing(p1, &G2Point::generator()).pow(&k);
    let v = hash_to_scalar(join(message, r.to_bytes().as_slice()).as_slice());
    let u = user_secret.scalar_mul(&v).plus(&p1.scalar_mul(&k));
    (u, v)
}

/// Checks a signature against a message, an identity and the authority's
/// public key.
pub fn verify(message: &[u8], u: &G1Point, v: &Scalar, identity: &[u8], ta_pub_key: &G2Point) -> (ok:
    bool)
    ensures
        ok == accepts(message@, u@, v@, identity@, ta_pub_key@),
{
    proof {
        use_type_invariant(u);
        lemma_reduced(u@);
    }
    let user_pairing = GtElement::pairing(&hash_to_g1(identity), ta_pub_key).pow(&v.negation());
    let r = GtElement::pairing(u, &G2Point::generator()).product(&user_pairing);
    v.equals(&hash_to_scalar(join(message, r.to_bytes().as_slice()).as_slice()))
}

/// The commitment that a verifier recovers from a signature made with the
/// key of the identity is the signer's.
proof fn lemma_commitment_recovered(
    message: Seq<u8>,
    identity: Seq<u8>,
    ta_secret: nat,
    p1: nat,
    k: nat,
)
    ensures
        ({
            let sig = signature(message, p1, k, user_key(identity, ta_secret));
            recovered_commitment(sig.0, sig.1, identity, ta_secret) == mul_mod(p1, k)
        }),
{
    let key = user_key(identity, ta_secret);
    let commitment = mul_mod(p1, k);
    let v = challenge(message, commitment);
    // key * (-v) == -(key * v), and (commitment + key * v) + -(key * v) == commitment
    lemma_mul_mod_neg(key, v);
    lemma_add_mod_cancel(commitment, mul_mod(key, v));
    lemma_reduced(commitment);
}

/// A signature made with the key that `extract` derives for an identity is
/// accepted for that identity and the signed message, under the public key
/// that `setup` gives for the master secret, whatever the point and the
/// ephemeral scalar.
pub proof fn lemma_signature_accepted(
    message: Seq<u8>,
    identity: Seq<u8>,
    ta_secret: nat,
    p1: nat,
    k: nat,
)
    ensures
        ({
            let sig = signature(message, p1, k, user_key(identity, ta_secret));
            accepts(message, sig.0, sig.1, identity, ta_secret)
        }),
{
    lemma_commitment_recovered(message, identity, ta_secret, p1, k);
}

/// A signature made for one message is accepted for another exactly when
/// the two messages have the same challenge on the signature's commitment.
pub proof fn lemma_message_bound(
    message: Seq<u8>,
    other: Seq<u8>,
    identity: Seq<u8>,
    ta_secret: nat,
    p1: nat,
    k: nat,
)
    ensures
        ({
            let sig = signature(message, p1, k, user_key(identity, ta_secret));
            accepts(other, sig.0, sig.1, identity, ta_secret) == (challenge(
                other,
                mul_mod(p1, k),
            ) == challenge(message, mul_mod(p1, k)))
        }),
{
    lemma_commitment_recovered(message, identity, ta_secret, p1, k);
}

/// A signature made with the key of one identity is accepted for another
/// identity exactly when the message has the signature's challenge on the
/// commitment recovered under that identity; and that commitment is the
/// signer's exactly when the pairings of both identities' points with the
/// public key, raised to the negated challenge, have the same exponent.
/// Modulo a prime that is when the points' exponents are congruent, or the
/// master secret or the challenge is zero.
pub proof fn lemma_identity_bound(
    message: Seq<u8>,
    identity: Seq<u8>,
    other: Seq<u8>,
    ta_secret: nat,
    p1: nat,
    k: nat,
)
    ensures
        ({
            let sig = signature(message, p1, k, user_key(identity, ta_secret));
            let recovered = recovered_commitment(sig.0, sig.1, other, ta_secret);
            &&& accepts(message, sig.0, sig.1, other, ta_secret) == (challenge(message, recovered)
                == challenge(message, mul_mod(p1, k)))
            &&& (recovered == mul_mod(p1, k)) == (mul_mod(
                mul_mod(g1_hash_exponent(other), ta_secret),
                neg_mod(sig.1),
            ) == mul_mod(mul_mod(g1_hash_exponent(identity), ta_secret), neg_mod(sig.1)))
        }),
{
    let sig = signature(message, p1, k, user_key(identity, ta_secret));
    let theirs = mul_mod(mul_mod(g1_hash_exponent(other), ta_secret), neg_mod(sig.1));
    let ours = mul_mod(mul_mod(g1_hash_exponent(identity), ta_secret), neg_mod(sig.1));
    lemma_commitment_recovered(message, identity, ta_secret, p1, k);
    lemma_add_mod_common_term(theirs, ours, sig.0);
    lemma_reduced(theirs);
    lemma_reduced(ours);
}

/// Extracting twice for the same identity under the same master secret gives
/// the same key.
pub proof fn lemma_extract_deterministic(identity: Seq<u8>, ta_secret: nat, first: nat, second: nat)
    requires
        first == user_key(identity, ta_secret),
        second == user_key(identity, ta_secret),
    ensures
        first == second,
{
}

} // verus!
