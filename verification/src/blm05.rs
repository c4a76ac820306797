//! The scheme of Barreto, Libert, McCullagh and Quisquater (2005).
//!
//! The authority's public key lives in the second source group and the user
//! keys in the first. A signature is a challenge scalar and a point of the
//! first source group. Signing consumes an ephemeral scalar, which must be
//! fresh for every signature.

use crate::arith::{
    add_mod, inverse_mod, invertible, lemma_add_mod_cancel, lemma_add_mod_common_term,
    lemma_inverse, lemma_mul_mod_assoc, lemma_mul_mod_comm, lemma_reduced, mul_mod, neg_mod,
    order,
};
use crate::bytes::join;
use crate::g1::G1Point;
use crate::g2::G2Point;
use crate::gt::{gt_encoding, GtElement};
use crate::scalar::{hash_to_scalar, scalar_hash, Scalar};
use rand::rngs::ThreadRng;
use vstd::prelude::*;

verus! {

/// The key of an identity: the generator of the first source group raised to
/// the inverse of the identity's hash plus the master secret.
pub open spec fn user_key(identity: Seq<u8>, ta_secret: nat) -> nat {
    inverse_mod(add_mod(scalar_hash(identity), ta_secret))
}

/// The challenge that binds a message to a commitment in the target group.
pub open spec fn challenge(message: Seq<u8>, commitment: nat) -> nat {
    scalar_hash(message + gt_encoding(commitment))
}

/// The signature on a message under a user key, made with the ephemeral
/// scalar `x` and the constant `g`.
pub open spec fn signature(message: Seq<u8>, x: nat, g: nat, user_secret: nat) -> (nat, nat) {
    let h = challenge(message, mul_mod(g, x));
    (h, mul_mod(add_mod(x, h), user_secret))
}

/// The commitment that a verifier recovers from a signature.
pub open spec fn recovered_commitment(
    h: nat,
    s: nat,
    identity: Seq<u8>,
    ta_pub_key: nat,
    g: nat,
) -> nat {
    add_mod(mul_mod(s, add_mod(scalar_hash(identity), ta_pub_key)), mul_mod(g, neg_mod(h)))
}

/// The signature `(h, s)` is valid for the message and the identity.
pub open spec fn accepts(
    message: Seq<u8>,
    h: nat,
    s: nat,
    identity: Seq<u8>,
    ta_pub_key: nat,
    g: nat,
) -> bool {
    challenge(message, recovered_commitment(h, s, identity, ta_pub_key, g)) == h
}

/// The keys of an authority whose master secret is `ta_secret`: the secret,
/// the public key, and the pairing of the two generators.
pub fn setup_with_secret(ta_secret: Scalar) -> (keys: (Scalar, G2Point, GtElement))
    ensures
        keys.0@ == ta_secret@,
        keys.1@ == ta_secret@,
        keys.2@ == 1,
{
    proof {
        use_type_invariant(&ta_secret);
        lemma_reduced(ta_secret@);
        lemma_reduced(1);
    }
    let ta_pub = G2Point::generator().scalar_mul(&ta_secret);
    let g = GtElement::pairing(&G1Point::generator(), &G2Point::generator());
    (ta_secret, ta_pub, g)
}

/// Draws a master secret and gives the keys of the authority that holds it.
pub fn setup(rng: &mut ThreadRng) -> (keys: (Scalar, G2Point, GtElement))
    ensures
        keys.0@ != 0,
        keys.1@ == keys.0@,
        keys.2@ == 1,
{
    setup_with_secret(Scalar::random(rng))
}

/// Derives the signing key of an identity from the master secret.
pub fn extract(identity: &[u8], ta_secret: &Scalar) -> (key: G1Point)
    ensures
        key@ == user_key(identity@, ta_secret@),
{
    let inv = hash_to_scalar(identity).plus(ta_secret).inverse();
    proof {
        use_type_invariant(&inv);
        lemma_reduced(inv@);
    }
    G1Point::generator().scalar_mul(&inv)
}

/// Signs a message with a user key and the ephemeral scalar `x`, which is
/// used up.
pub fn sign(message: &[u8], x: Scalar, g: &GtElement, user_secret: &G1Point) -> (sig: (
    Scalar,
    G1Point,
))
    ensures
        (sig.0@, sig.1@) == signature(message@, x@, g@, user_secret@),
{
    let r = g.pow(&x);
    let h = hash_to_scalar(join(message, r.to_bytes().as_slice()).as_slice());
    let s = user_secret.scalar_mul(&x.plus(&h));
    proof {
        lemma_mul_mod_comm(user_secret@, add_mod(x@, h@));
    }
    (h, s)
}

/// Checks a signature against a message, an identity and the authority's
/// public key.
pub fn verify(
    message: &[u8],
    h: &Scalar,
    s: &G1Point,
    identity: &[u8],
    ta_pub_key: &G2Point,
    g: &GtElement,
) -> (ok: bool)
    ensures
        ok == accepts(message@, h@, s@, identity@, ta_pub_key@, g@),
{
    let id_hash = hash_to_scalar(identity);
    proof {
        use_type_invariant(&id_hash);
        lemma_reduced(id_hash@);
    }
    let rh_pair = G2Point::generator().scalar_mul(&id_hash).plus(ta_pub_key);
    let pair = GtElement::pairing(s, &rh_pair).product(&g.pow(&h.negation()));
    let h_test = hash_to_scalar(join(message, pair.to_bytes().as_slice()).as_slice());
    h_test.equals(h)
}

/// The commitment that a verifier recovers from a signature made with the
/// key of the identity is the signer's.
proof fn lemma_commitment_recovered(message: Seq<u8>, identity: Seq<u8>, ta_secret: nat, x: nat)
    requires
        invertible(add_mod(scalar_hash(identity), ta_secret)),
    ensures
        ({
            let sig = signature(message, x, 1, user_key(identity, ta_secret));
            recovered_commitment(sig.0, sig.1, identity, ta_secret, 1) == mul_mod(1, x)
        }),
{
    let a = add_mod(scalar_hash(identity), ta_secret);
    let d = inverse_mod(a);
    let h = challenge(message, mul_mod(1, x));
    lemma_inverse(a);
    // s * a == (x + h) * (d * a) == x + h
    lemma_mul_mod_assoc(add_mod(x, h), d, a);
    lemma_reduced(add_mod(x, h));
    // 1 * (-h) == -h, and (x + h) + (-h) == x
    lemma_reduced(neg_mod(h));
    lemma_add_mod_cancel(x, h);
    assert(mul_mod(1, x) == x % order()) by {
        assert(1 * x == x) by (nonlinear_arith);
    }
}

/// A signature made with the key that `extract` derives for an identity is
/// accepted for that identity and the signed message, under the public key
/// and the constant that `setup` gives for the master secret, whatever the
/// ephemeral scalar. The identities are left out whose hash plus the master
/// secret has no inverse: their key is the neutral element.
pub proof fn lemma_signature_accepted(
    message: Seq<u8>,
    identity: Seq<u8>,
    ta_secret: nat,
    x: nat,
)
    requires
        invertible(add_mod(scalar_hash(identity), ta_secret)),
    ensures
        ({
            let sig = signature(message, x, 1, user_key(identity, ta_secret));
            accepts(message, sig.0, sig.1, identity, ta_secret, 1)
        }),
{
    lemma_commitment_recovered(message, identity, ta_secret, x);
}

/// A signature made for one message is accepted for another exactly when
/// the two messages have the same challenge on the signature's commitment.
pub proof fn lemma_message_bound(
    message: Seq<u8>,
    other: Seq<u8>,
    identity: Seq<u8>,
    ta_secret: nat,
    x: nat,
)
    requires
        invertible(add_mod(scalar_hash(identity), ta_secret)),
    ensures
        ({
            let sig = signature(message, x, 1, user_key(identity, ta_secret));
            accepts(other, sig.0, sig.1, identity, ta_secret, 1) == (challenge(
                other,
                mul_mod(1, x),
            ) == challenge(message, mul_mod(1, x)))
        }),
{
    lemma_commitment_recovered(message, identity, ta_secret, x);
}

/// A signature made with the key of one identity is accepted for another
/// identity exactly when the message has the signature's challenge on the
/// commitment recovered under that identity; and that commitment is the
/// signer's exactly when both identities' hashes, each added to the master
/// secret, multiply the signature's point to the same exponent. Modulo a
/// prime that is when the hashes are congruent or the point is neutral.
pub proof fn lemma_identity_bound(
    message: Seq<u8>,
    identity: Seq<u8>,
    other: Seq<u8>,
    ta_secret: nat,
    x: nat,
)
    requires
        invertible(add_mod(scalar_hash(identity), ta_secret)),
    ensures
        ({
            let sig = signature(message, x, 1, user_key(identity, ta_secret));
            let recovered = recovered_commitment(sig.0, sig.1, other, ta_secret, 1);
            &&& accepts(message, sig.0, sig.1, other, ta_secret, 1) == (challenge(
                message,
                recovered,
            ) == challenge(message, mul_mod(1, x)))
            &&& (recovered == mul_mod(1, x)) == (mul_mod(
                sig.1,
                add_mod(scalar_hash(other), ta_secret),
            ) == mul_mod(sig.1, add_mod(scalar_hash(identity), ta_secret)))
        }),
{
    let sig = signature(message, x, 1, user_key(identity, ta_secret));
    lemma_commitment_recovered(message, identity, ta_secret, x);
    lemma_add_mod_common_term(
        mul_mod(sig.1, add_mod(scalar_hash(other), ta_secret)),
        mul_mod(sig.1, add_mod(scalar_hash(identity), ta_secret)),
        mul_mod(1, neg_mod(sig.0)),
    );
    lemma_reduced(mul_mod(sig.1, add_mod(scalar_hash(other), ta_secret)));
    lemma_reduced(mul_mod(sig.1, add_mod(scalar_hash(identity), ta_secret)));
}

/// Extracting twice for the same identity under the same master secret gives
/// the same key.
pub proof fn lemma_extract_deterministic(identity: Seq<u8>, ta_secret: nat, first: nat, second: nat)
    requires
        first == user_key(identity, ta_secret),
        second == user_key(identity, ta_secret),
    ensures
        first == second,
{
}

} // verus!
