//! The scheme of Cui (2007).
//!
//! The roles of the two source groups are swapped with respect to `blm05`:
//! the authority's public key lives in the first source group and the user
//! keys in the second. A signature is an element of the target group and a
//! point of the second source group. Signing consumes an ephemeral scalar,
//! which must be fresh for every signature.

use crate::arith::{
    add_mod, inverse_mod, invertible, lemma_add_mod_common_term, lemma_inverse,
    lemma_mul_mod_assoc, lemma_mul_mod_comm, lemma_reduced, mul_mod, order,
};
use crate::bytes::join;
use crate::g1::G1Point;
use crate::g2::G2Point;
use crate::gt::{gt_encoding, GtElement};
use crate::scalar::{hash_to_scalar, scalar_hash, Scalar};
use rand::rngs::ThreadRng;
use vstd::arithmetic::div_mod::{lemma_add_mod_noop, lemma_mod_twice};
use vstd::prelude::*;

verus! {

/// The key of an identity: the generator of the second source group raised
/// to the inverse of the master secret plus the identity's hash.
pub open spec fn user_key(identity: Seq<u8>, ta_secret: nat) -> nat {
    inverse_mod(add_mod(ta_secret, scalar_hash(identity)))
}

/// The challenge that binds a message to a commitment in the target group:
/// the hash of the message followed by the encoded commitment.
pub open spec fn challenge(message: Seq<u8>, r: nat) -> nat {
    scalar_hash(message + gt_encoding(r))
}

/// The signature on a message under a user key, made with the ephemeral
/// scalar `s` and the constant `w`.
pub open spec fn signature(message: Seq<u8>, s: nat, w: nat, user_secret: nat) -> (nat, nat) {
    let r = mul_mod(w, s);
    (r, mul_mod(add_mod(challenge(message, r), s), user_secret))
}

/// The signature `(r, v)` is valid for the message and the hashed identity.
pub open spec fn accepts(
    message: Seq<u8>,
    r: nat,
    v: nat,
    id_field: nat,
    ta_pub_key: nat,
    w: nat,
) -> bool {
    add_mod(mul_mod(w, challenge(message, r)), r) == mul_mod(add_mod(ta_pub_key, id_field), v)
}

/// The keys of an authority whose master secret is `ta_secret`: the secret,
/// the public key, and the pairing of the two generators.
pub fn setup_with_secret(ta_secret: Scalar) -> (keys: (Scalar, G1Point, GtElement))
    ensures
        keys.0@ == ta_secret@,
        keys.1@ == ta_secret@,
        keys.2@ == 1,
{
    proof {
        use_type_invariant(&ta_secret);
        lemma_reduced(ta_secret@);
        lemma_reduced(1);
    }
    let ta_pub = G1Point::generator().scalar_mul(&ta_secret);
    let w = GtElement::pairing(&G1Point::generator(), &G2Point::generator());
    (ta_secret, ta_pub, w)
}

/// Draws a master secret and gives the keys of the authority that holds it.
pub fn setup(rng: &mut ThreadRng) -> (keys: (Scalar, G1Point, GtElement))
    ensures
        keys.0@ != 0,
        keys.1@ == keys.0@,
        keys.2@ == 1,
{
    setup_with_secret(Scalar::random(rng))
}

/// Derives the signing key of an identity from the master secret, and gives
/// the identity's hash with it, against which signatures are verified.
pub fn extract(identity: &[u8], ta_secret: &Scalar) -> (key: (G2Point, Scalar))
    ensures
        key.0@ == user_key(identity@, ta_secret@),
        key.1@ == scalar_hash(identity@),
{
    let id_field = hash_to_scalar(identity);
    let fact = ta_secret.plus(&id_field).inverse();
    proof {
        use_type_invariant(&fact);
        lemma_reduced(fact@);
    }
    (G2Point::generator().scalar_mul(&fact), id_field)
}

/// Hashes a message, followed by an element of the target group, to a scalar.
pub fn hash_msg_gt_to_scalar(message: &[u8], r: &GtElement) -> (u: Scalar)
    ensures
        u@ == challenge(message@, r@),
{
    hash_to_scalar(join(message, r.to_bytes().as_slice()).as_slice())
}

/// Signs a message with a user key and the ephemeral scalar `s`, which is
/// used up.
pub fn sign(message: &[u8], s: Scalar, w: &GtElement, user_secret: &G2Point) -> (sig: (
    GtElement,
    G2Point,
))
    ensures
        (sig.0@, sig.1@) == signature(message@, s@, w@, user_secret@),
{
    let r = w.pow(&s);
    let u = hash_msg_gt_to_scalar(message, &r);
    let v = user_secret.scalar_mul(&u.plus(&s));
    proof {
        lemma_mul_mod_comm(user_secret@, add_mod(u@, s@));
    }
    (r, v)
}

/// Checks a signature against a message, the hash of an identity and the
/// authority's public key.
pub fn verify(
    message: &[u8],
    r: &GtElement,
    v: &G2Point,
    id_field: &Scalar,
    ta_pub_key: &G1Point,
    w: &GtElement,
) -> (ok: bool)
    ensures
        ok == accepts(message@, r@, v@, id_field@, ta_pub_key@, w@),
{
    proof {
        use_type_invariant(id_field);
        lemma_reduced(id_field@);
    }
    let u = hash_msg_gt_to_scalar(message, r);
    let lhs = w.pow(&u).product(r);
    let lhp = ta_pub_key.plus(&G1Point::generator().scalar_mul(id_field));
    let rhs = GtElement::pairing(&lhp, v);
    lhs.equals(&rhs)
}

/// What a verifier computes from the second component of a signature made
/// with the key of the identity: the challenge of the signed message plus the
/// ephemeral scalar.
proof fn lemma_response_opened(message: Seq<u8>, identity: Seq<u8>, ta_secret: nat, s: nat)
    requires
        invertible(add_mod(ta_secret, scalar_hash(identity))),
    ensures
        ({
            let sig = signature(message, s, 1, user_key(identity, ta_secret));
            mul_mod(add_mod(ta_secret, scalar_hash(identity)), sig.1) == add_mod(
                mul_mod(1, challenge(message, sig.0)),
                sig.0,
            )
        }),
{
    let a = add_mod(ta_secret, scalar_hash(identity));
    let d = inverse_mod(a);
    let u = challenge(message, mul_mod(1, s));
    let v = mul_mod(add_mod(u, s), d);
    lemma_inverse(a);
    // a * v == (u + s) * (d * a) == u + s
    lemma_mul_mod_comm(a, v);
    lemma_mul_mod_assoc(add_mod(u, s), d, a);
    lemma_reduced(add_mod(u, s));
    // 1 * u + 1 * s == u + s
    assert(1 * u == u && 1 * s == s) by (nonlinear_arith);
    lemma_add_mod_noop(u as int, s as int, order() as int);
}

/// A signature made with the key that `extract` derives for an identity is
/// accepted for the hash that `extract` gives with it and the signed message,
/// under the public key and the constant that `setup` gives for the master
/// secret, whatever the ephemeral scalar. The identities are left out whose
/// hash plus the master secret has no inverse: their key is the neutral
/// element.
pub proof fn lemma_signature_accepted(
    message: Seq<u8>,
    identity: Seq<u8>,
    ta_secret: nat,
    s: nat,
)
    requires
        invertible(add_mod(ta_secret, scalar_hash(identity))),
    ensures
        ({
            let sig = signature(message, s, 1, user_key(identity, ta_secret));
            accepts(message, sig.0, sig.1, scalar_hash(identity), ta_secret, 1)
        }),
{
    lemma_response_opened(message, identity, ta_secret, s);
}

/// A signature made for one message is accepted for another exactly when
/// the challenges of the two messages on the signature's first component are
/// congruent.
pub proof fn lemma_message_bound(
    message: Seq<u8>,
    other: Seq<u8>,
    identity: Seq<u8>,
    ta_secret: nat,
    s: nat,
)
    requires
        invertible(add_mod(ta_secret, scalar_hash(identity))),
    ensures
        ({
            let sig = signature(message, s, 1, user_key(identity, ta_secret));
            accepts(other, sig.0, sig.1, scalar_hash(identity), ta_secret, 1) == (challenge(
                other,
                sig.0,
            ) % order() == challenge(message, sig.0) % order())
        }),
{
    let r = mul_mod(1, s);
    lemma_response_opened(message, identity, ta_secret, s);
    lemma_add_mod_common_term(
        mul_mod(1, challenge(other, r)),
        mul_mod(1, challenge(message, r)),
        r,
    );
    assert(1 * challenge(other, r) == challenge(other, r) && 1 * challenge(message, r)
        == challenge(message, r)) by (nonlinear_arith);
    lemma_mod_twice(challenge(other, r) as int, order() as int);
    lemma_mod_twice(challenge(message, r) as int, order() as int);
}

/// A signature made with the key of one identity is accepted for the hash
/// of another exactly when both hashes, each added to the master secret,
/// multiply the signature's second component to the same exponent. Modulo a
/// prime that is when the hashes are congruent or the component is neutral.
pub proof fn lemma_identity_bound(
    message: Seq<u8>,
    identity: Seq<u8>,
    other_id_field: nat,
    ta_secret: nat,
    s: nat,
)
    requires
        invertible(add_mod(ta_secret, scalar_hash(identity))),
    ensures
        ({
            let sig = signature(message, s, 1, user_key(identity, ta_secret));
            accepts(message, sig.0, sig.1, other_id_field, ta_secret, 1) == (mul_mod(
                add_mod(ta_secret, other_id_field),
                sig.1,
            ) == mul_mod(add_mod(ta_secret, scalar_hash(identity)), sig.1))
        }),
{
    lemma_response_opened(message, identity, ta_secret, s);
}

/// Extracting twice for the same identity under the same master secret gives
/// the same key and the same hash.
pub proof fn lemma_extract_deterministic(
    identity: Seq<u8>,
    ta_secret: nat,
    first: (nat, nat),
    second: (nat, nat),
)
    requires
        first == (user_key(identity, ta_secret), scalar_hash(identity)),
        second == (user_key(identity, ta_secret), scalar_hash(identity)),
    ensures
        first == second,
{
}

} // verus!
