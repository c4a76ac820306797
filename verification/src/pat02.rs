//! The scheme of Paterson (2002).
//!
//! The authority's public key lives in the second source group and the user
//! keys in the first. A signature is a point of the second source group and a
//! point of the first. Signing consumes an ephemeral scalar, which must be
//! fresh for every signature and not zero. There are two procedures to verify a
//! signature, which agree on every input.

use crate::arith::{
    add_mod, inverse_mod, invertible, lemma_add_mod_common_term, lemma_inverse,
    lemma_mul_mod_assoc, lemma_mul_mod_comm, lemma_reduced, mul_mod, order,
};
use crate::g1::{g1_hash_exponent, hash_to_g1, G1Point};
use crate::g2::{g2_encoding, G2Point};
use crate::gt::GtElement;
use crate::scalar::{hash_to_scalar, scalar_hash, Scalar};
use rand::rngs::ThreadRng;
use vstd::arithmetic::div_mod::{lemma_add_mod_noop, lemma_mul_mod_noop_general};
use vstd::prelude::*;

verus! {

/// The key of an identity: the identity's point raised to the master secret.
pub open spec fn user_key(identity: Seq<u8>, ta_secret: nat) -> nat {
    mul_mod(g1_hash_exponent(identity), ta_secret)
}

/// The hash of the first component of a signature.
pub open spec fn point_hash(u: nat) -> nat {
    scalar_hash(g2_encoding(u))
}

/// The signature on a message under a user key, made with the ephemeral
/// scalar `k`.
pub open spec fn signature(message: Seq<u8>, k: nat, user_secret: nat) -> (nat, nat) {
    let u = mul_mod(1, k);
    let combined = add_mod(scalar_hash(message), mul_mod(user_secret, point_hash(u)));
    (u, mul_mod(inverse_mod(k), combined))
}

/// The signature `(u, v)` is valid for the message and the identity, as the
/// first procedure checks it: by one product of two pairings, with the
/// hashes moved into the first source group.
pub open spec fn accepts_method_1(
    message: Seq<u8>,
    u: nat,
    v: nat,
    identity: Seq<u8>,
    ta_pub_key: nat,
) -> bool {
    add_mod(
        scalar_hash(message),
        mul_mod(mul_mod(g1_hash_exponent(identity), point_hash(u)), ta_pub_key),
    ) == mul_mod(v, u)
}

/// The signature `(u, v)` is valid for the message and the identity, as the
/// second procedure checks it: by a power of the constant `g_const` in the
/// target group.
pub open spec fn accepts_method_2(
    message: Seq<u8>,
    u: nat,
    v: nat,
    identity: Seq<u8>,
    ta_pub_key: nat,
    g_const: nat,
) -> bool {
    add_mod(
        mul_mod(g_const, scalar_hash(message)),
        mul_mod(g1_hash_exponent(identity), mul_mod(ta_pub_key, point_hash(u))),
    ) == mul_mod(v, u)
}

/// The keys of an authority whose master secret is `ta_secret`: the secret,
/// the public key, and the pairing of the two generators.
pub fn setup_with_secret(ta_secret: Scalar) -> (keys: (Scalar, G2Point, GtElement))
    ensures
        keys.0@ == ta_secret@,
        keys.1@ == ta_secret@,
        keys.2@ == 1,
{
    proof {
        use_type_invariant(&ta_secret);
        lemma_reduced(ta_secret@);
        lemma_reduced(1);
    }
    let ta_pub = G2Point::generator().scalar_mul(&ta_secret);
    let g = GtElement::pairing(&G1Point::generator(), &G2Point::generator());
    (ta_secret, ta_pub, g)
}

/// Draws a master secret and gives the keys of the authority that holds it.
pub fn setup(rng: &mut ThreadRng) -> (keys: (Scalar, G2Point, GtElement))
    ensures
        keys.0@ != 0,
        keys.1@ == keys.0@,
        keys.2@ == 1,
{
    setup_with_secret(Scalar::random(rng))
}

/// Derives the signing key of an identity from the master secret.
pub fn extract(identity: &[u8], ta_secret: &Scalar) -> (key: G1Point)
    ensures
        key@ == user_key(identity@, ta_secret@),
{
    hash_to_g1(identity).scalar_mul(ta_secret)
}

/// Signs a message with a user key and the ephemeral scalar `k`, which is
/// used up.
pub fn sign(message: &[u8], k: Scalar, user_secret: &G1Point) -> (sig: (G2Point, G1Point))
    ensures
        (sig.0@, sig.1@) == signature(message@, k@, user_secret@),
{
    let u = G2Point::generator().scalar_mul(&k);
    let message_hash = hash_to_scalar(message);
    let u_hash = hash_to_scalar(u.to_bytes().as_slice());
    proof {
        use_type_invariant(&message_hash);
        lemma_reduced(message_hash@);
    }
    let combined = G1Point::generator().scalar_mul(&message_hash).plus(
        &user_secret.scalar_mul(&u_hash),
    );
    let v = combined.scalar_mul(&k.inverse());
    proof {
        lemma_mul_mod_comm(combined@, inverse_mod(k@));
    }
    (u, v)
}

/// Checks a signature against a message, an identity and the authority's
/// public key, by one product of two pairings.
pub fn verify_method_1(
    message: &[u8],
    u: &G2Point,
    v: &G1Point,
    identity: &[u8],
    ta_pub_key: &G2Point,
) -> (ok: bool)
    ensures
        ok == accepts_method_1(message@, u@, v@, identity@, ta_pub_key@),
{
    let uv_pair = GtElement::pairing(v, u);
    let message_hash = hash_to_scalar(message);
    proof {
        use_type_invariant(&message_hash);
        lemma_reduced(message_hash@);
    }
    let left_p1 = G1Point::generator().scalar_mul(&message_hash);
    let user_pub = hash_to_g1(identity);
    let u_hash = hash_to_scalar(u.to_bytes().as_slice());
    let right_p1 = user_pub.scalar_mul(&u_hash);
    let pair = GtElement::pairing_product(&left_p1, &G2Point::generator(), &right_p1, ta_pub_key);
    pair.equals(&uv_pair)
}

/// Checks a signature against a message, an identity and the authority's
/// public key, by a power of the constant `g_const`, which is the pairing of
/// the two generators.
pub fn verify_method_2(
    message: &[u8],
    u: &G2Point,
    v: &G1Point,
    identity: &[u8],
    ta_pub_key: &G2Point,
    g_const: &GtElement,
) -> (ok: bool)
    ensures
        ok == accepts_method_2(message@, u@, v@, identity@, ta_pub_key@, g_const@),
{
    let uv_pair = GtElement::pairing(v, u);
    let u_hash = hash_to_scalar(u.to_bytes().as_slice());
    let user_pub = hash_to_g1(identity);
    let rhs = g_const.pow(&hash_to_scalar(message)).product(
        &GtElement::pairing(&user_pub, &ta_pub_key.scalar_mul(&u_hash)),
    );
    rhs.equals(&uv_pair)
}

/// The two procedures accept the same signatures, where the second is given
/// the constant that `setup` gives.
pub proof fn lemma_methods_agree(
    message: Seq<u8>,
    u: nat,
    v: nat,
    identity: Seq<u8>,
    ta_pub_key: nat,
)
    ensures
        accepts_method_1(message, u, v, identity, ta_pub_key) == accepts_method_2(
            message,
            u,
            v,
            identity,
            ta_pub_key,
            1,
        ),
{
    let id = g1_hash_exponent(identity);
    let hu = point_hash(u);
    let hm = scalar_hash(message);
    // (id * hu) * ta == id * (ta * hu)
    lemma_mul_mod_assoc(id, hu, ta_pub_key);
    lemma_mul_mod_comm(hu, ta_pub_key);
    // hm + t == 1 * hm + t
    lemma_one_times(hm, mul_mod(id, mul_mod(ta_pub_key, hu)));
}

/// A term of a sum may be multiplied by one.
proof fn lemma_one_times(a: nat, b: nat)
    ensures
        add_mod(mul_mod(1, a), b) == add_mod(a, b),
{
    assert(1 * a == a) by (nonlinear_arith);
    lemma_add_mod_noop(a as int, b as int, order() as int);
    lemma_add_mod_noop((a % order()) as int, b as int, order() as int);
    lemma_reduced(a % order());
}

/// The pairing of the two components of a signature made with the key of
/// the identity: the hash of the signed message plus the key's share.
proof fn lemma_components_paired(message: Seq<u8>, identity: Seq<u8>, ta_secret: nat, k: nat)
    requires
        invertible(k),
    ensures
        ({
            let sig = signature(message, k, user_key(identity, ta_secret));
            mul_mod(sig.1, sig.0) == add_mod(
                scalar_hash(message),
                mul_mod(mul_mod(g1_hash_exponent(identity), point_hash(sig.0)), ta_secret),
            )
        }),
{
    let id = g1_hash_exponent(identity);
    let u = mul_mod(1, k);
    let hu = point_hash(u);
    let combined = add_mod(scalar_hash(message), mul_mod(mul_mod(id, ta_secret), hu));
    let v = mul_mod(inverse_mod(k), combined);
    lemma_inverse(k);
    // v * u == combined * (k^-1 * k) == combined
    assert(mul_mod(v, u) == mul_mod(v, k)) by {
        assert(1 * k == k) by (nonlinear_arith);
        lemma_mul_mod_noop_general(v as int, k as int, order() as int);
    }
    lemma_mul_mod_comm(inverse_mod(k), combined);
    lemma_mul_mod_assoc(combined, inverse_mod(k), k);
    lemma_reduced(combined);
    // (id * ta) * hu == (id * hu) * ta
    lemma_mul_mod_assoc(id, ta_secret, hu);
    lemma_mul_mod_comm(ta_secret, hu);
    lemma_mul_mod_assoc(id, hu, ta_secret);
}

/// A signature made with the key that `extract` derives for an identity is
/// accepted by the first procedure for that identity and the signed message,
/// under the public key that `setup` gives for the master secret. The
/// ephemeral scalars are left out that have no inverse: zero is one.
pub proof fn lemma_signature_accepted(message: Seq<u8>, identity: Seq<u8>, ta_secret: nat, k: nat)
    requires
        invertible(k),
    ensures
        ({
            let sig = signature(message, k, user_key(identity, ta_secret));
            accepts_method_1(message, sig.0, sig.1, identity, ta_secret)
        }),
{
    lemma_components_paired(message, identity, ta_secret, k);
}

/// A signature made for one message is accepted for another exactly when
/// the hashes of the two messages are congruent.
pub proof fn lemma_message_bound(
    message: Seq<u8>,
    other: Seq<u8>,
    identity: Seq<u8>,
    ta_secret: nat,
    k: nat,
)
    requires
        invertible(k),
    ensures
        ({
            let sig = signature(message, k, user_key(identity, ta_secret));
            accepts_method_1(other, sig.0, sig.1, identity, ta_secret) == (scalar_hash(other)
                % order() == scalar_hash(message) % order())
        }),
{
    let sig = signature(message, k, user_key(identity, ta_secret));
    lemma_components_paired(message, identity, ta_secret, k);
    lemma_add_mod_common_term(
        scalar_hash(other),
        scalar_hash(message),
        mul_mod(mul_mod(g1_hash_exponent(identity), point_hash(sig.0)), ta_secret),
    );
}

/// A signature made with the key of one identity is accepted for another
/// identity exactly when both identities' points, scaled by the hash of the
/// signature's first component, pair with the public key to the same
/// exponent. Modulo a prime that is when the points' exponents are congruent,
/// or that hash or the master secret is zero.
pub proof fn lemma_identity_bound(
    message: Seq<u8>,
    identity: Seq<u8>,
    other: Seq<u8>,
    ta_secret: nat,
    k: nat,
)
    requires
        invertible(k),
    ensures
        ({
            let sig = signature(message, k, user_key(identity, ta_secret));
            accepts_method_1(message, sig.0, sig.1, other, ta_secret) == (mul_mod(
                mul_mod(g1_hash_exponent(other), point_hash(sig.0)),
                ta_secret,
            ) == mul_mod(mul_mod(g1_hash_exponent(identity), point_hash(sig.0)), ta_secret))
        }),
{
    let sig = signature(message, k, user_key(identity, ta_secret));
    let theirs = mul_mod(mul_mod(g1_hash_exponent(other), point_hash(sig.0)), ta_secret);
    let ours = mul_mod(mul_mod(g1_hash_exponent(identity), point_hash(sig.0)), ta_secret);
    lemma_components_paired(message, identity, ta_secret, k);
    lemma_add_mod_common_term(theirs, ours, scalar_hash(message));
    lemma_reduced(theirs);
    lemma_reduced(ours);
}

/// A signature made with the key that `extract` derives for an identity is
/// accepted by the second procedure as well, under the public key and the
/// constant that `setup` gives for the master secret.
pub proof fn lemma_signature_accepted_method_2(
    message: Seq<u8>,
    identity: Seq<u8>,
    ta_secret: nat,
    k: nat,
)
    requires
        invertible(k),
    ensures
        ({
            let sig = signature(message, k, user_key(identity, ta_secret));
            accepts_method_2(message, sig.0, sig.1, identity, ta_secret, 1)
        }),
{
    let sig = signature(message, k, user_key(identity, ta_secret));
    lemma_signature_accepted(message, identity, ta_secret, k);
    lemma_methods_agree(message, sig.0, sig.1, identity, ta_secret);
}

/// Extracting twice for the same identity under the same master secret gives
/// the same key.
pub proof fn lemma_extract_deterministic(identity: Seq<u8>, ta_secret: nat, first: nat, second: nat)
    requires
        first == user_key(identity, ta_secret),
        second == user_key(identity, ta_secret),
    ensures
        first == second,
{
}

} // verus!
