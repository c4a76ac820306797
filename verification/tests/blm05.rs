use amcl_wrapper::extension_field_gt::GT;
use amcl_wrapper::field_elem::FieldElement;
use amcl_wrapper::group_elem::GroupElement;
use amcl_wrapper::group_elem_g1::G1;
use amcl_wrapper::group_elem_g2::G2;
use ibs_rs::blm05::{extract, setup, setup_with_secret, sign, verify};
use ibs_rs::hash_to_scalar;
use ibs_rs::scalar::Scalar;

const MSG: &str = "Message";
const IDENT: &str = "Duncan Edwards";

#[test]
fn test_correctness() {
    let (ta_secret, ta_pub_key, g_const) = setup(&mut rand::thread_rng());
    let user_secret = extract(IDENT.as_bytes(), &ta_secret);

    let x = hash_to_scalar("Random scalar".as_bytes());
    let (h, s) = sign(MSG.as_bytes(), x, &g_const, &user_secret);

    assert!(verify(MSG.as_bytes(), &h, &s, IDENT.as_bytes(), &ta_pub_key, &g_const));
}

#[test]
fn blm05_scenario_from_seeds() {
    let (ta_secret, ta_pub_key, g_const) = setup_with_secret(hash_to_scalar("TA Secret".as_bytes()));
    let user_secret = extract(IDENT.as_bytes(), &ta_secret);

    let x = hash_to_scalar("Random scalar".as_bytes());
    let (h, s) = sign(MSG.as_bytes(), x, &g_const, &user_secret);

    assert!(verify(MSG.as_bytes(), &h, &s, IDENT.as_bytes(), &ta_pub_key, &g_const));
    assert!(!verify("Incorrect message".as_bytes(), &h, &s, IDENT.as_bytes(), &ta_pub_key, &g_const));
    assert!(!verify(MSG.as_bytes(), &h, &s, "Incorrect Identity".as_bytes(), &ta_pub_key, &g_const));
}

#[test]
fn blm05_setup_gives_public_key_and_constant() {
    let (ta_secret, ta_pub_key, g_const) = setup(&mut rand::thread_rng());
    assert!(!ta_secret.is_zero());
    let expected_pub = G2::generator().scalar_mul_const_time(ta_secret.as_field_element());
    assert!(ta_pub_key.as_g2() == &expected_pub);
    assert!(g_const.as_gt() == &GT::ate_pairing(&G1::generator(), &G2::generator()));
}

#[test]
fn blm05_setup_with_secret_keeps_the_secret() {
    let secret = FieldElement::from_msg_hash("TA Secret".as_bytes());
    let (ta_secret, ta_pub_key, g_const) = setup_with_secret(hash_to_scalar("TA Secret".as_bytes()));
    assert!(ta_secret.as_field_element() == &secret);
    assert!(ta_pub_key.as_g2() == &G2::generator().scalar_mul_const_time(&secret));
    assert!(g_const.as_gt() == &GT::ate_pairing(&G1::generator(), &G2::generator()));
}

#[test]
fn blm05_extract_formula() {
    let secret = FieldElement::from_msg_hash("TA Secret".as_bytes());
    let key = extract(IDENT.as_bytes(), &hash_to_scalar("TA Secret".as_bytes()));
    let expected =
        (FieldElement::from_msg_hash(IDENT.as_bytes()) + &secret).inverse() * G1::generator();
    assert!(key.as_g1() == &expected);
}

#[test]
fn blm05_extract_is_deterministic() {
    let ta_secret = hash_to_scalar("TA Secret".as_bytes());
    let first = extract(IDENT.as_bytes(), &ta_secret);
    let second = extract(IDENT.as_bytes(), &ta_secret);
    assert_eq!(first.as_g1().to_bytes(false), second.as_g1().to_bytes(false));
}

#[test]
fn blm05_sign_formula() {
    let (ta_secret, _, g_const) = setup_with_secret(hash_to_scalar("TA Secret".as_bytes()));
    let user_secret = extract(IDENT.as_bytes(), &ta_secret);
    let x = hash_to_scalar("Random scalar".as_bytes());
    let (h, s) = sign(MSG.as_bytes(), x, &g_const, &user_secret);

    let raw_x = FieldElement::from_msg_hash("Random scalar".as_bytes());
    let r = GT::ate_pairing(&G1::generator(), &G2::generator()).pow(&raw_x);
    let expected_h = FieldElement::from_msg_hash(&[MSG.as_bytes(), r.to_bytes().as_slice()].concat());
    let expected_s = (&raw_x + &expected_h) * user_secret.as_g1();
    assert!(h.as_field_element() == &expected_h);
    assert!(s.as_g1() == &expected_s);
}

#[test]
fn blm05_zero_ephemeral_scalar_is_signed_and_verified() {
    let (ta_secret, ta_pub_key, g_const) = setup_with_secret(hash_to_scalar("TA Secret".as_bytes()));
    let user_secret = extract(IDENT.as_bytes(), &ta_secret);
    let zero = Scalar::from_bytes(&[0u8; 48]).unwrap();
    let (h, s) = sign(MSG.as_bytes(), zero, &g_const, &user_secret);
    assert!(verify(MSG.as_bytes(), &h, &s, IDENT.as_bytes(), &ta_pub_key, &g_const));
}

#[test]
fn blm05_zero_challenge_is_rejected_without_panic() {
    let (ta_secret, ta_pub_key, g_const) = setup_with_secret(hash_to_scalar("TA Secret".as_bytes()));
    let user_secret = extract(IDENT.as_bytes(), &ta_secret);
    let x = hash_to_scalar("Random scalar".as_bytes());
    let (_, s) = sign(MSG.as_bytes(), x, &g_const, &user_secret);
    let zero = Scalar::from_bytes(&[0u8; 48]).unwrap();
    assert!(!verify(MSG.as_bytes(), &zero, &s, IDENT.as_bytes(), &ta_pub_key, &g_const));
}

#[test]
fn blm05_identity_without_inverse_gets_the_neutral_key() {
    // The master secret is the negation of the identity's hash.
    let ta_secret = hash_to_scalar(IDENT.as_bytes()).negation();
    let (ta_secret, ta_pub_key, g_const) = setup_with_secret(ta_secret);
    let user_secret = extract(IDENT.as_bytes(), &ta_secret);
    assert!(user_secret.as_g1().is_identity());
    let x = hash_to_scalar("Random scalar".as_bytes());
    let (h, s) = sign(MSG.as_bytes(), x, &g_const, &user_secret);
    assert!(!verify(MSG.as_bytes(), &h, &s, IDENT.as_bytes(), &ta_pub_key, &g_const));
}

#[test]
fn blm05_signature_of_another_user_is_rejected() {
    let (ta_secret, ta_pub_key, g_const) = setup(&mut rand::thread_rng());
    let other_secret = extract("Someone Else".as_bytes(), &ta_secret);
    let x = hash_to_scalar("Random scalar".as_bytes());
    let (h, s) = sign(MSG.as_bytes(), x, &g_const, &other_secret);
    assert!(!verify(MSG.as_bytes(), &h, &s, IDENT.as_bytes(), &ta_pub_key, &g_const));
    assert!(verify(MSG.as_bytes(), &h, &s, "Someone Else".as_bytes(), &ta_pub_key, &g_const));
}
