use amcl_wrapper::extension_field_gt::GT;
use amcl_wrapper::field_elem::FieldElement;
use amcl_wrapper::group_elem::GroupElement;
use amcl_wrapper::group_elem_g1::G1;
use amcl_wrapper::group_elem_g2::G2;
use ibs_rs::cui07::{extract, hash_msg_gt_to_scalar, setup, setup_with_secret, sign, verify};
use ibs_rs::hash_to_scalar;
use ibs_rs::scalar::Scalar;

const MSG: &str = "Message";
const IDENT: &str = "Duncan Edwards";

#[test]
fn mod_test_correctness() {
    let (ta_secret, ta_pub_key, w) = setup(&mut rand::thread_rng());
    let (user_secret, id_field) = extract(IDENT.as_bytes(), &ta_secret);

    let s = hash_to_scalar("Random scalar".as_bytes());
    let (r_sig, v_sig) = sign(MSG.as_bytes(), s, &w, &user_secret);

    assert!(verify(MSG.as_bytes(), &r_sig, &v_sig, &id_field, &ta_pub_key, &w));
    assert!(!verify("Incorrect message".as_bytes(), &r_sig, &v_sig, &id_field, &ta_pub_key, &w));
    assert!(!verify(
        "Incorrect message".as_bytes(),
        &r_sig,
        &v_sig,
        &Scalar::from_bytes(&FieldElement::random().to_bytes()).unwrap(),
        &ta_pub_key,
        &w
    ));
}

#[test]
fn cui07_scenario_from_seeds() {
    let (ta_secret, ta_pub_key, w) = setup_with_secret(hash_to_scalar("TA Secret".as_bytes()));
    let (user_secret, id_field) = extract(IDENT.as_bytes(), &ta_secret);
    let (_, other_id_field) = extract("Incorrect Identity".as_bytes(), &ta_secret);

    let s = hash_to_scalar("Random scalar".as_bytes());
    let (r_sig, v_sig) = sign(MSG.as_bytes(), s, &w, &user_secret);

    assert!(verify(MSG.as_bytes(), &r_sig, &v_sig, &id_field, &ta_pub_key, &w));
    assert!(!verify("Incorrect message".as_bytes(), &r_sig, &v_sig, &id_field, &ta_pub_key, &w));
    assert!(!verify(MSG.as_bytes(), &r_sig, &v_sig, &other_id_field, &ta_pub_key, &w));
}

#[test]
fn cui07_setup_gives_public_key_and_constant() {
    let (ta_secret, ta_pub_key, w) = setup(&mut rand::thread_rng());
    assert!(!ta_secret.is_zero());
    let expected_pub = G1::generator().scalar_mul_const_time(ta_secret.as_field_element());
    assert!(ta_pub_key.as_g1() == &expected_pub);
    assert!(w.as_gt() == &GT::ate_pairing(&G1::generator(), &G2::generator()));
}

#[test]
fn cui07_extract_formula() {
    let secret = FieldElement::from_msg_hash("TA Secret".as_bytes());
    let (key, id_field) = extract(IDENT.as_bytes(), &hash_to_scalar("TA Secret".as_bytes()));
    let raw_id = FieldElement::from_msg_hash(IDENT.as_bytes());
    let expected = (&secret + &raw_id).inverse() * G2::generator();
    assert!(key.as_g2() == &expected);
    assert!(id_field.as_field_element() == &raw_id);
}

#[test]
fn cui07_extract_is_deterministic() {
    let ta_secret = hash_to_scalar("TA Secret".as_bytes());
    let (first_key, first_id) = extract(IDENT.as_bytes(), &ta_secret);
    let (second_key, second_id) = extract(IDENT.as_bytes(), &ta_secret);
    assert_eq!(first_key.to_bytes(), second_key.to_bytes());
    assert_eq!(first_id.as_field_element().to_bytes(), second_id.as_field_element().to_bytes());
}

#[test]
fn cui07_challenge_hashes_the_message_before_the_element() {
    let (_, _, w) = setup_with_secret(hash_to_scalar("TA Secret".as_bytes()));
    let u = hash_msg_gt_to_scalar(MSG.as_bytes(), &w);
    let element = GT::ate_pairing(&G1::generator(), &G2::generator()).to_bytes();
    let mut bytes = MSG.as_bytes().to_vec();
    bytes.extend_from_slice(&element);
    assert!(u.as_field_element() == &FieldElement::from_msg_hash(&bytes));

    let mut swapped = element;
    swapped.extend_from_slice(MSG.as_bytes());
    assert!(u.as_field_element() != &FieldElement::from_msg_hash(&swapped));
}

#[test]
fn cui07_sign_formula() {
    let (ta_secret, _, w) = setup_with_secret(hash_to_scalar("TA Secret".as_bytes()));
    let (user_secret, _) = extract(IDENT.as_bytes(), &ta_secret);
    let s = hash_to_scalar("Random scalar".as_bytes());
    let (r_sig, v_sig) = sign(MSG.as_bytes(), s, &w, &user_secret);

    let raw_s = FieldElement::from_msg_hash("Random scalar".as_bytes());
    let r = GT::ate_pairing(&G1::generator(), &G2::generator()).pow(&raw_s);
    let mut bytes = MSG.as_bytes().to_vec();
    bytes.extend_from_slice(&r.to_bytes());
    let u = FieldElement::from_msg_hash(&bytes);
    let expected_v = (u + &raw_s) * user_secret.as_g2();
    assert!(r_sig.as_gt() == &r);
    assert!(v_sig.as_g2() == &expected_v);
}

#[test]
fn cui07_zero_ephemeral_scalar_is_signed_and_verified() {
    let (ta_secret, ta_pub_key, w) = setup_with_secret(hash_to_scalar("TA Secret".as_bytes()));
    let (user_secret, id_field) = extract(IDENT.as_bytes(), &ta_secret);
    let zero = Scalar::from_bytes(&[0u8; 48]).unwrap();
    let (r_sig, v_sig) = sign(MSG.as_bytes(), zero, &w, &user_secret);
    assert!(r_sig.as_gt().is_one());
    assert!(verify(MSG.as_bytes(), &r_sig, &v_sig, &id_field, &ta_pub_key, &w));
}

#[test]
fn cui07_identity_without_inverse_is_rejected() {
    let ta_secret = hash_to_scalar(IDENT.as_bytes()).negation();
    let (ta_secret, ta_pub_key, w) = setup_with_secret(ta_secret);
    let (user_secret, id_field) = extract(IDENT.as_bytes(), &ta_secret);
    assert!(user_secret.as_g2().is_identity());
    let s = hash_to_scalar("Random scalar".as_bytes());
    let (r_sig, v_sig) = sign(MSG.as_bytes(), s, &w, &user_secret);
    assert!(!verify(MSG.as_bytes(), &r_sig, &v_sig, &id_field, &ta_pub_key, &w));
}
