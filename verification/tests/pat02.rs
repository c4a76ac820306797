use amcl_wrapper::extension_field_gt::GT;
use amcl_wrapper::field_elem::FieldElement;
use amcl_wrapper::group_elem::GroupElement;
use amcl_wrapper::group_elem_g1::G1;
use amcl_wrapper::group_elem_g2::G2;
use ibs_rs::hash_to_scalar;
use ibs_rs::pat02::{extract, setup, setup_with_secret, sign, verify_method_1, verify_method_2};
use ibs_rs::scalar::Scalar;

const MSG: &str = "Message";
const IDENT: &str = "Duncan Edwards";

#[test]
fn test_correctness_method_1() {
    let (ta_secret, ta_pub_key, _) = setup(&mut rand::thread_rng());
    let user_secret = extract(IDENT.as_bytes(), &ta_secret);

    let k = hash_to_scalar("Random scalar".as_bytes());
    let (u_sig, v_sig) = sign(MSG.as_bytes(), k, &user_secret);

    assert!(verify_method_1(MSG.as_bytes(), &u_sig, &v_sig, IDENT.as_bytes(), &ta_pub_key));
    assert!(!verify_method_1(
        "Incorrect message".as_bytes(),
        &u_sig,
        &v_sig,
        IDENT.as_bytes(),
        &ta_pub_key
    ));
    assert!(!verify_method_1(
        MSG.as_bytes(),
        &u_sig,
        &v_sig,
        "Incorrect Identity".as_bytes(),
        &ta_pub_key
    ));
}

#[test]
fn test_correctness_method_2() {
    let (ta_secret, ta_pub_key, g) = setup(&mut rand::thread_rng());
    let user_secret = extract(IDENT.as_bytes(), &ta_secret);

    let k = hash_to_scalar("Random scalar".as_bytes());
    let (u_sig, v_sig) = sign(MSG.as_bytes(), k, &user_secret);

    assert!(verify_method_2(MSG.as_bytes(), &u_sig, &v_sig, IDENT.as_bytes(), &ta_pub_key, &g));
    assert!(!verify_method_2(
        "Incorrect message".as_bytes(),
        &u_sig,
        &v_sig,
        IDENT.as_bytes(),
        &ta_pub_key,
        &g
    ));
    assert!(!verify_method_2(
        MSG.as_bytes(),
        &u_sig,
        &v_sig,
        "Incorrect Identity".as_bytes(),
        &ta_pub_key,
        &g
    ));
}

#[test]
fn pat02_scenario_from_seeds() {
    let (ta_secret, ta_pub_key, g) = setup_with_secret(hash_to_scalar("TA Secret".as_bytes()));
    let user_secret = extract(IDENT.as_bytes(), &ta_secret);
    let k = hash_to_scalar("Random scalar".as_bytes());
    let (u, v) = sign(MSG.as_bytes(), k, &user_secret);

    assert!(verify_method_1(MSG.as_bytes(), &u, &v, IDENT.as_bytes(), &ta_pub_key));
    assert!(verify_method_2(MSG.as_bytes(), &u, &v, IDENT.as_bytes(), &ta_pub_key, &g));
    assert!(!verify_method_1("Incorrect message".as_bytes(), &u, &v, IDENT.as_bytes(), &ta_pub_key));
    assert!(!verify_method_2("Incorrect message".as_bytes(), &u, &v, IDENT.as_bytes(), &ta_pub_key, &g));
    assert!(!verify_method_1(MSG.as_bytes(), &u, &v, "Incorrect Identity".as_bytes(), &ta_pub_key));
    assert!(!verify_method_2(MSG.as_bytes(), &u, &v, "Incorrect Identity".as_bytes(), &ta_pub_key, &g));
}

#[test]
fn pat02_setup_gives_public_key_and_constant() {
    let (ta_secret, ta_pub_key, g) = setup(&mut rand::thread_rng());
    assert!(!ta_secret.is_zero());
    assert!(
        ta_pub_key.as_g2() == &G2::generator().scalar_mul_const_time(ta_secret.as_field_element())
    );
    assert!(g.as_gt() == &GT::ate_pairing(&G1::generator(), &G2::generator()));
}

#[test]
fn pat02_extract_formula() {
    let secret = FieldElement::from_msg_hash("TA Secret".as_bytes());
    let key = extract(IDENT.as_bytes(), &hash_to_scalar("TA Secret".as_bytes()));
    assert!(key.as_g1() == &G1::from_msg_hash(IDENT.as_bytes()).scalar_mul_const_time(&secret));
}

#[test]
fn pat02_extract_is_deterministic() {
    let ta_secret = hash_to_scalar("TA Secret".as_bytes());
    let first = extract(IDENT.as_bytes(), &ta_secret);
    let second = extract(IDENT.as_bytes(), &ta_secret);
    assert_eq!(first.as_g1().to_bytes(false), second.as_g1().to_bytes(false));
}

#[test]
fn pat02_sign_formula() {
    let (ta_secret, _, _) = setup_with_secret(hash_to_scalar("TA Secret".as_bytes()));
    let user_secret = extract(IDENT.as_bytes(), &ta_secret);
    let k = hash_to_scalar("Random scalar".as_bytes());
    let (u_sig, v_sig) = sign(MSG.as_bytes(), k, &user_secret);

    let raw_k = FieldElement::from_msg_hash("Random scalar".as_bytes());
    let u = G2::generator().scalar_mul_const_time(&raw_k);
    let v = raw_k.inverse()
        * ((G1::generator() * FieldElement::from_msg_hash(MSG.as_bytes()))
            + (user_secret.as_g1() * FieldElement::from_msg_hash(&u.to_bytes(false))));
    assert!(u_sig.as_g2() == &u);
    assert!(v_sig.as_g1() == &v);
}

#[test]
fn pat02_methods_agree_on_forgeries() {
    let (ta_secret, ta_pub_key, g) = setup(&mut rand::thread_rng());
    let user_secret = extract(IDENT.as_bytes(), &ta_secret);
    let other_secret = extract("Someone Else".as_bytes(), &ta_secret);
    let k = hash_to_scalar("Random scalar".as_bytes());
    let (u, v) = sign(MSG.as_bytes(), k, &user_secret);
    let (u2, v2) = sign(MSG.as_bytes(), hash_to_scalar("Another scalar".as_bytes()), &other_secret);

    // components of two signatures mixed, and a signature of another user
    for (a, b) in [(&u, &v2), (&u2, &v), (&u2, &v2)] {
        let first = verify_method_1(MSG.as_bytes(), a, b, IDENT.as_bytes(), &ta_pub_key);
        let second = verify_method_2(MSG.as_bytes(), a, b, IDENT.as_bytes(), &ta_pub_key, &g);
        assert_eq!(first, second);
        assert!(!first);
    }
    assert!(verify_method_1(MSG.as_bytes(), &u2, &v2, "Someone Else".as_bytes(), &ta_pub_key));
    assert!(verify_method_2(MSG.as_bytes(), &u2, &v2, "Someone Else".as_bytes(), &ta_pub_key, &g));
}

#[test]
fn pat02_zero_ephemeral_scalar_gives_no_valid_signature() {
    let (ta_secret, ta_pub_key, g) = setup_with_secret(hash_to_scalar("TA Secret".as_bytes()));
    let user_secret = extract(IDENT.as_bytes(), &ta_secret);
    let zero = Scalar::from_bytes(&[0u8; 48]).unwrap();
    let (u, v) = sign(MSG.as_bytes(), zero, &user_secret);
    assert!(u.as_g2().is_identity());
    assert!(v.as_g1().is_identity());
    assert!(!verify_method_1(MSG.as_bytes(), &u, &v, IDENT.as_bytes(), &ta_pub_key));
    assert!(!verify_method_2(MSG.as_bytes(), &u, &v, IDENT.as_bytes(), &ta_pub_key, &g));
}
