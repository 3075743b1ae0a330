use authcore::credential::{generate_salt, hash_password, verify_password, CREDENTIAL_LEN, SALT_LEN};

#[test]
fn derived_credential_verifies() {
    let (salt, hash) = hash_password("secret123", None);
    assert_eq!(salt.len(), SALT_LEN);
    assert_eq!(hash.len(), CREDENTIAL_LEN);
    assert!(verify_password("secret123", &salt, &hash));
}

#[test]
fn other_password_does_not_verify() {
    let (salt, hash) = hash_password("secret123", None);
    assert!(!verify_password("secret124", &salt, &hash));
}

#[test]
fn derivation_is_deterministic_for_a_given_salt() {
    let salt = vec![7u8; 32];
    let (s1, h1) = hash_password("pw", Some(salt.clone()));
    let (s2, h2) = hash_password("pw", Some(salt.clone()));
    assert_eq!(s1, salt);
    assert_eq!(s2, salt);
    assert_eq!(h1, h2);
}

#[test]
fn different_salts_give_different_hashes() {
    let (_, h1) = hash_password("pw", Some(vec![7u8; 32]));
    let (_, h2) = hash_password("pw", Some(vec![8u8; 32]));
    assert_ne!(h1, h2);
}

#[test]
fn fresh_salts_differ_between_derivations() {
    let (s1, h1) = hash_password("same", None);
    let (s2, h2) = hash_password("same", None);
    assert_ne!(s1, s2);
    assert_ne!(h1, h2);
}

#[test]
fn empty_password_is_hashed_as_is() {
    let (salt, hash) = hash_password("", None);
    assert!(verify_password("", &salt, &hash));
}

#[test]
fn wrong_length_credential_never_verifies() {
    let (salt, hash) = hash_password("pw", None);
    assert!(!verify_password("pw", &salt, &hash[..32]));
    assert!(!verify_password("pw", &salt, &[]));
}

#[test]
fn generated_salt_has_salt_length() {
    let a = generate_salt();
    assert_eq!(a.len(), 32);
    assert!(a.iter().any(|b| *b != 0) || generate_salt().iter().any(|b| *b != 0));
}
