use auth_core::{secure_hash, verify_hash, AuthError};

#[test]
fn hash_and_verify_round_trip() {
    let digest = secure_hash("hunter2".to_string()).expect("hashing must succeed");
    assert_eq!(verify_hash("hunter2".to_string(), &digest), Ok(true));
}

#[test]
fn wrong_password_is_a_mismatch_not_an_error() {
    let digest = secure_hash("hunter2".to_string()).expect("hashing must succeed");
    assert_eq!(verify_hash("wrong".to_string(), &digest), Ok(false));
}

#[test]
fn distinct_passwords_do_not_cross_verify() {
    let d1 = secure_hash("first password".to_string()).expect("hashing must succeed");
    let d2 = secure_hash("second password".to_string()).expect("hashing must succeed");
    assert_eq!(verify_hash("first password".to_string(), &d2), Ok(false));
    assert_eq!(verify_hash("second password".to_string(), &d1), Ok(false));
}

#[test]
fn same_password_hashes_to_different_digests() {
    let d1 = secure_hash("hunter2".to_string()).expect("hashing must succeed");
    let d2 = secure_hash("hunter2".to_string()).expect("hashing must succeed");
    assert_ne!(d1, d2);
    assert_eq!(verify_hash("hunter2".to_string(), &d1), Ok(true));
    assert_eq!(verify_hash("hunter2".to_string(), &d2), Ok(true));
}

#[test]
fn digest_is_a_self_describing_phc_string() {
    let digest = secure_hash("hunter2".to_string()).expect("hashing must succeed");
    assert!(digest.starts_with("$argon2"));
}

#[test]
fn malformed_digest_is_a_distinct_error() {
    assert_eq!(
        verify_hash("hunter2".to_string(), "not a digest"),
        Err(AuthError::MalformedDigest)
    );
    assert_eq!(
        verify_hash("hunter2".to_string(), ""),
        Err(AuthError::MalformedDigest)
    );
}

#[test]
fn empty_password_round_trips() {
    let digest = secure_hash(String::new()).expect("hashing must succeed");
    assert_eq!(verify_hash(String::new(), &digest), Ok(true));
    assert_eq!(verify_hash("x".to_string(), &digest), Ok(false));
}
