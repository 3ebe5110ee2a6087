use credential_store::{
    hash_password, hashing_outcome, verification_outcome, verify_password, HashBackendFailure,
    HASH_COST,
};

#[test]
fn work_factor_is_four() {
    assert_eq!(HASH_COST, 4);
}

#[test]
fn hash_has_the_bcrypt_shape() {
    let hash = hash_password("password").unwrap();
    assert_ne!(hash, "password");
    assert_eq!(hash.len(), 60);
    assert!(hash.is_ascii());
    assert_eq!(&hash[0..4], "$2b$");
    assert_eq!(&hash[4..6], "04");
    assert_eq!(&hash[6..7], "$");
}

#[test]
fn hash_is_accepted_for_its_password_only() {
    let hash = hash_password("hunter2").unwrap();
    assert_eq!(verify_password("hunter2", &hash), Ok(true));
    assert_eq!(verify_password("hunter3", &hash), Ok(false));
    assert_eq!(verify_password("", &hash), Ok(false));
}

#[test]
fn hashes_of_one_password_differ_by_salt() {
    let first = hash_password("same password").unwrap();
    let second = hash_password("same password").unwrap();
    assert_ne!(first, second);
    assert_eq!(verify_password("same password", &first), Ok(true));
    assert_eq!(verify_password("same password", &second), Ok(true));
}

#[test]
fn empty_password_can_be_hashed() {
    let hash = hash_password("").unwrap();
    assert_eq!(hash.len(), 60);
    assert_eq!(verify_password("", &hash), Ok(true));
    assert_eq!(verify_password(" ", &hash), Ok(false));
}

#[test]
fn verify_password_accepts_known_hashes() {
    assert_eq!(
        verify_password(
            "password",
            "$2a$04$UuTkLRZZ6QofpDOlMz32MuuxEHA43WOemOYHPz6.SjsVsyO1tDU96"
        ),
        Ok(true)
    );
    assert_eq!(
        verify_password(
            "correctbatteryhorsestapler",
            "$2b$04$EGdrhbKUv8Oc9vGiXX0HQOxSg445d458Muh7DAHskb6QbtCvdxcie"
        ),
        Ok(true)
    );
}

#[test]
fn verify_password_rejects_a_wrong_password() {
    assert_eq!(
        verify_password(
            "wrong",
            "$2b$04$EGdrhbKUv8Oc9vGiXX0HQOxSg445d458Muh7DAHskb6QbtCvdxcie"
        ),
        Ok(false)
    );
}

#[test]
fn verify_password_reports_a_malformed_hash() {
    assert_eq!(
        verify_password("password", "password"),
        Err(HashBackendFailure::HashVerificationError)
    );
    assert_eq!(
        verify_password("password", ""),
        Err(HashBackendFailure::HashVerificationError)
    );
    assert_eq!(
        verify_password(
            "correctbatteryhorsestapler",
            "$2a$ab$n4Uy0eSnMfvnESYL.bLwuuj0U/ETSsoTpRT9GVk$5bektyVVa5xnIi"
        ),
        Err(HashBackendFailure::HashVerificationError)
    );
}

#[test]
fn verify_password_reports_a_cost_out_of_range() {
    assert_eq!(
        verify_password(
            "password",
            "$2a$03$UuTkLRZZ6QofpDOlMz32MuuxEHA43WOemOYHPz6.SjsVsyO1tDU96"
        ),
        Err(HashBackendFailure::HashVerificationError)
    );
}

#[test]
fn hashing_outcome_maps_each_result() {
    assert_eq!(
        hashing_outcome(Ok(String::from("some hash text"))),
        Ok(String::from("some hash text"))
    );
    assert_eq!(
        hashing_outcome(Err(bcrypt::BcryptError::CostNotAllowed(3))),
        Err(HashBackendFailure::HashComputationError)
    );
    assert_eq!(
        hashing_outcome(Err(bcrypt::BcryptError::Truncation(73))),
        Err(HashBackendFailure::HashComputationError)
    );
}

#[test]
fn verification_outcome_maps_each_result() {
    assert_eq!(verification_outcome(Ok(true)), Ok(true));
    assert_eq!(verification_outcome(Ok(false)), Ok(false));
    assert_eq!(
        verification_outcome(Err(bcrypt::BcryptError::InvalidHash("malformed"))),
        Err(HashBackendFailure::HashVerificationError)
    );
    assert_eq!(
        verification_outcome(Err(bcrypt::BcryptError::CostNotAllowed(99))),
        Err(HashBackendFailure::HashVerificationError)
    );
}
