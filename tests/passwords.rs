use ticket_app::ctx::UserId;
use ticket_app::password::{
    compute_password_hash, decide_credentials, expected_credentials, is_password_strong, outcome_of_check,
    validate_credentials, verify_password_hash, AuthError, Credentials, PhcCheck, StoredCredentials,
    DUMMY_PASSWORD_HASH,
};

#[test]
fn strength_policy_examples() {
    assert!(!is_password_strong("abcdefgh"));
    assert!(is_password_strong("Abcdef12"));
    assert!(!is_password_strong("short1A"));
}

#[test]
fn strength_policy_needs_each_class() {
    assert!(!is_password_strong("ABCDEFG1"));
    assert!(!is_password_strong("abcdefG!"));
    assert!(!is_password_strong("12345678"));
    assert!(is_password_strong("xY3xxxxxxxxxxxxx"));
    assert!(!is_password_strong(""));
}

#[test]
fn strength_policy_counts_bytes_and_unicode_letters() {
    // Seven characters, eight bytes: 'Á' takes two.
    assert!(is_password_strong("Ábcdef1"));
    assert!(!is_password_strong("Abcdef1"));
}

#[test]
fn hashed_password_verifies() {
    let hash = compute_password_hash("correct horse 1A").unwrap();
    assert!(hash.starts_with("$argon2id$v=19$m=15000,t=2,p=1$"));
    assert_eq!(verify_password_hash(&hash, "correct horse 1A"), Ok(()));
}

#[test]
fn other_password_does_not_verify() {
    let hash = compute_password_hash("first-Password1").unwrap();
    assert_eq!(
        verify_password_hash(&hash, "second-Password2"),
        Err(AuthError::InvalidCredentials)
    );
}

#[test]
fn two_hashes_of_one_password_differ_and_both_verify() {
    let first = compute_password_hash("same-Password9").unwrap();
    let second = compute_password_hash("same-Password9").unwrap();
    assert_ne!(first, second);
    assert_eq!(verify_password_hash(&first, "same-Password9"), Ok(()));
    assert_eq!(verify_password_hash(&second, "same-Password9"), Ok(()));
}

#[test]
fn malformed_hash_is_unexpected() {
    assert_eq!(
        verify_password_hash("not a phc string", "whatever"),
        Err(AuthError::UnexpectedError)
    );
}

#[test]
fn dummy_hash_rejects_a_password() {
    assert_eq!(
        verify_password_hash(DUMMY_PASSWORD_HASH, "guess"),
        Err(AuthError::InvalidCredentials)
    );
}

#[test]
fn check_outcomes_map_to_results() {
    assert_eq!(outcome_of_check(PhcCheck::Match), Ok(()));
    assert_eq!(outcome_of_check(PhcCheck::Mismatch), Err(AuthError::InvalidCredentials));
    assert_eq!(outcome_of_check(PhcCheck::Malformed), Err(AuthError::UnexpectedError));
}

#[test]
fn credentials_are_granted_only_with_account_and_verification() {
    let id = UserId(7);
    assert_eq!(decide_credentials(Some(id), Ok(())), Ok(id));
    assert_eq!(decide_credentials(None, Ok(())), Err(AuthError::InvalidCredentials));
    assert_eq!(
        decide_credentials(Some(id), Err(AuthError::UnexpectedError)),
        Err(AuthError::InvalidCredentials)
    );
    assert_eq!(
        decide_credentials(None, Err(AuthError::InvalidCredentials)),
        Err(AuthError::InvalidCredentials)
    );
}

#[test]
fn unknown_account_is_checked_against_the_dummy_hash() {
    let (id, hash) = expected_credentials(None);
    assert_eq!(id, None);
    assert_eq!(hash, DUMMY_PASSWORD_HASH);
    let stored = StoredCredentials { user_id: UserId(3), password_hash: "h".to_string() };
    let (id, hash) = expected_credentials(Some(stored));
    assert_eq!(id, Some(UserId(3)));
    assert_eq!(hash, "h");
}

#[test]
fn unknown_identifier_and_wrong_password_fail_alike() {
    let credentials = Credentials {
        email_or_user: "nobody".to_string(),
        password: "Whatever1".to_string(),
    };
    assert_eq!(validate_credentials(&credentials, None), Err(AuthError::InvalidCredentials));
    let stored = StoredCredentials {
        user_id: UserId(42),
        password_hash: compute_password_hash("Right-Password1").unwrap(),
    };
    assert_eq!(
        validate_credentials(&credentials, Some(stored.clone())),
        Err(AuthError::InvalidCredentials)
    );
    let right = Credentials {
        email_or_user: "somebody".to_string(),
        password: "Right-Password1".to_string(),
    };
    assert_eq!(validate_credentials(&right, Some(stored)), Ok(UserId(42)));
}

#[test]
fn malformed_stored_hash_is_refused_as_invalid_credentials() {
    let credentials = Credentials {
        email_or_user: "someone".to_string(),
        password: "Whatever1".to_string(),
    };
    let stored = StoredCredentials { user_id: UserId(5), password_hash: "garbage".to_string() };
    assert_eq!(validate_credentials(&credentials, Some(stored)), Err(AuthError::InvalidCredentials));
}

#[test]
fn hash_naming_an_unverifiable_parallelism_is_refused_without_panic() {
    let phc = "$argon2id$v=19$m=8,t=1,p=536870912$c29tZXNhbHQ$aGFzaGhhc2hoYXNo";
    assert!(!ticket_app::password::is_verifiable_hash(phc));
    assert_eq!(verify_password_hash(phc, "whatever"), Err(AuthError::UnexpectedError));
    let credentials = Credentials {
        email_or_user: "someone".to_string(),
        password: "whatever".to_string(),
    };
    let stored = StoredCredentials { user_id: UserId(5), password_hash: phc.to_string() };
    assert_eq!(validate_credentials(&credentials, Some(stored)), Err(AuthError::InvalidCredentials));
}

#[test]
fn ordinary_hashes_are_verifiable() {
    assert!(ticket_app::password::is_verifiable_hash(DUMMY_PASSWORD_HASH));
    assert!(ticket_app::password::is_verifiable_hash("not a phc string"));
    assert!(ticket_app::password::is_verifiable_hash(
        "$argon2id$v=19$m=8,t=1,p=99999999$c29tZXNhbHQ$aGFzaGhhc2hoYXNo"
    ));
    assert!(!ticket_app::password::is_verifiable_hash(
        "$argon2id$v=19$m=8,t=1,p=100000000$c29tZXNhbHQ$aGFzaGhhc2hoYXNo"
    ));
}

#[test]
fn repeated_parallelism_is_checked_in_every_entry() {
    let phc = "$argon2id$v=19$m=15000,t=2,p=1,p=4294967295$c29tZXNhbHQ$aGFzaGhhc2hoYXNo";
    assert!(!ticket_app::password::is_verifiable_hash(phc));
    assert_eq!(verify_password_hash(phc, "whatever"), Err(AuthError::UnexpectedError));
}
