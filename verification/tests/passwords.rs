use sms_auth::auth::password::{hash_password, hashing_outcome, verify_password, HASH_COST};
use sms_auth::errors::AppError;

#[test]
fn hash_then_verify_correct_horse() {
    let hash = hash_password("correct-horse").unwrap();
    assert!(verify_password("correct-horse", &hash).unwrap());
    assert!(!verify_password("wrong-password", &hash).unwrap());
}

#[test]
fn hash_is_not_the_password_and_names_its_cost() {
    let hash = hash_password("hunter2").unwrap();
    assert_ne!(hash, "hunter2");
    assert_eq!(hash.len(), 60);
    assert!(hash.starts_with(&format!("$2b${:02}$", HASH_COST)));
    assert_eq!(HASH_COST, 12);
}

#[test]
fn two_hashes_of_one_password_differ() {
    let a = hash_password("same").unwrap();
    let b = hash_password("same").unwrap();
    assert_ne!(a, b);
}

#[test]
fn known_hash_verifies() {
    // bcrypt of "hunter2" at cost 4 under a fixed salt.
    let hash = bcrypt::hash_with_salt("hunter2", 4, [7u8; 16]).unwrap().to_string();
    assert!(verify_password("hunter2", &hash).unwrap());
    assert!(!verify_password("hunter3", &hash).unwrap());
    assert!(!verify_password("", &hash).unwrap());
}

#[test]
fn empty_password_hashes_and_verifies() {
    let hash = bcrypt::hash_with_salt("", 4, [1u8; 16]).unwrap().to_string();
    assert!(verify_password("", &hash).unwrap());
    assert!(!verify_password("x", &hash).unwrap());
}

#[test]
fn malformed_hash_is_a_hashing_failure() {
    for hash in ["", "not-a-hash", "$2b$12$tooshort", "$9z$04$abcdefghijklmnopqrstuuabcdefghijklmnopqrstuvwxyz01234"] {
        assert!(matches!(
            verify_password("hunter2", hash),
            Err(AppError::PasswordHashingError(_))
        ));
    }
}

#[test]
fn hasher_failure_becomes_a_hashing_error() {
    let failed = hashing_outcome(Err(bcrypt::BcryptError::CostNotAllowed(99)));
    assert!(matches!(
        failed,
        Err(AppError::PasswordHashingError(bcrypt::BcryptError::CostNotAllowed(99)))
    ));
    assert_eq!(hashing_outcome(Ok("abc".to_string())).unwrap(), "abc");
}

#[test]
fn cost_is_the_hasher_s_default() {
    assert_eq!(HASH_COST, bcrypt::DEFAULT_COST);
}

#[test]
fn passwords_are_told_apart_by_their_first_72_bytes_only() {
    let long = "a".repeat(72);
    let hash = bcrypt::hash_with_salt(&format!("{}x", long), 4, [5u8; 16]).unwrap().to_string();
    assert!(verify_password(&format!("{}y", long), &hash).unwrap());
    assert!(verify_password(&long, &hash).unwrap());
    assert!(!verify_password(&"a".repeat(71), &hash).unwrap());
}

#[test]
fn hash_of_another_version_marker_verifies() {
    let parts = bcrypt::hash_with_salt("hunter2", 4, [9u8; 16]).unwrap();
    for version in [bcrypt::Version::TwoA, bcrypt::Version::TwoY, bcrypt::Version::TwoX] {
        let hash = parts.format_for_version(version);
        assert!(verify_password("hunter2", &hash).unwrap());
    }
}

#[test]
fn another_password_gives_false_and_no_failure() {
    let hash = bcrypt::hash_with_salt("p2", 4, [11u8; 16]).unwrap().to_string();
    for other in ["p1", "", "P2", "p2 ", "p22", "\u{e9}"] {
        assert!(matches!(verify_password(other, &hash), Ok(false)), "{:?}", other);
    }
    assert!(matches!(verify_password("p2", &hash), Ok(true)));
}

#[test]
fn malformed_hash_fails_for_every_password() {
    for password in ["", "hunter2", "\u{e9}", "a much longer password than most people would type"] {
        assert!(verify_password(password, "$2b$04$short").is_err());
    }
}
