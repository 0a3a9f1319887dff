use todolistify::error::AppError;
use todolistify::hasher::{
    check, hash, hash_outcome, hash_with_salt, new_salt, read_verdict, verify, PasswordCheck,
};

#[test]
fn digest_verifies_against_its_password() {
    let password = "Abcdef12".to_string();
    let (digest, _salt) = hash(&password).unwrap();
    assert!(verify(&password, &digest));
    assert_eq!(check(&password, &digest), PasswordCheck::Match);
}

#[test]
fn digest_rejects_another_password() {
    let (digest, _salt) = hash(&"Abcdef12".to_string()).unwrap();
    assert!(!verify(&"Abcdef13".to_string(), &digest));
    assert_eq!(check(&"Abcdef13".to_string(), &digest), PasswordCheck::Mismatch);
}

#[test]
fn two_digests_of_one_password_differ() {
    let password = "Abcdef12".to_string();
    let (first, first_salt) = hash(&password).unwrap();
    let (second, second_salt) = hash(&password).unwrap();
    assert_ne!(first_salt, second_salt);
    assert_ne!(first, second);
}

#[test]
fn digest_is_a_phc_string_that_holds_its_salt() {
    let (digest, salt) = hash(&"Abcdef12".to_string()).unwrap();
    assert!(digest.starts_with("$argon2id$v=19$"));
    assert!(digest.contains(&salt));
    assert_ne!(digest, "Abcdef12");
    assert_ne!(digest, salt);
}

#[test]
fn generated_salt_is_sixteen_bytes_in_base64() {
    let salt = new_salt();
    assert_eq!(salt.len(), 22);
    assert!(salt.chars().all(|c| c.is_ascii_alphanumeric() || c == '+' || c == '/'));
    assert!("AQgw".contains(salt.chars().last().unwrap()));
    assert_ne!(salt, new_salt());
}

#[test]
fn same_salt_gives_same_digest() {
    let password = "Abcdef12".to_string();
    let salt = "c29tZXNhbHRzb21lc2FsdA".to_string();
    let first = hash_with_salt(&password, salt.clone()).unwrap();
    let second = hash_with_salt(&password, salt.clone()).unwrap();
    assert_eq!(first, second);
    assert_eq!(first.1, salt);
    assert!(verify(&password, &first.0));
}

#[test]
fn refused_salt_is_an_internal_error() {
    let outcome = hash_with_salt(&"Abcdef12".to_string(), "no salt!".to_string());
    assert_eq!(outcome, Err(AppError::InternalServer));
    let outcome = hash_with_salt(&"Abcdef12".to_string(), "abc".to_string());
    assert_eq!(outcome, Err(AppError::InternalServer));
}

#[test]
fn salt_with_stray_bits_in_its_last_character_is_refused() {
    let password = "Abcdef12";
    for last in ["A", "Q", "g", "w"] {
        let salt = format!("c29tZXNhbHRzb21lc2Fsd{}", last);
        assert!(hash_with_salt(password, salt).is_ok());
    }
    for last in ["B", "R", "h", "x", "/"] {
        let salt = format!("c29tZXNhbHRzb21lc2Fsd{}", last);
        assert_eq!(hash_with_salt(password, salt), Err(AppError::InternalServer));
    }
}

#[test]
fn every_password_within_the_limit_is_hashed() {
    for password in ["", "Abcdef12", "pässwörd ☃"] {
        let (digest, _salt) = hash(password).unwrap();
        assert!(verify(password, &digest));
    }
}

#[test]
fn malformed_digest_fails_verification_without_panic() {
    let password = "Abcdef12".to_string();
    assert!(!verify(&password, &"not a digest".to_string()));
    assert!(!verify(&password, &String::new()));
    assert_eq!(check(&password, &"not a digest".to_string()), PasswordCheck::Malformed);
    assert_eq!(check(&password, &password), PasswordCheck::Malformed);
}

#[test]
fn verdicts_are_read_as_checks() {
    assert_eq!(read_verdict(Some(true)), PasswordCheck::Match);
    assert_eq!(read_verdict(Some(false)), PasswordCheck::Mismatch);
    assert_eq!(read_verdict(None), PasswordCheck::Malformed);
}

#[test]
fn hash_outcome_pairs_digest_with_salt() {
    assert_eq!(
        hash_outcome(Some("digest".to_string()), "salt".to_string()),
        Ok(("digest".to_string(), "salt".to_string()))
    );
    assert_eq!(hash_outcome(None, "salt".to_string()), Err(AppError::InternalServer));
}
