use portfolio_backend::accounts::{change_password_hash, check_credentials};
use portfolio_backend::models::{ChangePasswordRequest, LoginRequest};
use portfolio_backend::errors::AppError;
use portfolio_backend::password::PasswordService;

#[test]
fn strong_password_needs_length_and_three_classes() {
    assert!(PasswordService::is_strong_password("Abcdefg1"));
    assert!(PasswordService::is_strong_password("abcdefg1!"));
    assert!(!PasswordService::is_strong_password("Abc1!"));
    assert!(!PasswordService::is_strong_password("abcdefgh"));
    assert!(!PasswordService::is_strong_password("abcdefg1"));
    assert!(PasswordService::is_strong_password("ABCDEFG1?"));
}

#[test]
fn hash_then_verify() {
    let service = PasswordService::new();
    let hash = service.hash_password("correct horse").unwrap();
    assert_ne!(hash, "correct horse");
    assert_eq!(service.verify_password("correct horse", &hash).unwrap(), true);
    assert_eq!(service.verify_password("wrong horse", &hash).unwrap(), false);
}

#[test]
fn malformed_hash_is_internal_error() {
    let service = PasswordService::new();
    match service.verify_password("pw", "not a hash") {
        Err(AppError::Internal(m)) => assert_eq!(m, "Invalid password hash format"),
        other => panic!("unexpected {:?}", other),
    }
}

#[test]
fn credentials_against_stored_hash() {
    let service = PasswordService::new();
    let hash = service.hash_password("Secret#123").unwrap();
    let good = LoginRequest { username: "alice".to_string(), password: "Secret#123".to_string() };
    let bad = LoginRequest { username: "alice".to_string(), password: "Secret#124".to_string() };
    assert!(check_credentials(&good, Some(&hash)).is_ok());
    match check_credentials(&bad, Some(&hash)) {
        Err(AppError::Unauthorized(m)) => assert_eq!(m, "Invalid credentials"),
        other => panic!("unexpected {:?}", other),
    }
    match check_credentials(&good, None) {
        Err(AppError::Unauthorized(m)) => assert_eq!(m, "Invalid credentials"),
        other => panic!("unexpected {:?}", other),
    }
    match check_credentials(&good, Some("garbage")) {
        Err(AppError::Unauthorized(m)) => assert_eq!(m, "Invalid credentials"),
        other => panic!("unexpected {:?}", other),
    }
    let short = LoginRequest { username: "al".to_string(), password: "Secret#123".to_string() };
    assert!(matches!(check_credentials(&short, Some(&hash)), Err(AppError::Validation(_))));
}

#[test]
fn password_change_rules() {
    let service = PasswordService::new();
    let hash = service.hash_password("Secret#123").unwrap();
    let weak = ChangePasswordRequest { current_password: "Secret#123".to_string(), new_password: "alllowercase".to_string() };
    assert!(matches!(change_password_hash(&weak, &hash), Err(AppError::Validation(_))));
    let wrong = ChangePasswordRequest { current_password: "Wrong#1234".to_string(), new_password: "Better#456".to_string() };
    match change_password_hash(&wrong, &hash) {
        Err(AppError::Unauthorized(m)) => assert_eq!(m, "Current password is incorrect"),
        other => panic!("unexpected {:?}", other),
    }
    let ok = ChangePasswordRequest { current_password: "Secret#123".to_string(), new_password: "Better#456".to_string() };
    let new_hash = change_password_hash(&ok, &hash).unwrap();
    assert_eq!(service.verify_password("Better#456", &new_hash).unwrap(), true);
    assert_eq!(service.verify_password("Secret#123", &new_hash).unwrap(), false);
}
