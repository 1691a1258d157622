use portfolio_backend::errors::AppError;
use portfolio_backend::token::TokenService;

#[test]
fn issued_claims_validate_until_expiry() {
    let service = TokenService::new("SECRET-REDACTED".to_string(), 3600);
    let claims = service.generate_claims("42", "alice", "admin", 1_000).unwrap();
    assert_eq!(claims.sub, "42");
    assert_eq!(claims.username, "alice");
    assert_eq!(claims.role, "admin");
    assert_eq!(claims.iat, 1_000);
    assert_eq!(claims.exp, 4_600);
    assert!(claims.iat < claims.exp);
    let back = service.validate_claims(&claims, 4_599).unwrap();
    assert_eq!(back.username, "alice");
    match service.validate_claims(&claims, 4_600) {
        Err(AppError::Unauthorized(m)) => assert_eq!(m, "Invalid or expired token"),
        other => panic!("unexpected {:?}", other),
    }
}

#[test]
fn bad_lifetime_is_internal() {
    let zero = TokenService::new("k".to_string(), 0);
    assert!(matches!(zero.generate_claims("1", "u", "r", 0), Err(AppError::Internal(_))));
    let long = TokenService::new("k".to_string(), i64::MAX);
    assert!(matches!(long.generate_claims("1", "u", "r", 1), Err(AppError::Internal(_))));
}
