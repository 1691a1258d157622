use portfolio_backend::errors::AppError;
use portfolio_backend::request::require_session_token;
use portfolio_backend::token::TokenService;
use portfolio_backend::request::{
    bearer_token, expired_session_cookie, extract_admin_token_from_cookies, get_client_ip, session_cookie,
    session_token,
};

#[test]
fn cookie_token_is_found_among_cookies() {
    assert_eq!(extract_admin_token_from_cookies("admin_token=abc"), Some("abc".to_string()));
    assert_eq!(
        extract_admin_token_from_cookies("theme=dark;  admin_token=xyz ; other=1"),
        Some("xyz".to_string())
    );
    assert_eq!(extract_admin_token_from_cookies("theme=dark; other=1"), None);
    assert_eq!(extract_admin_token_from_cookies(""), None);
    assert_eq!(extract_admin_token_from_cookies("admin_token="), Some("".to_string()));
    assert_eq!(
        extract_admin_token_from_cookies("admin_token=first; admin_token=second"),
        Some("first".to_string())
    );
}

#[test]
fn bearer_header_is_stripped() {
    assert_eq!(bearer_token("Bearer t0k"), Some("t0k".to_string()));
    assert_eq!(bearer_token("Basic t0k"), None);
    assert_eq!(bearer_token("bearer t0k"), None);
}

#[test]
fn cookie_wins_over_header() {
    assert_eq!(session_token(Some("admin_token=c"), Some("Bearer h")), Some("c".to_string()));
    assert_eq!(session_token(Some("theme=dark"), Some("Bearer h")), Some("h".to_string()));
    assert_eq!(session_token(None, Some("Bearer h")), Some("h".to_string()));
    assert_eq!(session_token(None, None), None);
}

#[test]
fn client_ip_precedence() {
    assert_eq!(get_client_ip(Some(" 1.2.3.4 , 5.6.7.8"), Some("9.9.9.9"), Some("127.0.0.1")), "1.2.3.4");
    assert_eq!(get_client_ip(None, Some("9.9.9.9"), Some("127.0.0.1")), "9.9.9.9");
    assert_eq!(get_client_ip(None, None, Some("127.0.0.1")), "127.0.0.1");
    assert_eq!(get_client_ip(None, None, None), "unknown");
}

#[test]
fn session_cookie_round_trip() {
    let c = session_cookie("abc.def.ghi");
    assert_eq!(c, "admin_token=abc.def.ghi; HttpOnly; Secure; SameSite=Strict; Path=/; Max-Age=86400");
    assert_eq!(extract_admin_token_from_cookies(&c), Some("abc.def.ghi".to_string()));
    assert_eq!(expired_session_cookie(), "admin_token=; HttpOnly; Secure; SameSite=Strict; Path=/; Max-Age=0");
}

#[test]
fn middleware_decisions() {
    match require_session_token(None, Some("Basic x")) {
        Err(AppError::Unauthorized(m)) => assert_eq!(m, "Missing authentication token"),
        other => panic!("unexpected {:?}", other),
    }
    assert_eq!(require_session_token(Some("admin_token=t"), None).unwrap(), "t");
    let tokens = TokenService::new("k".to_string(), 60);
    let c = tokens.generate_claims("1", "u", "r", 100).unwrap();
    assert_eq!(tokens.accept_token(Some(c), 159).unwrap().username, "u");
    let c = tokens.generate_claims("1", "u", "r", 100).unwrap();
    match tokens.accept_token(Some(c), 160) {
        Err(AppError::Unauthorized(m)) => assert_eq!(m, "Invalid or expired token"),
        other => panic!("unexpected {:?}", other),
    }
    assert!(matches!(tokens.accept_token(None, 0), Err(AppError::Unauthorized(_))));
}
