use portfolio_backend::audit::AuditAction;
use portfolio_backend::login::{finish_login, login_audit, LoginState};
use portfolio_backend::token::TokenService;
use portfolio_backend::errors::AppError;
use portfolio_backend::limiter::{decide_rate_limit, LimiterConfig};
use portfolio_backend::login::authorize_login;
use portfolio_backend::store::{
    check_and_auto_block_ip, clear_auth_rate_limit, record_auth_failure, CounterStore, StoreError,
};

const T0: u64 = 1_700_000_000;

fn config() -> LimiterConfig {
    LimiterConfig::login_defaults()
}

fn quiet_config() -> LimiterConfig {
    // automatic blocking out of the way, to watch the counting alone
    LimiterConfig { block_threshold: 1000, ..LimiterConfig::login_defaults() }
}

#[test]
fn defaults_match_login_path() {
    let c = config();
    assert_eq!((c.ip_limit, c.ip_window_seconds), (20, 300));
    assert_eq!((c.user_limit, c.user_window_seconds), (5, 900));
    assert_eq!((c.block_threshold, c.block_duration_hours), (5, 24));
}

#[test]
fn decision_allowed_reports_remaining() {
    let c = config();
    let d = decide_rate_limit(&c, None, 3, Some(1), T0);
    assert!(d.allowed);
    assert_eq!(d.remaining_attempts, 4);
    assert_eq!(d.reset_time, T0 + 300);
    assert_eq!(d.lockout_seconds, None);
    assert_eq!(d.reason, None);
    let d = decide_rate_limit(&c, None, 18, None, T0);
    assert_eq!(d.remaining_attempts, 2);
}

#[test]
fn decision_names_tripped_axes() {
    let c = config();
    let d = decide_rate_limit(&c, None, 20, Some(0), T0);
    assert!(!d.allowed);
    assert_eq!(d.reason.as_deref(), Some("Too many login attempts from this IP (20/20)"));
    assert_eq!(d.lockout_seconds, Some(300));
    assert_eq!(d.reset_time, T0 + 300);
    let d = decide_rate_limit(&c, None, 2, Some(7), T0);
    assert_eq!(d.reason.as_deref(), Some("Too many login attempts for this user (7/5)"));
    assert_eq!(d.lockout_seconds, Some(300));
    let d = decide_rate_limit(&c, None, 21, Some(5), T0);
    assert_eq!(
        d.reason.as_deref(),
        Some("Too many login attempts from this IP (21/20) and for this user (5/5)")
    );
    assert_eq!(d.lockout_seconds, Some(300));
    assert_eq!(decide_rate_limit(&c, None, 0, None, u64::MAX - 1).reset_time, u64::MAX);
}

#[test]
fn decision_for_blocked_ip() {
    let c = config();
    let d = decide_rate_limit(&c, Some(false), 0, None, T0);
    assert!(!d.allowed);
    assert!(!d.is_permanently_blocked);
    assert_eq!(d.reason.as_deref(), Some("IP address is blocked due to suspicious activity"));
    assert!(decide_rate_limit(&c, Some(true), 0, None, T0).is_permanently_blocked);
}

#[test]
fn window_rejects_then_recovers() {
    let c = quiet_config();
    let mut s = CounterStore::new();
    for i in 0..20u64 {
        let info = s.check_auth_rate_limit(&c, "1.1.1.1", None, T0 + i).unwrap();
        assert!(info.allowed);
        record_auth_failure(&mut s, &c, "1.1.1.1", &format!("user{}", i), T0 + i).unwrap();
    }
    let info = s.check_auth_rate_limit(&c, "1.1.1.1", None, T0 + 20).unwrap();
    assert!(!info.allowed);
    assert_eq!(info.lockout_seconds, Some(300));
    // the last attempt was at T0 + 19; its window ends at T0 + 319
    let info = s.check_auth_rate_limit(&c, "1.1.1.1", None, T0 + 320).unwrap();
    assert!(info.allowed);
    assert_eq!(info.remaining_attempts, 5);
}

#[test]
fn username_axis_alone_rejects() {
    let c = quiet_config();
    let mut s = CounterStore::new();
    for i in 0..5u64 {
        record_auth_failure(&mut s, &c, &format!("10.0.0.{}", i), "alice", T0 + i).unwrap();
    }
    let fresh_ip = s.check_auth_rate_limit(&c, "192.168.0.9", Some("alice"), T0 + 10).unwrap();
    assert!(!fresh_ip.allowed);
    assert_eq!(fresh_ip.reason.as_deref(), Some("Too many login attempts for this user (5/5)"));
    let other_user = s.check_auth_rate_limit(&c, "192.168.0.9", Some("bob"), T0 + 10).unwrap();
    assert!(other_user.allowed);
}

#[test]
fn ip_axis_alone_rejects() {
    let c = quiet_config();
    let mut s = CounterStore::new();
    for i in 0..20u64 {
        record_auth_failure(&mut s, &c, "10.9.9.9", &format!("u{}", i), T0).unwrap();
    }
    let info = s.check_auth_rate_limit(&c, "10.9.9.9", Some("fresh"), T0 + 1).unwrap();
    assert!(!info.allowed);
}

#[test]
fn success_clears_both_axes() {
    let c = quiet_config();
    let mut s = CounterStore::new();
    for i in 0..4u64 {
        assert!(authorize_login(&mut s, &c, "10.0.0.2", "carol", false, T0 + i).is_err());
    }
    assert!(authorize_login(&mut s, &c, "10.0.0.2", "carol", true, T0 + 5).is_ok());
    let info = s.check_auth_rate_limit(&c, "10.0.0.2", Some("carol"), T0 + 6).unwrap();
    assert_eq!(info.remaining_attempts, 5);
    for i in 0..4u64 {
        assert!(authorize_login(&mut s, &c, "10.0.0.2", "carol", false, T0 + 7 + i).is_err());
    }
    let info = s.check_auth_rate_limit(&c, "10.0.0.2", Some("carol"), T0 + 12).unwrap();
    assert!(info.allowed);
    assert_eq!(info.remaining_attempts, 1);
}

#[test]
fn clear_is_scoped_to_identity() {
    let c = quiet_config();
    let mut s = CounterStore::new();
    record_auth_failure(&mut s, &c, "a", "x", T0).unwrap();
    record_auth_failure(&mut s, &c, "b", "y", T0).unwrap();
    clear_auth_rate_limit(&mut s, "a", "x").unwrap();
    assert_eq!(s.ip_attempts.len(), 1);
    assert_eq!(s.user_attempts.len(), 1);
    assert_eq!(s.ip_attempts[0].key, "b");
}

#[test]
fn block_takes_precedence_until_unblocked() {
    let c = config();
    let mut s = CounterStore::new();
    s.block_ip(&c, "6.6.6.6", "manual", false, T0).unwrap();
    let info = s.check_auth_rate_limit(&c, "6.6.6.6", Some("zed"), T0 + 1).unwrap();
    assert!(!info.allowed);
    assert!(!info.is_permanently_blocked);
    assert_eq!(s.is_blocked("6.6.6.6", T0 + 1), Ok(true));
    assert_eq!(s.is_blocked("6.6.6.7", T0 + 1), Ok(false));
    s.unblock_ip("6.6.6.6").unwrap();
    assert_eq!(s.is_blocked("6.6.6.6", T0 + 2), Ok(false));
    assert!(s.check_auth_rate_limit(&c, "6.6.6.6", Some("zed"), T0 + 2).unwrap().allowed);
    // unblocking an address that has no record is no error
    assert_eq!(s.unblock_ip("7.7.7.7"), Ok(()));
}

#[test]
fn permanent_and_temporary_blocks() {
    let c = config();
    let mut s = CounterStore::new();
    s.block_ip(&c, "1.0.0.1", "abuse", true, T0).unwrap();
    s.block_ip(&c, "1.0.0.2", "abuse", false, T0).unwrap();
    let records = s.get_blocked_ips(T0).unwrap();
    assert_eq!(records.len(), 2);
    assert_eq!(records[0].expires_at, None);
    assert_eq!(records[1].expires_at, Some(T0 + 24 * 3600));
    assert_eq!(records[1].reason, "abuse");
    assert_eq!(s.is_blocked("1.0.0.1", T0 + 24 * 3600 + 1), Ok(true));
    assert_eq!(s.is_blocked("1.0.0.2", T0 + 24 * 3600 - 1), Ok(true));
    assert_eq!(s.is_blocked("1.0.0.2", T0 + 24 * 3600), Ok(false));
    assert_eq!(s.get_blocked_ips(T0 + 24 * 3600).unwrap().len(), 1);
}

#[test]
fn zero_duration_makes_blocks_permanent() {
    let c = LimiterConfig { block_duration_hours: 0, ..config() };
    let mut s = CounterStore::new();
    s.block_ip(&c, "2.2.2.2", "r", false, T0).unwrap();
    assert_eq!(s.get_blocked_ips(T0).unwrap()[0].expires_at, None);
    assert_eq!(s.is_blocked("2.2.2.2", u64::MAX), Ok(true));
}

#[test]
fn newer_block_replaces_older() {
    let c = config();
    let mut s = CounterStore::new();
    s.block_ip(&c, "3.3.3.3", "first", true, T0).unwrap();
    s.block_ip(&c, "3.3.3.3", "second", false, T0 + 5).unwrap();
    let records = s.get_blocked_ips(T0 + 5).unwrap();
    assert_eq!(records.len(), 1);
    assert_eq!(records[0].reason, "second");
    assert_eq!(records[0].blocked_at, T0 + 5);
    assert_eq!(s.is_blocked("3.3.3.3", T0 + 5 + 24 * 3600), Ok(false));
}

#[test]
fn auto_block_at_threshold() {
    let c = config();
    let mut s = CounterStore::new();
    for i in 0..4u64 {
        record_auth_failure(&mut s, &c, "4.4.4.4", "dave", T0 + i).unwrap();
    }
    assert_eq!(s.is_blocked("4.4.4.4", T0 + 4), Ok(false));
    check_and_auto_block_ip(&mut s, &c, "4.4.4.4", T0 + 4).unwrap();
    assert_eq!(s.is_blocked("4.4.4.4", T0 + 4), Ok(false));
    record_auth_failure(&mut s, &c, "4.4.4.4", "dave", T0 + 4).unwrap();
    let records = s.get_blocked_ips(T0 + 4).unwrap();
    assert_eq!(records.len(), 1);
    assert_eq!(records[0].reason, "Auto-blocked after 5 failed login attempts");
    assert_eq!(records[0].attempt_count, 5);
    assert_eq!(records[0].expires_at, Some(T0 + 4 + 24 * 3600));
}

#[test]
fn unreachable_store_fails_every_operation() {
    let c = config();
    let mut s = CounterStore::new();
    s.available = false;
    assert_eq!(s.is_blocked("x", T0), Err(StoreError::Unavailable));
    assert!(s.check_auth_rate_limit(&c, "x", None, T0).is_err());
    assert_eq!(s.block_ip(&c, "x", "r", true, T0), Err(StoreError::Unavailable));
    assert_eq!(record_auth_failure(&mut s, &c, "x", "y", T0), Err(StoreError::Unavailable));
    assert!(s.ip_attempts.is_empty());
}

#[test]
fn login_fails_open_when_store_is_down() {
    let c = config();
    let mut s = CounterStore::new();
    s.block_ip(&c, "5.5.5.5", "r", true, T0).unwrap();
    s.available = false;
    assert!(authorize_login(&mut s, &c, "5.5.5.5", "erin", true, T0).is_ok());
    match authorize_login(&mut s, &c, "5.5.5.5", "erin", false, T0) {
        Err(AppError::Unauthorized(m)) => assert_eq!(m, "Invalid credentials"),
        other => panic!("unexpected {:?}", other),
    }
}

#[test]
fn five_failures_block_the_ip_temporarily() {
    let c = LimiterConfig {
        ip_limit: 20,
        ip_window_seconds: 300,
        user_limit: 5,
        user_window_seconds: 900,
        block_threshold: 5,
        block_duration_hours: 24,
    };
    let mut s = CounterStore::new();
    for i in 0..5u64 {
        match authorize_login(&mut s, &c, "10.0.0.1", "alice", false, T0 + i * 10) {
            Err(AppError::Unauthorized(m)) => assert_eq!(m, "Invalid credentials"),
            other => panic!("attempt {} gave {:?}", i + 1, other),
        }
    }
    assert_eq!(s.is_blocked("10.0.0.1", T0 + 50), Ok(true));
    match authorize_login(&mut s, &c, "10.0.0.1", "alice", true, T0 + 55) {
        Err(AppError::TooManyRequests { message, retry_after }) => {
            assert_eq!(retry_after, None);
            assert_eq!(
                message,
                "Your IP address has been temporarily blocked due to suspicious activity. Please try again later."
            );
        }
        other => panic!("sixth attempt gave {:?}", other),
    }
}

#[test]
fn permanent_block_wording() {
    let c = config();
    let mut s = CounterStore::new();
    s.block_ip(&c, "8.8.8.8", "manual", true, T0).unwrap();
    match authorize_login(&mut s, &c, "8.8.8.8", "frank", true, T0) {
        Err(AppError::TooManyRequests { message, retry_after }) => {
            assert_eq!(retry_after, None);
            assert!(message.starts_with("Your IP address has been blocked"));
        }
        other => panic!("unexpected {:?}", other),
    }
}

#[test]
fn rate_limited_login_carries_retry_after() {
    let c = quiet_config();
    let mut s = CounterStore::new();
    for i in 0..5u64 {
        record_auth_failure(&mut s, &c, &format!("10.1.0.{}", i), "gina", T0).unwrap();
    }
    match authorize_login(&mut s, &c, "10.2.0.1", "gina", true, T0 + 1) {
        Err(AppError::TooManyRequests { message, retry_after }) => {
            assert_eq!(retry_after, Some(300));
            assert_eq!(message, "Too many login attempts for this user (5/5)");
        }
        other => panic!("unexpected {:?}", other),
    }
}

#[test]
fn user_axis_lockout_uses_ip_window() {
    let c = config();
    let d = decide_rate_limit(&c, None, 0, Some(5), T0);
    assert_eq!(d.lockout_seconds, Some(300));
    assert_eq!(d.reset_time, T0 + 300);
}

#[test]
fn failures_refresh_key_expiry_and_clear_drops_it() {
    let c = quiet_config();
    let mut s = CounterStore::new();
    record_auth_failure(&mut s, &c, "9.9.9.9", "ivy", T0).unwrap();
    record_auth_failure(&mut s, &c, "9.9.9.9", "ivy", T0 + 40).unwrap();
    assert_eq!(s.ip_expiry.len(), 1);
    assert_eq!(s.ip_expiry[0].at, T0 + 40 + 300);
    assert_eq!(s.user_expiry[0].at, T0 + 40 + 900);
    clear_auth_rate_limit(&mut s, "9.9.9.9", "ivy").unwrap();
    assert!(s.ip_expiry.is_empty());
    assert!(s.user_expiry.is_empty());
}

#[test]
fn block_list_has_one_record_per_ip() {
    let c = config();
    let mut s = CounterStore::new();
    s.block_ip(&c, "1.1.1.1", "a", false, T0).unwrap();
    s.block_ip(&c, "2.2.2.2", "b", false, T0).unwrap();
    s.block_ip(&c, "1.1.1.1", "c", true, T0 + 1).unwrap();
    let list = s.get_blocked_ips(T0 + 2).unwrap();
    assert_eq!(list.len(), 2);
    assert_eq!(list[0].ip, "2.2.2.2");
    assert_eq!(list[1].reason, "c");
}

#[test]
fn finished_login_issues_claims_and_audit() {
    let tokens = TokenService::new("SECRET-REDACTED".to_string(), 3600);
    let ok = finish_login(Ok(()), &tokens, "10.0.0.1", "42", "alice", "admin", T0);
    let claims = ok.result.unwrap();
    assert_eq!((claims.sub.as_str(), claims.username.as_str(), claims.role.as_str()), ("42", "alice", "admin"));
    assert_eq!((claims.iat, claims.exp), (T0 as i64, T0 as i64 + 3600));
    assert_eq!(ok.audit.action, AuditAction::Login);
    assert!(ok.audit.success);
    assert_eq!(ok.audit.ip, "10.0.0.1");
    let refused = finish_login(
        Err(AppError::Unauthorized("Invalid credentials".to_string())),
        &tokens,
        "10.0.0.1",
        "42",
        "alice",
        "admin",
        T0,
    );
    assert!(matches!(refused.result, Err(AppError::Unauthorized(_))));
    assert_eq!(refused.audit.action, AuditAction::LoginFailed);
    assert!(!refused.audit.success);
    let broken = TokenService::new("k".to_string(), 0);
    let failed = finish_login(Ok(()), &broken, "ip", "1", "u", "r", T0);
    assert!(matches!(failed.result, Err(AppError::Internal(_))));
    assert!(!failed.audit.success);
    assert!(login_audit(&LoginState::CheckingRate, "ip", "u").is_none());
    assert_eq!(login_audit(&LoginState::Success, "ip", "u").unwrap().action, AuditAction::Login);
    let f = LoginState::Failure(AppError::RateLimit);
    assert_eq!(login_audit(&f, "ip", "u").unwrap().action, AuditAction::LoginFailed);
}
