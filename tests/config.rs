use portfolio_backend::security::{cors_allows_any_origin, cors_allows_credentials, security_headers};
use portfolio_backend::audit::{AuditAction, ResourceType};
use portfolio_backend::config::{
    AppConfig, AuthConfig, AuthSecrets, CorsConfig, DatabaseConfig, DatabaseSecrets, LoggingConfig,
    PaginationConfig, RateLimitConfig, RedisConfig, RedisSecrets, SecretConfig, SecurityConfig, ServerConfig,
};
use portfolio_backend::errors::AppError;
use portfolio_backend::models::{BlockIpRequest, LoginRequest};
use portfolio_backend::settings::{FeatureSettings, GeneralSettings, SecuritySettings};

fn app_config(environment: &str) -> AppConfig {
    AppConfig {
        database: DatabaseConfig { url: None, max_connections: 10, min_connections: 1, connect_timeout: 5, idle_timeout: 60 },
        redis: RedisConfig { url: Some("redis://localhost".to_string()), pool_size: 4, timeout: 5 },
        auth: AuthConfig { jwt_secret: None, token_expiry: 86400, bcrypt_cost: 12 },
        server: ServerConfig { host: "0.0.0.0".to_string(), port: 8080, workers: 4 },
        security: SecurityConfig {
            rate_limit: RateLimitConfig { requests_per_minute: 60, burst_size: 10 },
            cors: CorsConfig {
                allowed_origins: vec![],
                allowed_methods: vec![],
                allowed_headers: vec![],
                expose_headers: vec![],
                max_age: 3600,
            },
        },
        logging: LoggingConfig { level: "info".to_string(), format: "json".to_string(), enable_console: true, enable_file: false },
        pagination: PaginationConfig { default_limit: 10, max_limit: 100 },
        environment: environment.to_string(),
    }
}

#[test]
fn environment_flags() {
    assert!(app_config("production").is_production());
    assert!(!app_config("production").is_development());
    assert!(app_config("development").is_development());
    assert!(!app_config("Production").is_production());
}

#[test]
fn missing_settings_are_internal_errors() {
    let mut c = app_config("development");
    assert_eq!(c.get_redis_url().unwrap(), "redis://localhost");
    match c.get_database_url() {
        Err(AppError::Internal(m)) => assert_eq!(m, "Database URL not configured"),
        other => panic!("unexpected {:?}", other),
    }
    assert!(matches!(c.get_jwt_secret(), Err(AppError::Internal(_))));
    let secrets = SecretConfig {
        database: DatabaseSecrets { url: "postgres://db".to_string() },
        redis: RedisSecrets { url: "redis://r".to_string() },
        auth: AuthSecrets { jwt_secret: "SECRET-REDACTED".to_string(), refresh_secret: "SECRET-REDACTED".to_string() },
    };
    c.apply_secrets(&secrets);
    assert_eq!(c.get_database_url().unwrap(), "postgres://db");
    assert_eq!(c.get_redis_url().unwrap(), "redis://r");
    assert_eq!(c.get_jwt_secret().unwrap(), "SECRET-REDACTED");
}

#[test]
fn request_validation() {
    let ok = LoginRequest { username: "bob".to_string(), password: "12345678".to_string() };
    assert!(ok.validate().is_ok());
    let short = LoginRequest { username: "bo".to_string(), password: "12345678".to_string() };
    assert!(matches!(short.validate(), Err(AppError::Validation(_))));
    let weak = LoginRequest { username: "bob".to_string(), password: "1234567".to_string() };
    assert!(matches!(weak.validate(), Err(AppError::Validation(_))));
    let block = BlockIpRequest { ip: "1.2.3.4".to_string(), reason: "spam".to_string(), permanent: None };
    assert!(block.validate().is_ok());
    assert!(!block.is_permanent());
    let bad = BlockIpRequest { ip: "1.2.3".to_string(), reason: "".to_string(), permanent: Some(true) };
    assert!(bad.validate().is_err());
    assert!(bad.is_permanent());
}

#[test]
fn settings_defaults() {
    let g = GeneralSettings::default();
    assert_eq!(g.site_name, "Ericsson Budhilaw");
    assert!(!g.maintenance_mode);
    assert!(FeatureSettings::default().comments_enabled);
    let s = SecuritySettings::default();
    assert_eq!(s.max_login_attempts, 5);
    assert_eq!(s.comment_rate_limit.max_comments_per_hour, 10);
    assert!(s.ip_whitelist.is_empty());
}

#[test]
fn audit_names() {
    assert_eq!(AuditAction::LoginFailed.to_string(), "login_failed");
    assert_eq!(AuditAction::ProfileUpdated.to_string(), "profile_updated");
    assert_eq!(ResourceType::Authentication.to_string(), "authentication");
}

#[test]
fn security_headers_and_cors() {
    let h = security_headers();
    assert_eq!(h.len(), 7);
    assert_eq!(h[0], ("x-frame-options".to_string(), "DENY".to_string()));
    assert_eq!(h[6].0, "permissions-policy");
    let mut c = app_config("production");
    assert!(!cors_allows_any_origin(&c.security.cors));
    assert!(cors_allows_credentials(&c.security.cors));
    c.security.cors.allowed_origins = vec!["https://a.example".to_string(), "*".to_string()];
    assert!(cors_allows_any_origin(&c.security.cors));
    assert!(!cors_allows_credentials(&c.security.cors));
}
