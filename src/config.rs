//! Application configuration, as loaded from the configuration and secret
//! files, and the limiter settings of the login path.
use vstd::prelude::*;
use crate::errors::AppError;
use crate::limiter::LimiterConfig;
use crate::text::{owned, str_eq};

verus! {

#[derive(Debug, Clone)]
pub struct DatabaseConfig {
    pub url: Option<String>,
    pub max_connections: u32,
    pub min_connections: u32,
    pub connect_timeout: u64,
    pub idle_timeout: u64,
}

#[derive(Debug, Clone)]
pub struct RedisConfig {
    pub url: Option<String>,
    pub pool_size: u32,
    pub timeout: u64,
}

#[derive(Debug, Clone)]
pub struct AuthConfig {
    pub jwt_secret: Option<String>,
    pub token_expiry: i64,
    pub bcrypt_cost: u32,
}

#[derive(Debug, Clone)]
pub struct ServerConfig {
    pub host: String,
    pub port: u16,
    pub workers: usize,
}

#[derive(Debug, Clone)]
pub struct SecurityConfig {
    pub rate_limit: RateLimitConfig,
    pub cors: CorsConfig,
}

#[derive(Debug, Clone)]
pub struct RateLimitConfig {
    pub requests_per_minute: u64,
    pub burst_size: u32,
}

#[derive(Debug, Clone)]
pub struct CorsConfig {
    pub allowed_origins: Vec<String>,
    pub allowed_methods: Vec<String>,
    pub allowed_headers: Vec<String>,
    pub expose_headers: Vec<String>,
    pub max_age: u64,
}

#[derive(Debug, Clone)]
pub struct LoggingConfig {
    pub level: String,
    pub format: String,
    pub enable_console: bool,
    pub enable_file: bool,
}

#[derive(Debug, Clone)]
pub struct PaginationConfig {
    pub default_limit: u32,
    pub max_limit: u32,
}

#[derive(Debug, Clone)]
pub struct AppConfig {
    pub database: DatabaseConfig,
    pub redis: RedisConfig,
    pub auth: AuthConfig,
    pub server: ServerConfig,
    pub security: SecurityConfig,
    pub logging: LoggingConfig,
    pub pagination: PaginationConfig,
    pub environment: String,
}

#[derive(Debug, Clone)]
pub struct SecretConfig {
    pub database: DatabaseSecrets,
    pub redis: RedisSecrets,
    pub auth: AuthSecrets,
}

#[derive(Debug, Clone)]
pub struct DatabaseSecrets {
    pub url: String,
}

#[derive(Debug, Clone)]
pub struct RedisSecrets {
    pub url: String,
}

#[derive(Debug, Clone)]
pub struct AuthSecrets {
    pub jwt_secret: String,
    pub refresh_secret: String,
}

/// A setting that must be present, or the error that names it.
pub open spec fn required(v: Option<String>, missing: Seq<char>, r: Result<&str, AppError>) -> bool {
    match v {
        Some(s) => r matches Ok(x) && x@ == s@,
        None => r matches Err(AppError::Internal(m)) && m@ == missing,
    }
}

impl AppConfig {
    pub fn is_production(&self) -> (r: bool)
        ensures
            r == (self.environment@ == "production"@),
    {
        str_eq(self.environment.as_str(), "production")
    }

    pub fn is_development(&self) -> (r: bool)
        ensures
            r == (self.environment@ == "development"@),
    {
        str_eq(self.environment.as_str(), "development")
    }

    pub fn get_database_url(&self) -> (r: Result<&str, AppError>)
        ensures
            required(self.database.url, "Database URL not configured"@, r),
    {
        match &self.database.url {
            Some(s) => Ok(s.as_str()),
            None => Err(AppError::Internal(owned("Database URL not configured"))),
        }
    }

    pub fn get_redis_url(&self) -> (r: Result<&str, AppError>)
        ensures
            required(self.redis.url, "Redis URL not configured"@, r),
    {
        match &self.redis.url {
            Some(s) => Ok(s.as_str()),
            None => Err(AppError::Internal(owned("Redis URL not configured"))),
        }
    }

    pub fn get_jwt_secret(&self) -> (r: Result<&str, AppError>)
        ensures
            required(self.auth.jwt_secret, "JWT secret not configured"@, r),
    {
        match &self.auth.jwt_secret {
            Some(s) => Ok(s.as_str()),
            None => Err(AppError::Internal(owned("JWT secret not configured"))),
        }
    }

    /// Moves the secrets into the configuration, as loading does after
    /// reading both files.
    pub fn apply_secrets(&mut self, secrets: &SecretConfig)
        ensures
            final(self).database.url matches Some(u) && u@ == secrets.database.url@,
            final(self).redis.url matches Some(u) && u@ == secrets.redis.url@,
            final(self).auth.jwt_secret matches Some(u) && u@ == secrets.auth.jwt_secret@,
            final(self).environment == old(self).environment,
    {
        self.database.url = Some(secrets.database.url.clone());
        self.redis.url = Some(secrets.redis.url.clone());
        self.auth.jwt_secret = Some(secrets.auth.jwt_secret.clone());
    }
}

impl LimiterConfig {
    /// The login path's settings: 20 attempts per IP in 5 minutes, 5 per
    /// username in 15 minutes, an automatic block after 5 failures, lasting
    /// 24 hours.
    pub fn login_defaults() -> (r: LimiterConfig)
        ensures
            r.ip_limit == 20 && r.ip_window_seconds == 300,
            r.user_limit == 5 && r.user_window_seconds == 900,
            r.block_threshold == 5 && r.block_duration_hours == 24,
    {
        LimiterConfig {
            ip_limit: 20,
            ip_window_seconds: 300,
            user_limit: 5,
            user_window_seconds: 900,
            block_threshold: 5,
            block_duration_hours: 24,
        }
    }
}

} // verus!
