//! Rate-limit decisions for login attempts, counted on two independent axes:
//! the client IP and the username.
use vstd::prelude::*;
use vstd::string::*;
use crate::text::{append_decimal, decimal, owned};

verus! {

/// Thresholds of the login limiter. Each axis has its own limit and window.
#[derive(Clone, Copy, Debug)]
pub struct LimiterConfig {
    pub ip_limit: u32,
    pub ip_window_seconds: u64,
    pub user_limit: u32,
    pub user_window_seconds: u64,
    /// Failures on the IP axis that trigger an automatic block.
    pub block_threshold: u32,
    /// Length of an automatic or non-permanent block; zero makes every block permanent.
    pub block_duration_hours: u64,
}

/// The outcome of one rate-limit check.
#[derive(Clone, Debug)]
pub struct AuthRateLimitInfo {
    pub allowed: bool,
    pub remaining_attempts: u32,
    /// Seconds since the Unix epoch.
    pub reset_time: u64,
    pub lockout_seconds: Option<u64>,
    pub reason: Option<String>,
    pub is_permanently_blocked: bool,
}

/// What a rate-limit check returns, over mathematical values.
pub struct DecisionView {
    pub allowed: bool,
    pub remaining_attempts: u32,
    pub reset_time: u64,
    pub lockout_seconds: Option<u64>,
    pub reason: Option<Seq<char>>,
    pub is_permanently_blocked: bool,
}

impl View for AuthRateLimitInfo {
    type V = DecisionView;

    open spec fn view(&self) -> DecisionView {
        DecisionView {
            allowed: self.allowed,
            remaining_attempts: self.remaining_attempts,
            reset_time: self.reset_time,
            lockout_seconds: self.lockout_seconds,
            reason: match self.reason {
                Some(s) => Some(s@),
                None => None,
            },
            is_permanently_blocked: self.is_permanently_blocked,
        }
    }
}

/// `a + b`, or `u64::MAX` where the sum does not fit.
pub open spec fn sat_add(a: u64, b: u64) -> u64 {
    if a + b > u64::MAX { u64::MAX } else { (a + b) as u64 }
}

/// The oldest timestamp that still counts on an axis with the given window.
pub open spec fn cutoff(now: u64, window: u64) -> u64 {
    if now >= window { (now - window) as u64 } else { 0 }
}

pub open spec fn blocked_message() -> Seq<char> {
    "IP address is blocked due to suspicious activity"@
}

/// "(count/limit)"
pub open spec fn ratio(count: u64, limit: u32) -> Seq<char> {
    "("@ + decimal(count as nat) + "/"@ + decimal(limit as nat) + ")"@
}

/// The reason given when an axis tripped; it names each axis with its count.
pub open spec fn exceeded_reason(
    cfg: LimiterConfig,
    ip_count: u64,
    user_count: u64,
    ip_exceeded: bool,
    user_exceeded: bool,
) -> Seq<char> {
    if ip_exceeded && user_exceeded {
        "Too many login attempts from this IP "@ + ratio(ip_count, cfg.ip_limit)
            + " and for this user "@ + ratio(user_count, cfg.user_limit)
    } else if ip_exceeded {
        "Too many login attempts from this IP "@ + ratio(ip_count, cfg.ip_limit)
    } else {
        "Too many login attempts for this user "@ + ratio(user_count, cfg.user_limit)
    }
}

/// The rate-limit decision. `blocked` is `Some(permanent)` where the IP has an
/// active block record; the counts are those inside each axis's window, and
/// `user_count` is `None` where no username is known.
pub open spec fn decision(
    cfg: LimiterConfig,
    blocked: Option<bool>,
    ip_count: u64,
    user_count: Option<u64>,
    now: u64,
) -> DecisionView {
    match blocked {
        Some(permanent) => DecisionView {
            allowed: false,
            remaining_attempts: 0,
            reset_time: now,
            lockout_seconds: None,
            reason: Some(blocked_message()),
            is_permanently_blocked: permanent,
        },
        None => {
            let uc: u64 = match user_count { Some(c) => c, None => 0 };
            let ip_exceeded = ip_count >= cfg.ip_limit;
            let user_exceeded = uc >= cfg.user_limit;
            if ip_exceeded || user_exceeded {
                DecisionView {
                    allowed: false,
                    remaining_attempts: 0,
                    reset_time: sat_add(now, cfg.ip_window_seconds),
                    lockout_seconds: Some(cfg.ip_window_seconds),
                    reason: Some(exceeded_reason(cfg, ip_count, uc, ip_exceeded, user_exceeded)),
                    is_permanently_blocked: false,
                }
            } else {
                let ip_left = (cfg.ip_limit - ip_count) as u32;
                let user_left = (cfg.user_limit - uc) as u32;
                DecisionView {
                    allowed: true,
                    remaining_attempts: if ip_left <= user_left { ip_left } else { user_left },
                    reset_time: sat_add(now, cfg.ip_window_seconds),
                    lockout_seconds: None,
                    reason: None,
                    is_permanently_blocked: false,
                }
            }
        },
    }
}

fn ratio_into(s: &mut String, count: u64, limit: u32)
    ensures
        final(s)@ == old(s)@ + ratio(count, limit),
{
    s.append("(");
    append_decimal(s, count);
    s.append("/");
    append_decimal(s, limit as u64);
    s.append(")");
    assert(final(s)@ =~= old(s)@ + ratio(count, limit));
}

fn exceeded_message(
    cfg: &LimiterConfig,
    ip_count: u64,
    user_count: u64,
    ip_exceeded: bool,
    user_exceeded: bool,
) -> (r: String)
    requires
        ip_exceeded || user_exceeded,
    ensures
        r@ == exceeded_reason(*cfg, ip_count, user_count, ip_exceeded, user_exceeded),
{
    let mut s = String::new();
    if ip_exceeded {
        s.append("Too many login attempts from this IP ");
        ratio_into(&mut s, ip_count, cfg.ip_limit);
        if user_exceeded {
            s.append(" and for this user ");
            ratio_into(&mut s, user_count, cfg.user_limit);
        }
    } else {
        s.append("Too many login attempts for this user ");
        ratio_into(&mut s, user_count, cfg.user_limit);
    }
    proof {
        let m = exceeded_reason(*cfg, ip_count, user_count, ip_exceeded, user_exceeded);
        assert(s@ =~= m);
    }
    s
}

/// Decides one login attempt from what the counter store reported.
pub fn decide_rate_limit(
    cfg: &LimiterConfig,
    blocked: Option<bool>,
    ip_count: u64,
    user_count: Option<u64>,
    now: u64,
) -> (r: AuthRateLimitInfo)
    ensures
        r@ == decision(*cfg, blocked, ip_count, user_count, now),
{
    match blocked {
        Some(permanent) => {
            return AuthRateLimitInfo {
                allowed: false,
                remaining_attempts: 0,
                reset_time: now,
                lockout_seconds: None,
                reason: Some(owned("IP address is blocked due to suspicious activity")),
                is_permanently_blocked: permanent,
            };
        },
        None => {},
    }
    let uc: u64 = match user_count {
        Some(c) => c,
        None => 0,
    };
    let ip_exceeded = ip_count >= cfg.ip_limit as u64;
    let user_exceeded = uc >= cfg.user_limit as u64;
    if ip_exceeded || user_exceeded {
        let lockout = cfg.ip_window_seconds;
        let reason = exceeded_message(cfg, ip_count, uc, ip_exceeded, user_exceeded);
        AuthRateLimitInfo {
            allowed: false,
            remaining_attempts: 0,
            reset_time: now.saturating_add(lockout),
            lockout_seconds: Some(lockout),
            reason: Some(reason),
            is_permanently_blocked: false,
        }
    } else {
        let ip_left = (cfg.ip_limit as u64 - ip_count) as u32;
        let user_left = (cfg.user_limit as u64 - uc) as u32;
        AuthRateLimitInfo {
            allowed: true,
            remaining_attempts: if ip_left <= user_left { ip_left } else { user_left },
            reset_time: now.saturating_add(cfg.ip_window_seconds),
            lockout_seconds: None,
            reason: None,
            is_permanently_blocked: false,
        }
    }
}

/// The expiry a new block record gets: none where the block is permanent or
/// the configured duration is zero, else the duration from `now` on.
pub open spec fn block_expiry(cfg: LimiterConfig, permanent: bool, now: u64) -> Option<u64> {
    if permanent || cfg.block_duration_hours == 0 {
        None
    } else {
        let secs: int = cfg.block_duration_hours * 3600;
        Some(if now + secs > u64::MAX { u64::MAX } else { (now + secs) as u64 })
    }
}

pub fn block_expiry_for(cfg: &LimiterConfig, permanent: bool, now: u64) -> (r: Option<u64>)
    ensures
        r == block_expiry(*cfg, permanent, now),
{
    if permanent || cfg.block_duration_hours == 0 {
        None
    } else {
        match cfg.block_duration_hours.checked_mul(3600) {
            Some(secs) => Some(now.saturating_add(secs)),
            None => Some(u64::MAX),
        }
    }
}

/// "Auto-blocked after N failed login attempts"
pub open spec fn auto_block_reason(n: u64) -> Seq<char> {
    "Auto-blocked after "@ + decimal(n as nat) + " failed login attempts"@
}

pub fn auto_block_message(n: u64) -> (r: String)
    ensures
        r@ == auto_block_reason(n),
{
    let mut reason = owned("Auto-blocked after ");
    append_decimal(&mut reason, n);
    reason.append(" failed login attempts");
    assert(reason@ =~= auto_block_reason(n));
    reason
}

/// The automatic block policy: `n` failures on the IP axis reach the threshold.
pub fn should_auto_block(cfg: &LimiterConfig, n: u64) -> (r: bool)
    ensures
        r == (n >= cfg.block_threshold),
{
    n >= cfg.block_threshold as u64
}

/// The oldest timestamp that still counts on an axis with the given window.
pub fn window_start(now: u64, window: u64) -> (r: u64)
    ensures
        r == cutoff(now, window),
{
    now.saturating_sub(window)
}

} // verus!
