//! The login sequence: block check, then rate check, then credential
//! verification, then the side effects of the outcome. The decisions are a
//! transition function over states and events, so that a caller performing
//! the store and credential work itself drives the same rules.
use vstd::prelude::*;
use crate::audit::AuditAction;
use crate::errors::AppError;
use crate::token::{can_issue, Claims, TokenService};
use crate::limiter::{AuthRateLimitInfo, LimiterConfig};
use crate::limiter::cutoff;
use crate::store::{
    appended, auto_blocked, block_status, check_outcome, clear_auth_rate_limit, cleared, pruned,
    record_auth_failure, CounterStore, StoreError,
};
use crate::text::owned;

verus! {

pub enum LoginState {
    Start,
    CheckingBlock,
    CheckingRate,
    VerifyingCredentials,
    Success,
    Failure(AppError),
}

pub enum LoginEvent {
    Begin,
    /// `Ok(Some(permanent))` for a blocked IP, `Ok(None)` for one that is not.
    BlockChecked(Result<Option<bool>, StoreError>),
    RateChecked(Result<AuthRateLimitInfo, StoreError>),
    CredentialsChecked(bool),
}

pub open spec fn permanent_block_message() -> Seq<char> {
    "Your IP address has been blocked due to suspicious activity. Please contact support if you believe this is an error."@
}

pub open spec fn temporary_block_message() -> Seq<char> {
    "Your IP address has been temporarily blocked due to suspicious activity. Please try again later."@
}

pub open spec fn default_limit_message() -> Seq<char> {
    "Too many authentication attempts"@
}

pub open spec fn invalid_credentials_message() -> Seq<char> {
    "Invalid credentials"@
}

/// The failure a blocked IP receives: no retry hint, and wording that
/// follows whether the block is permanent.
pub open spec fn is_block_failure(e: AppError, permanent: bool) -> bool {
    e matches AppError::TooManyRequests { message, retry_after } && retry_after is None
        && message@ == if permanent { permanent_block_message() } else { temporary_block_message() }
}

/// The failure a rate-limited attempt receives.
pub open spec fn is_limit_failure(e: AppError, info: AuthRateLimitInfo) -> bool {
    e matches AppError::TooManyRequests { message, retry_after } && retry_after == info.lockout_seconds
        && message@ == match info.reason { Some(m) => m@, None => default_limit_message() }
}

pub open spec fn is_credentials_failure(e: AppError) -> bool {
    e matches AppError::Unauthorized(m) && m@ == invalid_credentials_message()
}

/// One step of the login sequence. A store error during either check lets
/// the attempt through. An event that does not belong to the state leaves
/// the state as it is.
pub fn login_transition(state: LoginState, event: LoginEvent) -> (r: LoginState)
    ensures
        (state is Start && event is Begin) ==> r is CheckingBlock,
        state is CheckingBlock ==> match event {
            LoginEvent::BlockChecked(Ok(Some(p))) => r matches LoginState::Failure(e) && is_block_failure(e, p),
            LoginEvent::BlockChecked(_) => r is CheckingRate,
            _ => r == state,
        },
        state is CheckingRate ==> match event {
            LoginEvent::RateChecked(Ok(info)) => if info.allowed {
                r is VerifyingCredentials
            } else {
                r matches LoginState::Failure(e) && is_limit_failure(e, info)
            },
            LoginEvent::RateChecked(Err(_)) => r is VerifyingCredentials,
            _ => r == state,
        },
        state is VerifyingCredentials ==> match event {
            LoginEvent::CredentialsChecked(true) => r is Success,
            LoginEvent::CredentialsChecked(false) => r matches LoginState::Failure(e) && is_credentials_failure(e),
            _ => r == state,
        },
        (state is Start && !(event is Begin)) || state is Success || state is Failure ==> r == state,
{
    match state {
        LoginState::Start => match event {
            LoginEvent::Begin => LoginState::CheckingBlock,
            _ => LoginState::Start,
        },
        LoginState::CheckingBlock => match event {
            LoginEvent::BlockChecked(Ok(Some(permanent))) => {
                let message = if permanent {
                    owned("Your IP address has been blocked due to suspicious activity. Please contact support if you believe this is an error.")
                } else {
                    owned("Your IP address has been temporarily blocked due to suspicious activity. Please try again later.")
                };
                LoginState::Failure(AppError::TooManyRequests { message, retry_after: None })
            },
            LoginEvent::BlockChecked(_) => LoginState::CheckingRate,
            _ => LoginState::CheckingBlock,
        },
        LoginState::CheckingRate => match event {
            LoginEvent::RateChecked(Ok(info)) => {
                if info.allowed {
                    LoginState::VerifyingCredentials
                } else {
                    let message = match info.reason {
                        Some(m) => m,
                        None => owned("Too many authentication attempts"),
                    };
                    LoginState::Failure(AppError::TooManyRequests { message, retry_after: info.lockout_seconds })
                }
            },
            LoginEvent::RateChecked(Err(_)) => LoginState::VerifyingCredentials,
            _ => LoginState::CheckingRate,
        },
        LoginState::VerifyingCredentials => match event {
            LoginEvent::CredentialsChecked(ok) => {
                if ok {
                    LoginState::Success
                } else {
                    LoginState::Failure(AppError::Unauthorized(owned("Invalid credentials")))
                }
            },
            _ => LoginState::VerifyingCredentials,
        },
        LoginState::Success => LoginState::Success,
        LoginState::Failure(e) => LoginState::Failure(e),
    }
}

/// How a login attempt ends.
pub enum Verdict {
    Granted,
    /// The IP is blocked; the flag tells whether for good.
    Blocked(bool),
    /// An axis of the limiter tripped.
    Limited,
    /// The credentials were wrong.
    Rejected,
}

/// The verdict on an attempt from `ip` as `username` against a store in state
/// `s`: blocks first, then the limiter, then the credentials. An unreachable
/// store blocks and limits nothing.
pub open spec fn login_verdict(
    cfg: LimiterConfig,
    s: CounterStore,
    ip: Seq<char>,
    username: Seq<char>,
    credentials_valid: bool,
    now: u64,
) -> Verdict {
    if s.available && block_status(s.blocks@, ip, now) is Some {
        Verdict::Blocked(block_status(s.blocks@, ip, now)->Some_0)
    } else if s.available && !check_outcome(cfg, s, ip, Some(username), now).allowed {
        Verdict::Limited
    } else if credentials_valid {
        Verdict::Granted
    } else {
        Verdict::Rejected
    }
}

/// Runs one login attempt against the store. `credentials_valid` is the
/// verdict of the credential check, which is consulted only once both
/// checks have let the attempt through. On success both axes are cleared;
/// on bad credentials the failure is recorded and may block the IP. Store
/// errors on the way are swallowed.
pub fn authorize_login(
    store: &mut CounterStore,
    cfg: &LimiterConfig,
    ip: &str,
    username: &str,
    credentials_valid: bool,
    now: u64,
) -> (r: Result<(), AppError>)
    ensures
        ({
            let v = login_verdict(*cfg, *old(store), ip@, username@, credentials_valid, now);
            let out = check_outcome(*cfg, *old(store), ip@, Some(username@), now);
            &&& v is Granted ==> r is Ok
            &&& v matches Verdict::Blocked(p) ==> (r matches Err(e) && is_block_failure(e, p))
            &&& v is Limited ==> (r matches Err(AppError::TooManyRequests { message, retry_after })
                && retry_after == out.lockout_seconds && out.reason == Some(message@))
            &&& v is Rejected ==> (r matches Err(e) && is_credentials_failure(e))
            &&& (v is Blocked || !old(store).available) ==> *final(store) == *old(store)
            &&& v is Limited ==> final(store).ip_attempts@ == pruned(
                old(store).ip_attempts@, ip@, cutoff(now, cfg.ip_window_seconds))
                && final(store).user_attempts@ == pruned(
                old(store).user_attempts@, username@, cutoff(now, cfg.user_window_seconds))
                && final(store).blocks@ == old(store).blocks@
            &&& (v is Granted && old(store).available) ==> final(store).ip_attempts@ == cleared(
                pruned(old(store).ip_attempts@, ip@, cutoff(now, cfg.ip_window_seconds)), ip@)
                && final(store).user_attempts@ == cleared(
                pruned(old(store).user_attempts@, username@, cutoff(now, cfg.user_window_seconds)), username@)
                && final(store).blocks@ == old(store).blocks@
            &&& (v is Rejected && old(store).available) ==> appended(
                pruned(old(store).ip_attempts@, ip@, cutoff(now, cfg.ip_window_seconds)),
                final(store).ip_attempts@, ip@, now)
                && appended(
                pruned(old(store).user_attempts@, username@, cutoff(now, cfg.user_window_seconds)),
                final(store).user_attempts@, username@, now)
                && auto_blocked(*cfg, old(store).blocks@, final(store).blocks@, final(store).ip_attempts@, ip@, now)
        }),
        final(store).available == old(store).available,
        old(store).wf() ==> final(store).wf(),
{
    let mut state = login_transition(LoginState::Start, LoginEvent::Begin);
    let blocked = store.block_status_of(ip, now);
    state = login_transition(state, LoginEvent::BlockChecked(blocked));
    if let LoginState::CheckingRate = state {
        let rate = store.check_auth_rate_limit(cfg, ip, Some(username), now);
        state = login_transition(state, LoginEvent::RateChecked(rate));
        if let LoginState::VerifyingCredentials = state {
            state = login_transition(state, LoginEvent::CredentialsChecked(credentials_valid));
            match state {
                LoginState::Success => {
                    let _ = clear_auth_rate_limit(store, ip, username);
                },
                _ => {
                    let _ = record_auth_failure(store, cfg, ip, username, now);
                },
            }
        }
    }
    match state {
        LoginState::Failure(e) => Err(e),
        _ => Ok(()),
    }
}

/// The audit event of a finished login attempt.
#[derive(Debug)]
pub struct LoginAudit {
    pub action: AuditAction,
    pub success: bool,
    pub username: String,
    pub ip: String,
}

fn audit_record(success: bool, ip: &str, username: &str) -> (r: LoginAudit)
    ensures
        r.success == success,
        r.action == if success { AuditAction::Login } else { AuditAction::LoginFailed },
        r.username@ == username@,
        r.ip@ == ip@,
{
    LoginAudit {
        action: if success { AuditAction::Login } else { AuditAction::LoginFailed },
        success,
        username: owned(username),
        ip: owned(ip),
    }
}

/// The audit event a state emits: every terminal state emits one (a login
/// on success, a failed login on failure), every other state none.
pub fn login_audit(state: &LoginState, ip: &str, username: &str) -> (r: Option<LoginAudit>)
    ensures
        *state is Success ==> (r matches Some(a) && a.action == AuditAction::Login && a.success && a.username@
            == username@ && a.ip@ == ip@),
        *state is Failure ==> (r matches Some(a) && a.action == AuditAction::LoginFailed && !a.success
            && a.username@ == username@ && a.ip@ == ip@),
        !(*state is Success || *state is Failure) ==> r is None,
{
    match state {
        LoginState::Success => Some(audit_record(true, ip, username)),
        LoginState::Failure(_) => Some(audit_record(false, ip, username)),
        _ => None,
    }
}

/// What a finished login returns: the claims to sign on success, and the
/// audit event to emit in every case.
#[derive(Debug)]
pub struct LoginOutcome {
    pub result: Result<Claims, AppError>,
    pub audit: LoginAudit,
}

/// Completes a login that `authorize_login` decided: a granted attempt gets
/// claims for the identity (`sub`, `username`, `role`) issued at `now`; a
/// refused one keeps its error. Issuing fails with `Internal` where the
/// clock or the lifetime does not allow it. The audit event records whether
/// the login succeeded.
pub fn finish_login(
    decision: Result<(), AppError>,
    tokens: &TokenService,
    ip: &str,
    sub: &str,
    username: &str,
    role: &str,
    now: u64,
) -> (r: LoginOutcome)
    ensures
        decision is Ok && now <= i64::MAX && can_issue(tokens.token_expiry, now as i64) ==> (r.result matches Ok(c)
            && c.sub@ == sub@ && c.username@ == username@ && c.role@ == role@ && c.iat == now as i64 && c.exp == now
            + tokens.token_expiry),
        decision is Ok && !(now <= i64::MAX && can_issue(tokens.token_expiry, now as i64)) ==> r.result matches Err(
            AppError::Internal(_),
        ),
        decision matches Err(e) ==> r.result == Err::<Claims, AppError>(e),
        r.audit.success == r.result is Ok,
        r.audit.action == if r.result is Ok { AuditAction::Login } else { AuditAction::LoginFailed },
        r.audit.username@ == username@,
        r.audit.ip@ == ip@,
{
    let result = match decision {
        Err(e) => Err(e),
        Ok(()) => {
            if now > i64::MAX as u64 {
                Err(AppError::Internal(owned("Failed to generate token")))
            } else {
                tokens.generate_claims(sub, username, role, now as i64)
            }
        },
    };
    let success = match &result {
        Ok(_) => true,
        Err(_) => false,
    };
    LoginOutcome { result, audit: audit_record(success, ip, username) }
}

} // verus!
