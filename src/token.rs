//! Session claims: what a signed token asserts, when it is issued and until
//! when it holds. Signing and verifying the token bytes is the caller's part;
//! a token verified there is checked here against the clock.
use vstd::prelude::*;
use crate::errors::AppError;
use crate::text::owned;

verus! {

/// The identity a token asserts. Times are seconds since the Unix epoch.
#[derive(Debug)]
pub struct Claims {
    pub sub: String,
    pub username: String,
    pub role: String,
    pub exp: i64,
    pub iat: i64,
}

impl Claims {
    pub fn duplicate(&self) -> (r: Claims)
        ensures
            r == *self,
    {
        Claims {
            sub: self.sub.clone(),
            username: self.username.clone(),
            role: self.role.clone(),
            exp: self.exp,
            iat: self.iat,
        }
    }
}

/// Issues and checks claims with a fixed lifetime.
#[derive(Debug)]
pub struct TokenService {
    pub jwt_secret: String,
    /// Lifetime of an issued token, in seconds.
    pub token_expiry: i64,
}

/// Claims issued at `now` are owed exactly where the lifetime is positive and
/// the expiry fits.
pub open spec fn can_issue(ttl: i64, now: i64) -> bool {
    ttl > 0 && now + ttl <= i64::MAX
}

/// A token's claims hold at `now` exactly while `now` is before the expiry.
pub open spec fn claims_hold(c: Claims, now: i64) -> bool {
    now < c.exp
}

impl TokenService {
    pub fn new(jwt_secret: String, token_expiry: i64) -> (r: TokenService)
        ensures
            r.jwt_secret == jwt_secret,
            r.token_expiry == token_expiry,
    {
        TokenService { jwt_secret, token_expiry }
    }

    /// Claims for the given identity, issued at `now` and expiring after the
    /// configured lifetime. Fails with `Internal` where the lifetime is not
    /// positive or the expiry does not fit.
    pub fn generate_claims(&self, sub: &str, username: &str, role: &str, now: i64) -> (r: Result<Claims, AppError>)
        ensures
            can_issue(self.token_expiry, now) ==> (r matches Ok(c) && c.sub@ == sub@ && c.username@ == username@
                && c.role@ == role@ && c.iat == now && c.exp == now + self.token_expiry),
            !can_issue(self.token_expiry, now) ==> r matches Err(AppError::Internal(_)),
    {
        if self.token_expiry <= 0 {
            return Err(AppError::Internal(owned("Token lifetime must be positive")));
        }
        match now.checked_add(self.token_expiry) {
            Some(exp) => Ok(Claims { sub: owned(sub), username: owned(username), role: owned(role), exp, iat: now }),
            None => Err(AppError::Internal(owned("Failed to generate token"))),
        }
    }

    /// The claims of a token whose signature the caller verified, provided
    /// they still hold at `now`; else `Unauthorized`.
    pub fn validate_claims(&self, claims: &Claims, now: i64) -> (r: Result<Claims, AppError>)
        ensures
            claims_hold(*claims, now) ==> r == Ok::<Claims, AppError>(*claims),
            !claims_hold(*claims, now) ==> (r matches Err(AppError::Unauthorized(m)) && m@
                == "Invalid or expired token"@),
    {
        if now < claims.exp {
            Ok(claims.duplicate())
        } else {
            Err(AppError::Unauthorized(owned("Invalid or expired token")))
        }
    }
}

/// Issuing claims and checking them again returns the same identity with
/// `iat < exp`, at every moment before the expiry; from the expiry on the
/// check fails with `Unauthorized`.
pub proof fn lemma_issue_then_validate(ttl: i64, issued_at: i64, c: Claims, later: i64)
    requires
        can_issue(ttl, issued_at),
        c.iat == issued_at,
        c.exp == issued_at + ttl,
    ensures
        c.iat < c.exp,
        issued_at <= later && later < issued_at + ttl ==> claims_hold(c, later),
        later >= issued_at + ttl ==> !claims_hold(c, later),
{
}

impl TokenService {
    /// The middleware's verdict on a request's token: `verified` holds the
    /// claims of a token whose signature the caller checked, `None` where
    /// the token did not decode or verify. Both a bad token and one past
    /// its expiry get the same answer.
    pub fn accept_token(&self, verified: Option<Claims>, now: i64) -> (r: Result<Claims, AppError>)
        ensures
            verified matches Some(c) ==> (claims_hold(c, now) ==> r == Ok::<Claims, AppError>(c)),
            verified matches Some(c) ==> (!claims_hold(c, now) ==> (r matches Err(AppError::Unauthorized(m))
                && m@ == "Invalid or expired token"@)),
            verified is None ==> (r matches Err(AppError::Unauthorized(m)) && m@ == "Invalid or expired token"@),
    {
        match verified {
            Some(c) => self.validate_claims(&c, now),
            None => Err(AppError::Unauthorized(owned("Invalid or expired token"))),
        }
    }
}

} // verus!
