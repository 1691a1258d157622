//! Credential checks of the login and password-change paths. Looking the
//! user up is the caller's part; these functions take what was found.
use vstd::prelude::*;
use crate::errors::AppError;
use crate::models::{length_within, ChangePasswordRequest, LoginRequest};
use crate::password::{argon2_accepts, phc_well_formed, strong_password, PasswordService};
use crate::text::owned;

verus! {

pub open spec fn unauthorized_with(e: AppError, m: Seq<char>) -> bool {
    e matches AppError::Unauthorized(x) && x@ == m
}

/// Checks a login request against the stored hash of the user it names
/// (`None` where no such user exists). Unknown users, wrong passwords and
/// stored hashes that do not parse all get the same answer, so that clients
/// learn nothing beyond "invalid credentials".
pub fn check_credentials(request: &LoginRequest, stored_hash: Option<&str>) -> (r: Result<(), AppError>)
    ensures
        !(length_within(request.username@, 3, 50) && request.password@.len() >= 8) ==> r matches Err(
            AppError::Validation(_),
        ),
        length_within(request.username@, 3, 50) && request.password@.len() >= 8 ==> match stored_hash {
            None => r matches Err(e) && unauthorized_with(e, "Invalid credentials"@),
            Some(h) => if phc_well_formed(h@) && argon2_accepts(request.password@, h@) {
                r is Ok
            } else {
                r matches Err(e) && unauthorized_with(e, "Invalid credentials"@)
            },
        },
{
    match request.validate() {
        Err(e) => return Err(e),
        Ok(()) => {},
    }
    let hash = match stored_hash {
        None => return Err(AppError::Unauthorized(owned("Invalid credentials"))),
        Some(h) => h,
    };
    let passwords = PasswordService::new();
    match passwords.verify_password(request.password.as_str(), hash) {
        Ok(true) => Ok(()),
        _ => Err(AppError::Unauthorized(owned("Invalid credentials"))),
    }
}

/// Checks a password change against the user's stored hash and returns the
/// hash to store: the new password must be strong, and the current one must
/// match.
pub fn change_password_hash(request: &ChangePasswordRequest, stored_hash: &str) -> (r: Result<String, AppError>)
    ensures
        !(request.current_password@.len() >= 8 && request.new_password@.len() >= 8) ==> r matches Err(
            AppError::Validation(_),
        ),
        request.current_password@.len() >= 8 && request.new_password@.len() >= 8 && !strong_password(
            request.new_password@,
        ) ==> r matches Err(AppError::Validation(_)),
        request.current_password@.len() >= 8 && request.new_password@.len() >= 8 && strong_password(
            request.new_password@,
        ) && !(phc_well_formed(stored_hash@) && argon2_accepts(request.current_password@, stored_hash@)) ==> (r matches Err(e)
            && unauthorized_with(e, "Current password is incorrect"@)),
        r matches Ok(h) ==> strong_password(request.new_password@) && phc_well_formed(stored_hash@) && argon2_accepts(
            request.current_password@,
            stored_hash@,
        ) && phc_well_formed(h@) && argon2_accepts(request.new_password@, h@),
{
    match request.validate() {
        Err(e) => return Err(e),
        Ok(()) => {},
    }
    if !PasswordService::is_strong_password(request.new_password.as_str()) {
        return Err(
            AppError::Validation(
                owned(
                    "Password must be at least 8 characters and contain a mix of uppercase, lowercase, numbers, and special characters",
                ),
            ),
        );
    }
    let passwords = PasswordService::new();
    match passwords.verify_password(request.current_password.as_str(), stored_hash) {
        Ok(true) => {},
        _ => return Err(AppError::Unauthorized(owned("Current password is incorrect"))),
    }
    passwords.hash_password(request.new_password.as_str())
}

} // verus!
