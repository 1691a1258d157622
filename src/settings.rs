//! Site settings that administrators edit, with their defaults.
use vstd::prelude::*;
use vstd::string::*;
use vstd::utf8::encode_utf8;
use crate::chars::{trim, trimmed};
use crate::errors::AppError;
use crate::text::{owned, str_eq};

verus! {

#[derive(Debug, Clone)]
pub struct SocialMediaLinks {
    pub github: Option<String>,
    pub linkedin: Option<String>,
    pub x: Option<String>,
    pub facebook: Option<String>,
    pub instagram: Option<String>,
    pub email: Option<String>,
}

#[derive(Debug, Clone)]
pub struct FilesSettings {
    pub resume_links: Option<String>,
}

#[derive(Debug, Clone)]
pub struct GeneralSettings {
    pub site_name: String,
    pub site_description: String,
    pub maintenance_mode: bool,
    pub maintenance_message: String,
    pub photo_profile: Option<String>,
    pub social_media_links: SocialMediaLinks,
    pub files: FilesSettings,
}

#[derive(Debug, Clone, Copy)]
pub struct FeatureSettings {
    pub comments_enabled: bool,
    pub portfolio_enabled: bool,
    pub services_enabled: bool,
    pub blog_enabled: bool,
    pub contact_form_enabled: bool,
    pub search_enabled: bool,
}

#[derive(Debug, Clone)]
pub struct NotificationSettings {
    pub email_notifications: bool,
    pub smtp_host: Option<String>,
    pub smtp_port: Option<i32>,
    pub smtp_username: Option<String>,
    pub smtp_password: Option<String>,
    pub telegram_notifications: Option<bool>,
    pub telegram_bot_token: Option<String>,
    pub telegram_chat_id: Option<String>,
}

#[derive(Debug, Clone, Copy)]
pub struct CommentRateLimitSettings {
    pub enabled: bool,
    pub max_comments_per_hour: i32,
    pub max_comments_per_minute: i32,
    /// In minutes.
    pub minute_window: i32,
}

#[derive(Debug, Clone)]
pub struct SecuritySettings {
    pub require_strong_passwords: bool,
    pub session_timeout: i32,
    pub max_login_attempts: i32,
    pub two_factor_enabled: bool,
    pub ip_whitelist: Vec<String>,
    pub comment_rate_limit: CommentRateLimitSettings,
    pub comment_approval_required: bool,
}

#[derive(Debug, Clone)]
pub struct UpdateSettingsRequest {
    pub general: Option<GeneralSettings>,
    pub features: Option<FeatureSettings>,
    pub notifications: Option<NotificationSettings>,
    pub security: Option<SecuritySettings>,
}

fn some_text(s: &str) -> (r: Option<String>)
    ensures
        r matches Some(t) && t@ == s@,
{
    Some(owned(s))
}

impl Default for SocialMediaLinks {
    fn default() -> (r: SocialMediaLinks)
        ensures
            r.github matches Some(s) && s@ == "https://github.com/budhilaw"@,
            r.email matches Some(s) && s@ == "ericsson@budhilaw.com"@,
    {
        SocialMediaLinks {
            github: some_text("https://github.com/budhilaw"),
            linkedin: some_text("https://linkedin.com/in/budhilaw"),
            x: some_text("https://x.com/ceritaeric"),
            facebook: some_text("https://facebook.com/ceritaeric"),
            instagram: some_text("https://instagram.com/ceritaeric"),
            email: some_text("ericsson@budhilaw.com"),
        }
    }
}

impl Default for FilesSettings {
    fn default() -> (r: FilesSettings)
        ensures
            r.resume_links matches Some(s) && s@ == "https://drive.google.com/"@,
    {
        FilesSettings { resume_links: some_text("https://drive.google.com/") }
    }
}

impl Default for GeneralSettings {
    fn default() -> (r: GeneralSettings)
        ensures
            r.site_name@ == "Ericsson Budhilaw"@,
            !r.maintenance_mode,
            r.maintenance_message@ == "The site is currently under maintenance. Please check back later."@,
            r.photo_profile is None,
    {
        GeneralSettings {
            site_name: owned("Ericsson Budhilaw"),
            site_description: owned("Senior Software Engineer specializing in consulting and freelancing"),
            maintenance_mode: false,
            maintenance_message: owned("The site is currently under maintenance. Please check back later."),
            photo_profile: None,
            social_media_links: SocialMediaLinks::default(),
            files: FilesSettings::default(),
        }
    }
}

impl Default for FeatureSettings {
    fn default() -> (r: FeatureSettings)
        ensures
            r.comments_enabled && r.portfolio_enabled && r.services_enabled && r.blog_enabled
                && r.contact_form_enabled && r.search_enabled,
    {
        FeatureSettings {
            comments_enabled: true,
            portfolio_enabled: true,
            services_enabled: true,
            blog_enabled: true,
            contact_form_enabled: true,
            search_enabled: true,
        }
    }
}

impl Default for NotificationSettings {
    fn default() -> (r: NotificationSettings)
        ensures
            !r.email_notifications,
            r.smtp_host is None,
            r.smtp_port == Some(587i32),
            r.telegram_notifications == Some(false),
    {
        NotificationSettings {
            email_notifications: false,
            smtp_host: None,
            smtp_port: Some(587),
            smtp_username: None,
            smtp_password: None,
            telegram_notifications: Some(false),
            telegram_bot_token: None,
            telegram_chat_id: None,
        }
    }
}

impl Default for CommentRateLimitSettings {
    fn default() -> (r: CommentRateLimitSettings)
        ensures
            r.enabled,
            r.max_comments_per_hour == 10,
            r.max_comments_per_minute == 2,
            r.minute_window == 1,
    {
        CommentRateLimitSettings { enabled: true, max_comments_per_hour: 10, max_comments_per_minute: 2, minute_window: 1 }
    }
}

impl Default for SecuritySettings {
    fn default() -> (r: SecuritySettings)
        ensures
            r.require_strong_passwords,
            r.session_timeout == 60,
            r.max_login_attempts == 5,
            !r.two_factor_enabled,
            r.ip_whitelist@.len() == 0,
            r.comment_rate_limit.enabled,
            r.comment_rate_limit.max_comments_per_hour == 10,
            r.comment_rate_limit.max_comments_per_minute == 2,
            r.comment_rate_limit.minute_window == 1,
            !r.comment_approval_required,
    {
        SecuritySettings {
            require_strong_passwords: true,
            session_timeout: 60,
            max_login_attempts: 5,
            two_factor_enabled: false,
            ip_whitelist: Vec::new(),
            comment_rate_limit: CommentRateLimitSettings::default(),
            comment_approval_required: false,
        }
    }
}

/// A `Validation` error carrying exactly `m`.
pub open spec fn rejected_with(r: Result<(), AppError>, m: Seq<char>) -> bool {
    r matches Err(AppError::Validation(x)) && x@ == m
}

fn reject(message: &str) -> (r: Result<(), AppError>)
    ensures
        rejected_with(r, message@),
{
    Err(AppError::Validation(owned(message)))
}

/// At least one of blog, portfolio and services stays enabled.
pub fn validate_feature_settings(settings: &FeatureSettings) -> (r: Result<(), AppError>)
    ensures
        (settings.blog_enabled || settings.portfolio_enabled || settings.services_enabled) ==> r is Ok,
        !(settings.blog_enabled || settings.portfolio_enabled || settings.services_enabled) ==> rejected_with(
            r,
            "At least one main feature (blog, portfolio, or services) must be enabled"@,
        ),
{
    if !settings.blog_enabled && !settings.portfolio_enabled && !settings.services_enabled {
        return reject("At least one main feature (blog, portfolio, or services) must be enabled");
    }
    Ok(())
}

/// Session timeout of 5 to 480 minutes and 3 to 10 login attempts. The
/// addresses of the whitelist are checked by the caller.
pub fn validate_security_bounds(settings: &SecuritySettings) -> (r: Result<(), AppError>)
    ensures
        !(5 <= settings.session_timeout <= 480) ==> rejected_with(
            r,
            "Session timeout must be between 5 and 480 minutes"@,
        ),
        5 <= settings.session_timeout <= 480 && !(3 <= settings.max_login_attempts <= 10) ==> rejected_with(
            r,
            "Max login attempts must be between 3 and 10"@,
        ),
        r is Ok == (5 <= settings.session_timeout <= 480 && 3 <= settings.max_login_attempts <= 10),
{
    if settings.session_timeout < 5 || settings.session_timeout > 480 {
        return reject("Session timeout must be between 5 and 480 minutes");
    }
    if settings.max_login_attempts < 3 || settings.max_login_attempts > 10 {
        return reject("Max login attempts must be between 3 and 10");
    }
    Ok(())
}

/// A site name that is not blank, a description of at most 500 bytes and a
/// maintenance message of at most 1000.
pub fn validate_general_settings(settings: &GeneralSettings) -> (r: Result<(), AppError>)
    ensures
        trimmed(settings.site_name@).len() == 0 ==> rejected_with(r, "Site name cannot be empty"@),
        r is Ok == (trimmed(settings.site_name@).len() > 0 && encode_utf8(settings.site_description@).len() <= 500
            && encode_utf8(settings.maintenance_message@).len() <= 1000),
        r matches Err(e) ==> e is Validation,
{
    let name = trim(settings.site_name.as_str());
    if name.as_str().unicode_len() == 0 {
        return reject("Site name cannot be empty");
    }
    if settings.site_description.as_str().as_bytes().len() > 500 {
        return reject("Site description cannot exceed 500 characters");
    }
    if settings.maintenance_message.as_str().as_bytes().len() > 1000 {
        return reject("Maintenance message cannot exceed 1000 characters");
    }
    Ok(())
}

/// The flag a feature name selects, where the name is known.
pub open spec fn feature_flag(f: FeatureSettings, name: Seq<char>) -> Option<bool> {
    if name == "comments"@ {
        Some(f.comments_enabled)
    } else if name == "portfolio"@ {
        Some(f.portfolio_enabled)
    } else if name == "services"@ {
        Some(f.services_enabled)
    } else if name == "blog"@ {
        Some(f.blog_enabled)
    } else if name == "contactForm"@ {
        Some(f.contact_form_enabled)
    } else if name == "search"@ {
        Some(f.search_enabled)
    } else {
        None
    }
}

impl FeatureSettings {
    /// Whether the named feature is on; an unknown name is an error.
    pub fn is_enabled(&self, feature: &str) -> (r: Result<bool, AppError>)
        ensures
            feature_flag(*self, feature@) matches Some(b) ==> r == Ok::<bool, AppError>(b),
            feature_flag(*self, feature@) is None ==> (r matches Err(AppError::BadRequest(m)) && m@
                == "Unknown feature: "@ + feature@),
    {
        if str_eq(feature, "comments") {
            Ok(self.comments_enabled)
        } else if str_eq(feature, "portfolio") {
            Ok(self.portfolio_enabled)
        } else if str_eq(feature, "services") {
            Ok(self.services_enabled)
        } else if str_eq(feature, "blog") {
            Ok(self.blog_enabled)
        } else if str_eq(feature, "contactForm") {
            Ok(self.contact_form_enabled)
        } else if str_eq(feature, "search") {
            Ok(self.search_enabled)
        } else {
            let mut m = owned("Unknown feature: ");
            m.append(feature);
            Err(AppError::BadRequest(m))
        }
    }
}

/// A feature query against stored settings: with no stored feature
/// settings every feature counts as on.
pub fn feature_enabled(stored: Option<&FeatureSettings>, feature: &str) -> (r: Result<bool, AppError>)
    ensures
        stored is None ==> r == Ok::<bool, AppError>(true),
        stored matches Some(f) ==> (feature_flag(*f, feature@) matches Some(b) ==> r == Ok::<bool, AppError>(b)),
        stored matches Some(f) ==> (feature_flag(*f, feature@) is None ==> r is Err),
{
    match stored {
        None => Ok(true),
        Some(f) => f.is_enabled(feature),
    }
}

} // verus!
