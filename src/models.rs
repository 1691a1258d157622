//! Request, query, statistics and settings records of the content endpoints.
use vstd::prelude::*;
use vstd::string::*;
use crate::errors::AppError;
use crate::text::owned;

verus! {

/// `s` has between `min` and `max` characters.
pub open spec fn length_within(s: Seq<char>, min: nat, max: nat) -> bool {
    min <= s.len() && s.len() <= max
}

fn invalid(message: &str) -> (r: Result<(), AppError>)
    ensures
        r matches Err(AppError::Validation(m)) && m@ == message@,
{
    Err(AppError::Validation(owned(message)))
}

#[derive(Debug)]
pub struct LoginRequest {
    pub username: String,
    pub password: String,
}

impl LoginRequest {
    /// A username of 3 to 50 characters and a password of at least 8.
    pub fn validate(&self) -> (r: Result<(), AppError>)
        ensures
            r is Ok == (length_within(self.username@, 3, 50) && self.password@.len() >= 8),
            r matches Err(e) ==> e is Validation,
    {
        let n = self.username.as_str().unicode_len();
        if n < 3 || n > 50 {
            return invalid("Username must be between 3 and 50 characters");
        }
        if self.password.as_str().unicode_len() < 8 {
            return invalid("Password must be at least 8 characters");
        }
        Ok(())
    }
}

#[derive(Debug)]
pub struct ChangePasswordRequest {
    pub current_password: String,
    pub new_password: String,
}

impl ChangePasswordRequest {
    /// Both passwords have at least 8 characters.
    pub fn validate(&self) -> (r: Result<(), AppError>)
        ensures
            r is Ok == (self.current_password@.len() >= 8 && self.new_password@.len() >= 8),
            r matches Err(e) ==> e is Validation,
    {
        if self.current_password.as_str().unicode_len() < 8 {
            return invalid("Current password must be at least 8 characters");
        }
        if self.new_password.as_str().unicode_len() < 8 {
            return invalid("New password must be at least 8 characters");
        }
        Ok(())
    }
}

#[derive(Debug)]
pub struct UpdateProfileRequest {
    pub full_name: String,
    pub username: String,
    pub email: String,
    pub phone: Option<String>,
}

#[derive(Debug)]
pub struct CreateUserRequest {
    pub username: String,
    pub email: String,
    pub password: String,
    pub full_name: String,
    pub phone: Option<String>,
}

/// An administrator's request to block an IP.
#[derive(Debug)]
pub struct BlockIpRequest {
    pub ip: String,
    pub reason: String,
    pub permanent: Option<bool>,
}

impl BlockIpRequest {
    /// An IP of 7 to 45 characters and a reason of 1 to 255.
    pub fn validate(&self) -> (r: Result<(), AppError>)
        ensures
            r is Ok == (length_within(self.ip@, 7, 45) && length_within(self.reason@, 1, 255)),
            r matches Err(e) ==> e is Validation,
    {
        let n = self.ip.as_str().unicode_len();
        if n < 7 || n > 45 {
            return invalid("Invalid IP address format");
        }
        let m = self.reason.as_str().unicode_len();
        if m < 1 || m > 255 {
            return invalid("Reason is required");
        }
        Ok(())
    }

    /// Whether the block is meant to last for good; absent means temporary.
    pub fn is_permanent(&self) -> (r: bool)
        ensures
            r == (self.permanent == Some(true)),
    {
        match self.permanent {
            Some(p) => p,
            None => false,
        }
    }
}

#[derive(Debug)]
pub struct SecurityQuery {
    pub page: Option<u32>,
    pub limit: Option<u32>,
    pub status: Option<String>,
}

#[derive(Debug)]
pub struct NotificationQuery {
    pub limit: Option<i64>,
    pub offset: Option<i64>,
    pub unread_only: Option<bool>,
}

#[derive(Debug)]
pub struct UpdateNotificationPreferenceRequest {
    pub notification_type: String,
    pub enabled: bool,
    pub delivery_method: Option<String>,
}

#[derive(Debug)]
pub struct CreatePostRequest {
    pub title: String,
    pub slug: String,
    pub content: String,
    pub excerpt: Option<String>,
    pub category: String,
    pub tags: Vec<String>,
    pub featured_image: Option<String>,
    pub featured: Option<bool>,
    pub published: Option<bool>,
    pub seo_title: Option<String>,
    pub seo_description: Option<String>,
    pub seo_keywords: Option<String>,
}

#[derive(Debug)]
pub struct UpdatePostRequest {
    pub title: String,
    pub slug: String,
    pub content: String,
    pub excerpt: Option<String>,
    pub category: String,
    pub tags: Vec<String>,
    pub featured_image: Option<String>,
    pub featured: Option<bool>,
    pub published: Option<bool>,
    pub seo_title: Option<String>,
    pub seo_description: Option<String>,
    pub seo_keywords: Option<String>,
}

#[derive(Debug, Clone, Copy)]
pub struct PostStats {
    pub total_posts: i64,
    pub published_posts: i64,
    pub draft_posts: i64,
    pub featured_posts: i64,
    pub posts_this_month: i64,
    pub total_views: i64,
}

#[derive(Debug)]
pub struct CreateServiceRequest {
    pub title: String,
    pub description: String,
    pub features: Vec<String>,
    pub category: String,
    pub active: Option<bool>,
}

#[derive(Debug)]
pub struct UpdateServiceRequest {
    pub title: String,
    pub description: String,
    pub features: Vec<String>,
    pub category: String,
    pub active: Option<bool>,
}

#[derive(Debug)]
pub struct ServiceQuery {
    pub page: Option<u32>,
    pub limit: Option<u32>,
    pub category: Option<String>,
    pub active: Option<bool>,
}

#[derive(Debug)]
pub struct CategoryCount {
    pub category: String,
    pub count: i64,
}

#[derive(Debug)]
pub struct ServiceStats {
    pub total_services: i64,
    pub active_services: i64,
    pub inactive_services: i64,
    pub services_by_category: Vec<CategoryCount>,
}

#[derive(Debug)]
pub struct UpdateCommentStatusRequest {
    pub status: String,
}

#[derive(Debug, Clone, Copy)]
pub struct CommentStats {
    pub total_comments: i64,
    pub pending_comments: i64,
    pub approved_comments: i64,
    pub rejected_comments: i64,
    pub comments_this_month: i64,
}

#[derive(Debug)]
pub struct PortfolioProjectQuery {
    pub page: Option<u32>,
    pub limit: Option<u32>,
    pub category: Option<String>,
    pub status: Option<String>,
    pub featured: Option<bool>,
    pub active: Option<bool>,
    pub technologies: Option<Vec<String>>,
}

#[derive(Debug, Clone, Copy)]
pub struct PortfolioStats {
    pub total_projects: i64,
    pub completed_projects: i64,
    pub in_progress_projects: i64,
    pub featured_projects: i64,
    pub projects_this_year: i64,
}

} // verus!
