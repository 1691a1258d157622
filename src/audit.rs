//! The kinds of action and resource that audit events name.
use vstd::prelude::*;
use crate::text::owned;

verus! {

#[derive(Debug, Clone, Copy, PartialEq, Eq, Structural)]
pub enum AuditAction {
    Login,
    Logout,
    LoginFailed,
    PostCreated,
    PostUpdated,
    PostDeleted,
    PostPublished,
    PostUnpublished,
    PortfolioCreated,
    PortfolioUpdated,
    PortfolioDeleted,
    PortfolioFeatured,
    PortfolioUnfeatured,
    ServiceCreated,
    ServiceUpdated,
    ServiceDeleted,
    ServiceActivated,
    ServiceDeactivated,
    CommentApproved,
    CommentRejected,
    CommentDeleted,
    SettingsUpdated,
    ProfileUpdated,
}

/// The name an audit record stores for an action.
pub open spec fn action_name(a: AuditAction) -> Seq<char> {
    match a {
        AuditAction::Login => "login"@,
        AuditAction::Logout => "logout"@,
        AuditAction::LoginFailed => "login_failed"@,
        AuditAction::PostCreated => "post_created"@,
        AuditAction::PostUpdated => "post_updated"@,
        AuditAction::PostDeleted => "post_deleted"@,
        AuditAction::PostPublished => "post_published"@,
        AuditAction::PostUnpublished => "post_unpublished"@,
        AuditAction::PortfolioCreated => "portfolio_created"@,
        AuditAction::PortfolioUpdated => "portfolio_updated"@,
        AuditAction::PortfolioDeleted => "portfolio_deleted"@,
        AuditAction::PortfolioFeatured => "portfolio_featured"@,
        AuditAction::PortfolioUnfeatured => "portfolio_unfeatured"@,
        AuditAction::ServiceCreated => "service_created"@,
        AuditAction::ServiceUpdated => "service_updated"@,
        AuditAction::ServiceDeleted => "service_deleted"@,
        AuditAction::ServiceActivated => "service_activated"@,
        AuditAction::ServiceDeactivated => "service_deactivated"@,
        AuditAction::CommentApproved => "comment_approved"@,
        AuditAction::CommentRejected => "comment_rejected"@,
        AuditAction::CommentDeleted => "comment_deleted"@,
        AuditAction::SettingsUpdated => "settings_updated"@,
        AuditAction::ProfileUpdated => "profile_updated"@,
    }
}

impl AuditAction {
    pub fn to_string(&self) -> (r: String)
        ensures
            r@ == action_name(*self),
    {
        match self {
            AuditAction::Login => owned("login"),
            AuditAction::Logout => owned("logout"),
            AuditAction::LoginFailed => owned("login_failed"),
            AuditAction::PostCreated => owned("post_created"),
            AuditAction::PostUpdated => owned("post_updated"),
            AuditAction::PostDeleted => owned("post_deleted"),
            AuditAction::PostPublished => owned("post_published"),
            AuditAction::PostUnpublished => owned("post_unpublished"),
            AuditAction::PortfolioCreated => owned("portfolio_created"),
            AuditAction::PortfolioUpdated => owned("portfolio_updated"),
            AuditAction::PortfolioDeleted => owned("portfolio_deleted"),
            AuditAction::PortfolioFeatured => owned("portfolio_featured"),
            AuditAction::PortfolioUnfeatured => owned("portfolio_unfeatured"),
            AuditAction::ServiceCreated => owned("service_created"),
            AuditAction::ServiceUpdated => owned("service_updated"),
            AuditAction::ServiceDeleted => owned("service_deleted"),
            AuditAction::ServiceActivated => owned("service_activated"),
            AuditAction::ServiceDeactivated => owned("service_deactivated"),
            AuditAction::CommentApproved => owned("comment_approved"),
            AuditAction::CommentRejected => owned("comment_rejected"),
            AuditAction::CommentDeleted => owned("comment_deleted"),
            AuditAction::SettingsUpdated => owned("settings_updated"),
            AuditAction::ProfileUpdated => owned("profile_updated"),
        }
    }
}

#[derive(Debug, Clone, Copy, PartialEq, Eq, Structural)]
pub enum ResourceType {
    Authentication,
    Post,
    Portfolio,
    Service,
    Comment,
    Settings,
    Profile,
}

/// The name an audit record stores for a resource type.
pub open spec fn resource_name(r: ResourceType) -> Seq<char> {
    match r {
        ResourceType::Authentication => "authentication"@,
        ResourceType::Post => "post"@,
        ResourceType::Portfolio => "portfolio"@,
        ResourceType::Service => "service"@,
        ResourceType::Comment => "comment"@,
        ResourceType::Settings => "settings"@,
        ResourceType::Profile => "profile"@,
    }
}

impl ResourceType {
    pub fn to_string(&self) -> (r: String)
        ensures
            r@ == resource_name(*self),
    {
        match self {
            ResourceType::Authentication => owned("authentication"),
            ResourceType::Post => owned("post"),
            ResourceType::Portfolio => owned("portfolio"),
            ResourceType::Service => owned("service"),
            ResourceType::Comment => owned("comment"),
            ResourceType::Settings => owned("settings"),
            ResourceType::Profile => owned("profile"),
        }
    }
}

} // verus!
