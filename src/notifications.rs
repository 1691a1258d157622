//! The notification kinds and delivery methods a user may subscribe to.
use vstd::prelude::*;
use vstd::string::*;
use crate::errors::AppError;
use crate::text::{owned, str_eq};

verus! {

pub open spec fn notification_type_known(t: Seq<char>) -> bool {
    t == "login"@ || t == "logout"@ || t == "post_created"@ || t == "post_updated"@ || t == "post_published"@
        || t == "portfolio_created"@ || t == "portfolio_updated"@ || t == "service_created"@ || t
        == "service_updated"@ || t == "comment_approved"@ || t == "comment_rejected"@ || t
        == "settings_updated"@ || t == "profile_updated"@ || t == "error"@ || t == "warning"@ || t
        == "system_alert"@
}

pub open spec fn type_list() -> Seq<char> {
    "login, logout, post_created, post_updated, post_published, portfolio_created, portfolio_updated, service_created, service_updated, comment_approved, comment_rejected, settings_updated, profile_updated, error, warning, system_alert"@
}

pub fn validate_notification_type(notification_type: &str) -> (r: Result<(), AppError>)
    ensures
        notification_type_known(notification_type@) ==> r is Ok,
        !notification_type_known(notification_type@) ==> (r matches Err(AppError::Validation(m)) && m@
            == "Invalid notification type: "@ + notification_type@ + ". Valid types are: "@ + type_list()),
{
    let t = notification_type;
    if str_eq(t, "login") || str_eq(t, "logout") || str_eq(t, "post_created") || str_eq(t, "post_updated")
        || str_eq(t, "post_published") || str_eq(t, "portfolio_created") || str_eq(t, "portfolio_updated")
        || str_eq(t, "service_created") || str_eq(t, "service_updated") || str_eq(t, "comment_approved")
        || str_eq(t, "comment_rejected") || str_eq(t, "settings_updated") || str_eq(t, "profile_updated")
        || str_eq(t, "error") || str_eq(t, "warning") || str_eq(t, "system_alert") {
        return Ok(());
    }
    let mut m = owned("Invalid notification type: ");
    m.append(t);
    m.append(". Valid types are: ");
    m.append(
        "login, logout, post_created, post_updated, post_published, portfolio_created, portfolio_updated, service_created, service_updated, comment_approved, comment_rejected, settings_updated, profile_updated, error, warning, system_alert",
    );
    Err(AppError::Validation(m))
}

pub open spec fn delivery_method_known(d: Seq<char>) -> bool {
    d == "in_app"@ || d == "email"@ || d == "both"@
}

pub fn validate_delivery_method(delivery_method: &str) -> (r: Result<(), AppError>)
    ensures
        delivery_method_known(delivery_method@) ==> r is Ok,
        !delivery_method_known(delivery_method@) ==> (r matches Err(AppError::Validation(m)) && m@
            == "Invalid delivery method: "@ + delivery_method@ + ". Valid methods are: in_app, email, both"@),
{
    let d = delivery_method;
    if str_eq(d, "in_app") || str_eq(d, "email") || str_eq(d, "both") {
        return Ok(());
    }
    let mut m = owned("Invalid delivery method: ");
    m.append(d);
    m.append(". Valid methods are: in_app, email, both");
    Err(AppError::Validation(m))
}

} // verus!
