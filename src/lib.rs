//! Authentication security core of a content-management backend: session
//! claims, a sliding-window login limiter with IP blocking, the login
//! decision sequence, and the input checks and content rules the endpoints
//! share.
//!
//! Time is always passed in (seconds since the Unix epoch), so every
//! decision is a function of its arguments. The counter store kept here is
//! the model the limiter's contracts speak of; a networked store runs the
//! same decision functions.
pub mod accounts;
pub mod admin;
pub mod audit;
pub mod chars;
pub mod config;
pub mod content;
pub mod errors;
pub mod laws;
pub mod limiter;
pub mod login;
pub mod models;
pub mod notifications;
pub mod password;
pub mod request;
pub mod security;
pub mod settings;
pub mod store;
pub mod text;
pub mod token;
pub mod validation;
