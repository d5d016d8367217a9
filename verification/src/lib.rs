//! Session-token lifecycle of a desktop client: acquire a bearer token by
//! login, persist it, validate it against the server, refresh the profile and
//! clear it again.
//!
//! The library decides; it performs no I/O. Every operation is a [`Flow`]
//! that names the next piece of outside work as an [`Effect`] and takes the
//! result back as an [`Event`]. [`AuthManager`] begins the operations and
//! carries them on; the functions of [`commands`] do the same for the five
//! commands of the shell.

pub mod commands;
pub mod flow;
pub mod json;
pub mod manager;
pub mod model;
pub mod record;
pub mod rules;
pub mod session;
pub mod steps;
pub mod text;

pub use crate::commands::{
    check_auth_status, login_user, logout_user, refresh_user_profile, validate_token,
};
pub use crate::flow::{Effect, Event, Flow, Operation, Outcome, Stage};
pub use crate::manager::{AuthManager, TokenFilePath};
pub use crate::model::{
    AuthConfig, AuthError, AuthResult, JwtClaims, SubscriptionInfo, TokenResponse,
    UserCredentials, UserProfile,
};
