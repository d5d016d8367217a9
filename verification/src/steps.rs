//! The rules of the session in executable form, one function for each point
//! at which an operation goes on after outside work.

use crate::flow::{auth_view, fetched_view, unit_view, Operation, Outcome, Stage};
use crate::model::{AuthConfig, AuthError, AuthResult, UserCredentials, UserProfile};
use crate::record::{loaded_view, token_record};
use crate::rules;
use crate::text::prefixed;
use vstd::prelude::*;
use vstd::string::*;

verus! {

/// Whether a status code is in the success class, 200 to 299.
pub fn is_success(status: u16) -> (success: bool)
    ensures
        success == rules::is_success(status as int),
{
    200 <= status && status < 300
}

/// Whether an operation can be in a stage.
pub fn belongs(operation: Operation, stage: &Stage) -> (fits: bool)
    ensures
        fits == rules::belongs(operation, stage@),
{
    let logs_in = match operation {
        Operation::Login | Operation::LoginUser => true,
        _ => false,
    };
    let validates = match operation {
        Operation::ValidateStoredToken | Operation::ValidateToken => true,
        _ => false,
    };
    let fetches = match operation {
        Operation::GetUserProfile | Operation::RefreshUserProfile => true,
        _ => logs_in || validates,
    };
    match stage {
        Stage::LoginSent { url, credentials } => logs_in,
        Stage::LoginRejected => logs_in,
        Stage::TokenArriving => logs_in,
        Stage::Storing { token, record } => match operation {
            Operation::SaveToken => true,
            _ => logs_in,
        },
        Stage::ProfileSent { token, url, authorization } => fetches,
        Stage::ProfileArriving { token } => fetches,
        Stage::Loading => match operation {
            Operation::LoadToken | Operation::HasStoredToken | Operation::CheckAuthStatus
            | Operation::RefreshUserProfile => true,
            _ => validates,
        },
        Stage::Deleting => match operation {
            Operation::ClearToken | Operation::LogoutUser => true,
            _ => validates,
        },
        Stage::Done(outcome) => match operation {
            Operation::Login | Operation::ValidateStoredToken => match outcome {
                Outcome::Auth(result) => true,
                _ => false,
            },
            Operation::GetUserProfile => match outcome {
                Outcome::Profile(result) => true,
                _ => false,
            },
            Operation::SaveToken | Operation::ClearToken => match outcome {
                Outcome::Unit(result) => true,
                _ => false,
            },
            Operation::LoadToken => match outcome {
                Outcome::Token(result) => true,
                _ => false,
            },
            Operation::HasStoredToken => match outcome {
                Outcome::Present(present) => true,
                _ => false,
            },
            Operation::CheckAuthStatus => match outcome {
                Outcome::Status(result) => true,
                _ => false,
            },
            Operation::LoginUser | Operation::ValidateToken | Operation::LogoutUser
            | Operation::RefreshUserProfile => match outcome {
                Outcome::Command(result) => true,
                _ => false,
            },
        },
    }
}

/// Hands back a result of the session store for `operation`: as it is, or,
/// for the commands `login_user` and `validate_token`, with the error turned
/// into the command's typed error.
pub fn report(operation: Operation, result: Result<AuthResult, String>) -> (outcome: Outcome)
    ensures
        outcome@ == rules::reported(operation, auth_view(result)),
{
    match operation {
        Operation::LoginUser => Outcome::Command(
            match result {
                Ok(value) => Ok(value),
                Err(detail) => Err(
                    AuthError::new(
                        "LOGIN_FAILED",
                        detail.as_str(),
                        "Login failed. Please check your credentials and try again.",
                    ),
                ),
            },
        ),
        Operation::ValidateToken => Outcome::Command(
            match result {
                Ok(value) => Ok(value),
                Err(detail) => Err(
                    AuthError::new(
                        "TOKEN_VALIDATION_FAILED",
                        detail.as_str(),
                        "Session expired. Please log in again.",
                    ),
                ),
            },
        ),
        _ => Outcome::Auth(result),
    }
}

/// The stage in which the login request is on its way.
pub fn login_request(config: &AuthConfig, email: &str, password: &str) -> (stage: Stage)
    ensures
        stage@ == rules::login_request(config@, email@, password@),
{
    Stage::LoginSent {
        url: prefixed(config.api_base_url.as_str(), "/auth/login"),
        credentials: UserCredentials {
            email: String::from_str(email),
            password: String::from_str(password),
        },
    }
}

/// The stage in which the profile request for `token` is on its way.
pub fn profile_request(config: &AuthConfig, token: String) -> (stage: Stage)
    ensures
        stage@ == rules::profile_request(config@, token@),
{
    let url = prefixed(config.api_base_url.as_str(), "/user/profile");
    let authorization = prefixed("Bearer ", token.as_str());
    Stage::ProfileSent { token, url, authorization }
}

/// The stage in which the record of `token`, captured at `now`, is being
/// written.
pub fn store_request(token: String, now: &str) -> (stage: Stage)
    ensures
        stage@ == rules::store_request(token@, now@),
{
    let record = token_record(token.as_str(), now);
    Stage::Storing { token, record }
}

/// The stage after a profile fetch for `token` has ended with `fetched`.
pub fn after_profile(operation: Operation, token: String, fetched: Result<UserProfile, String>) -> (stage:
    Stage)
    ensures
        stage@ == rules::after_profile(operation, token@, fetched_view(fetched)),
{
    match operation {
        Operation::GetUserProfile => Stage::Done(Outcome::Profile(fetched)),
        Operation::Login | Operation::LoginUser => Stage::Done(
            report(
                operation,
                match fetched {
                    Ok(profile) => Ok(AuthResult::signed_in("Login successful", token, profile)),
                    Err(detail) => Err(detail),
                },
            ),
        ),
        Operation::ValidateStoredToken | Operation::ValidateToken => match fetched {
            Ok(profile) => Stage::Done(
                report(operation, Ok(AuthResult::signed_in("Token valid", token, profile))),
            ),
            Err(detail) => Stage::Deleting,
        },
        _ => Stage::Done(
            Outcome::Command(
                match fetched {
                    Ok(profile) => Ok(AuthResult::signed_in("Profile refreshed", token, profile)),
                    Err(detail) => Err(
                        AuthError::new(
                            "PROFILE_REFRESH_FAILED",
                            detail.as_str(),
                            "Failed to refresh profile. Please try logging in again.",
                        ),
                    ),
                },
            ),
        ),
    }
}

/// The stage after the record has been read with `loaded`, for the
/// operations that want the token in it.
pub fn after_load(
    config: &AuthConfig,
    operation: Operation,
    loaded: Result<Option<String>, String>,
) -> (stage: Stage)
    ensures
        stage@ == rules::after_load(config@, operation, loaded_view(loaded)),
{
    match operation {
        Operation::LoadToken => Stage::Done(Outcome::Token(loaded)),
        Operation::ValidateStoredToken | Operation::ValidateToken => match loaded {
            Ok(Some(token)) => profile_request(config, token),
            Ok(None) => Stage::Done(
                report(
                    operation,
                    Ok(AuthResult::bare(false, String::from_str("No stored token found"))),
                ),
            ),
            Err(detail) => Stage::Done(report(operation, Err(detail))),
        },
        _ => match loaded {
            Ok(Some(token)) => profile_request(config, token),
            Ok(None) => Stage::Done(
                Outcome::Command(
                    Err(
                        AuthError::new(
                            "NO_TOKEN",
                            "No authentication token found",
                            "Please log in to continue.",
                        ),
                    ),
                ),
            ),
            Err(detail) => Stage::Done(
                Outcome::Command(
                    Err(
                        AuthError::new(
                            "TOKEN_LOAD_FAILED",
                            detail.as_str(),
                            "Authentication error. Please try logging in again.",
                        ),
                    ),
                ),
            ),
        },
    }
}

/// The stage after the record has been looked for, for the operations that
/// only ask whether it is there.
pub fn after_presence(operation: Operation, present: bool) -> (stage: Stage)
    ensures
        stage@ == rules::after_presence(operation, present),
{
    match operation {
        Operation::HasStoredToken => Stage::Done(Outcome::Present(present)),
        _ => Stage::Done(Outcome::Status(Ok(present))),
    }
}

/// The stage after the record of `token` has been written, or not.
pub fn after_store(
    config: &AuthConfig,
    operation: Operation,
    token: String,
    stored: Result<(), String>,
) -> (stage: Stage)
    ensures
        stage@ == rules::after_store(config@, operation, token@, unit_view(stored)),
{
    match operation {
        Operation::SaveToken => Stage::Done(Outcome::Unit(stored)),
        _ => match stored {
            Ok(_) => profile_request(config, token),
            Err(detail) => Stage::Done(report(operation, Err(detail))),
        },
    }
}

/// The stage after the record has been deleted, or not.
pub fn after_delete(operation: Operation, deleted: Result<(), String>) -> (stage: Stage)
    ensures
        stage@ == rules::after_delete(operation, unit_view(deleted)),
{
    match operation {
        Operation::ClearToken => Stage::Done(Outcome::Unit(deleted)),
        Operation::ValidateStoredToken | Operation::ValidateToken => match deleted {
            Ok(_) => Stage::Done(
                report(
                    operation,
                    Ok(AuthResult::bare(false, String::from_str("Token expired or invalid"))),
                ),
            ),
            Err(detail) => Stage::Done(report(operation, Err(detail))),
        },
        _ => match deleted {
            Ok(_) => Stage::Done(
                Outcome::Command(
                    Ok(AuthResult::bare(true, String::from_str("Logout successful"))),
                ),
            ),
            Err(detail) => Stage::Done(
                Outcome::Command(
                    Err(
                        AuthError::new(
                            "LOGOUT_FAILED",
                            detail.as_str(),
                            "Failed to logout. Please try again.",
                        ),
                    ),
                ),
            ),
        },
    }
}

} // verus!
