//! The five commands that the shell exposes. Each begins an operation of the
//! session store whose failures come back as typed errors.

use crate::flow::{Flow, Operation, Stage};
use crate::manager::AuthManager;
use crate::model::UserCredentials;
use crate::rules;
use vstd::prelude::*;

verus! {

/// Begins the login command. A transport, parse or persistence failure ends
/// it with the error `LOGIN_FAILED`; a login that the server refuses ends it
/// with an unsuccessful result.
pub fn login_user(manager: &AuthManager, credentials: UserCredentials) -> (flow: Flow)
    ensures
        flow@ == rules::login_flow(
            manager@,
            Operation::LoginUser,
            credentials.email@,
            credentials.password@,
        ),
{
    manager.begin_login(
        Operation::LoginUser,
        credentials.email.as_str(),
        credentials.password.as_str(),
    )
}

/// Begins the validation command. A failure to read or delete the record
/// ends it with the error `TOKEN_VALIDATION_FAILED`.
pub fn validate_token(manager: &AuthManager) -> (flow: Flow)
    ensures
        flow@ == rules::load_flow(Operation::ValidateToken),
{
    Flow { operation: Operation::ValidateToken, stage: Stage::Loading }
}

/// Begins the logout command: the record is deleted. A failure ends it with
/// the error `LOGOUT_FAILED`.
pub fn logout_user(manager: &AuthManager) -> (flow: Flow)
    ensures
        flow@ == rules::delete_flow(Operation::LogoutUser),
{
    Flow { operation: Operation::LogoutUser, stage: Stage::Deleting }
}

/// Begins the status command: whether a record is there.
pub fn check_auth_status(manager: &AuthManager) -> (flow: Flow)
    ensures
        flow@ == rules::load_flow(Operation::CheckAuthStatus),
{
    Flow { operation: Operation::CheckAuthStatus, stage: Stage::Loading }
}

/// Begins the refresh command: the record is read and the profile fetched
/// with its token. The errors are `NO_TOKEN` where no token is stored,
/// `TOKEN_LOAD_FAILED` where the record cannot be read and
/// `PROFILE_REFRESH_FAILED` where the fetch fails; the record stays.
pub fn refresh_user_profile(manager: &AuthManager) -> (flow: Flow)
    ensures
        flow@ == rules::load_flow(Operation::RefreshUserProfile),
{
    Flow { operation: Operation::RefreshUserProfile, stage: Stage::Loading }
}

} // verus!
