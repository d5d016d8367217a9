//! The rules of the session: which stage follows which event.
//!
//! Everything here is specification. Transport, parse and persistence
//! failures end an operation with an error; a login that the server refuses
//! ends it with an unsuccessful result.

use crate::flow::{EventView, FlowView, Operation, OutcomeView, StageView};
use crate::model::{
    bare_result, signed_in, AuthConfigView, AuthErrorView, AuthResultView, UserCredentialsView,
    UserProfileView,
};
use crate::record::{record_text, token_of_record};
use vstd::prelude::*;

verus! {

/// Whether a status code is in the success class, 200 to 299.
pub open spec fn is_success(status: int) -> bool {
    200 <= status < 300
}

/// The address of the login endpoint.
pub open spec fn login_url(config: AuthConfigView) -> Seq<char> {
    config.api_base_url + "/auth/login"@
}

/// The address of the profile endpoint.
pub open spec fn profile_url(config: AuthConfigView) -> Seq<char> {
    config.api_base_url + "/user/profile"@
}

/// The value of the `Authorization` header for a token.
pub open spec fn bearer(token: Seq<char>) -> Seq<char> {
    "Bearer "@ + token
}

/// The stage in which the profile request for `token` is on its way.
pub open spec fn profile_request(config: AuthConfigView, token: Seq<char>) -> StageView {
    StageView::ProfileSent { token, url: profile_url(config), authorization: bearer(token) }
}

/// The stage in which the login request is on its way.
pub open spec fn login_request(
    config: AuthConfigView,
    email: Seq<char>,
    password: Seq<char>,
) -> StageView {
    StageView::LoginSent {
        url: login_url(config),
        credentials: UserCredentialsView { email, password },
    }
}

/// The stage in which the record of `token`, captured at `now`, is being
/// written.
pub open spec fn store_request(token: Seq<char>, now: Seq<char>) -> StageView {
    StageView::Storing { token, record: record_text(token, now) }
}

/// Operations that begin with a login request.
pub open spec fn logs_in(operation: Operation) -> bool {
    operation is Login || operation is LoginUser
}

/// Operations that validate the stored token.
pub open spec fn validates(operation: Operation) -> bool {
    operation is ValidateStoredToken || operation is ValidateToken
}

/// Operations that only ask whether a record is there.
pub open spec fn asks_presence(operation: Operation) -> bool {
    operation is HasStoredToken || operation is CheckAuthStatus
}

/// Operations that may fetch the profile.
pub open spec fn fetches_profile(operation: Operation) -> bool {
    operation is GetUserProfile || logs_in(operation) || validates(operation)
        || operation is RefreshUserProfile
}

/// Operations that may write the record.
pub open spec fn stores(operation: Operation) -> bool {
    operation is SaveToken || logs_in(operation)
}

/// Operations that begin by reading the record.
pub open spec fn loads(operation: Operation) -> bool {
    operation is LoadToken || asks_presence(operation) || validates(operation)
        || operation is RefreshUserProfile
}

/// Operations that may delete the record.
pub open spec fn deletes(operation: Operation) -> bool {
    operation is ClearToken || validates(operation) || operation is LogoutUser
}

/// Whether an outcome is of the kind that the operation hands back.
pub open spec fn yields(operation: Operation, outcome: OutcomeView) -> bool {
    match operation {
        Operation::Login | Operation::ValidateStoredToken => outcome is Auth,
        Operation::GetUserProfile => outcome is Profile,
        Operation::SaveToken | Operation::ClearToken => outcome is Unit,
        Operation::LoadToken => outcome is Token,
        Operation::HasStoredToken => outcome is Present,
        Operation::CheckAuthStatus => outcome is Status,
        Operation::LoginUser | Operation::ValidateToken | Operation::LogoutUser
        | Operation::RefreshUserProfile => outcome is Command,
    }
}

/// Whether an operation can be in a stage.
pub open spec fn belongs(operation: Operation, stage: StageView) -> bool {
    match stage {
        StageView::LoginSent { url, credentials } => logs_in(operation),
        StageView::LoginRejected => logs_in(operation),
        StageView::TokenArriving => logs_in(operation),
        StageView::Storing { token, record } => stores(operation),
        StageView::ProfileSent { token, url, authorization } => fetches_profile(operation),
        StageView::ProfileArriving { token } => fetches_profile(operation),
        StageView::Loading => loads(operation),
        StageView::Deleting => deletes(operation),
        StageView::Done(outcome) => yields(operation, outcome),
    }
}

/// A flow is well formed when its operation can be in its stage.
pub open spec fn well_formed(flow: FlowView) -> bool {
    belongs(flow.operation, flow.stage)
}

/// The error of a command.
pub open spec fn command_error(
    error_type: Seq<char>,
    message: Seq<char>,
    user_message: Seq<char>,
) -> AuthErrorView {
    AuthErrorView { error_type, message, user_message }
}

/// How an operation hands back a result of the session store: as it is, or,
/// for the commands `login_user` and `validate_token`, with the error turned
/// into the command's typed error.
pub open spec fn reported(
    operation: Operation,
    result: Result<AuthResultView, Seq<char>>,
) -> OutcomeView {
    match operation {
        Operation::LoginUser => OutcomeView::Command(
            match result {
                Ok(value) => Ok(value),
                Err(detail) => Err(
                    command_error(
                        "LOGIN_FAILED"@,
                        detail,
                        "Login failed. Please check your credentials and try again."@,
                    ),
                ),
            },
        ),
        Operation::ValidateToken => OutcomeView::Command(
            match result {
                Ok(value) => Ok(value),
                Err(detail) => Err(
                    command_error(
                        "TOKEN_VALIDATION_FAILED"@,
                        detail,
                        "Session expired. Please log in again."@,
                    ),
                ),
            },
        ),
        _ => OutcomeView::Auth(result),
    }
}

/// The stage after a profile fetch for `token` has ended.
///
/// A login and a refresh end with the profile or the error. A validation
/// ends with the profile, and on any error goes on to delete the record.
pub open spec fn after_profile(
    operation: Operation,
    token: Seq<char>,
    fetched: Result<UserProfileView, Seq<char>>,
) -> StageView
    recommends
        fetches_profile(operation),
{
    if operation is GetUserProfile {
        StageView::Done(OutcomeView::Profile(fetched))
    } else if logs_in(operation) {
        StageView::Done(
            reported(
                operation,
                match fetched {
                    Ok(profile) => Ok(signed_in("Login successful"@, token, profile)),
                    Err(detail) => Err(detail),
                },
            ),
        )
    } else if validates(operation) {
        match fetched {
            Ok(profile) => StageView::Done(
                reported(operation, Ok(signed_in("Token valid"@, token, profile))),
            ),
            Err(detail) => StageView::Deleting,
        }
    } else {
        StageView::Done(
            OutcomeView::Command(
                match fetched {
                    Ok(profile) => Ok(signed_in("Profile refreshed"@, token, profile)),
                    Err(detail) => Err(
                        command_error(
                            "PROFILE_REFRESH_FAILED"@,
                            detail,
                            "Failed to refresh profile. Please try logging in again."@,
                        ),
                    ),
                },
            ),
        )
    }
}

/// The stage after the record has been read, for the operations that want
/// the token in it.
pub open spec fn after_load(
    config: AuthConfigView,
    operation: Operation,
    loaded: Result<Option<Seq<char>>, Seq<char>>,
) -> StageView
    recommends
        loads(operation),
        !asks_presence(operation),
{
    if operation is LoadToken {
        StageView::Done(OutcomeView::Token(loaded))
    } else if validates(operation) {
        match loaded {
            Ok(Some(token)) => profile_request(config, token),
            Ok(None) => StageView::Done(
                reported(operation, Ok(bare_result(false, "No stored token found"@))),
            ),
            Err(detail) => StageView::Done(reported(operation, Err(detail))),
        }
    } else {
        match loaded {
            Ok(Some(token)) => profile_request(config, token),
            Ok(None) => StageView::Done(
                OutcomeView::Command(
                    Err(
                        command_error(
                            "NO_TOKEN"@,
                            "No authentication token found"@,
                            "Please log in to continue."@,
                        ),
                    ),
                ),
            ),
            Err(detail) => StageView::Done(
                OutcomeView::Command(
                    Err(
                        command_error(
                            "TOKEN_LOAD_FAILED"@,
                            detail,
                            "Authentication error. Please try logging in again."@,
                        ),
                    ),
                ),
            ),
        }
    }
}

/// The stage after the record has been looked for, for the operations that
/// only ask whether it is there.
pub open spec fn after_presence(operation: Operation, present: bool) -> StageView
    recommends
        asks_presence(operation),
{
    if operation is HasStoredToken {
        StageView::Done(OutcomeView::Present(present))
    } else {
        StageView::Done(OutcomeView::Status(Ok(present)))
    }
}

/// The stage after the record of `token` has been written, or not.
pub open spec fn after_store(
    config: AuthConfigView,
    operation: Operation,
    token: Seq<char>,
    stored: Result<(), Seq<char>>,
) -> StageView
    recommends
        stores(operation),
{
    if operation is SaveToken {
        StageView::Done(OutcomeView::Unit(stored))
    } else {
        match stored {
            Ok(_) => profile_request(config, token),
            Err(detail) => StageView::Done(reported(operation, Err(detail))),
        }
    }
}

/// The stage after the record has been deleted, or not.
pub open spec fn after_delete(operation: Operation, deleted: Result<(), Seq<char>>) -> StageView
    recommends
        deletes(operation),
{
    if operation is ClearToken {
        StageView::Done(OutcomeView::Unit(deleted))
    } else if validates(operation) {
        match deleted {
            Ok(_) => StageView::Done(
                reported(operation, Ok(bare_result(false, "Token expired or invalid"@))),
            ),
            Err(detail) => StageView::Done(reported(operation, Err(detail))),
        }
    } else {
        match deleted {
            Ok(_) => StageView::Done(
                OutcomeView::Command(Ok(bare_result(true, "Logout successful"@))),
            ),
            Err(detail) => StageView::Done(
                OutcomeView::Command(
                    Err(
                        command_error(
                            "LOGOUT_FAILED"@,
                            detail,
                            "Failed to logout. Please try again."@,
                        ),
                    ),
                ),
            ),
        }
    }
}

/// A login under way for `operation`: the request is out.
pub open spec fn login_flow(
    config: AuthConfigView,
    operation: Operation,
    email: Seq<char>,
    password: Seq<char>,
) -> FlowView {
    FlowView { operation, stage: login_request(config, email, password) }
}

/// A profile fetch under way for `operation`: the request is out.
pub open spec fn profile_flow(
    config: AuthConfigView,
    operation: Operation,
    token: Seq<char>,
) -> FlowView {
    FlowView { operation, stage: profile_request(config, token) }
}

/// A save of `token` under way, captured at `now`.
pub open spec fn save_flow(token: Seq<char>, now: Seq<char>) -> FlowView {
    FlowView { operation: Operation::SaveToken, stage: store_request(token, now) }
}

/// An operation that begins by reading the record.
pub open spec fn load_flow(operation: Operation) -> FlowView {
    FlowView { operation, stage: StageView::Loading }
}

/// An operation that begins by deleting the record.
pub open spec fn delete_flow(operation: Operation) -> FlowView {
    FlowView { operation, stage: StageView::Deleting }
}

/// The text of a refused login: the server's, or `Unknown error` where it
/// could not be read.
pub open spec fn rejection_text(text: Option<Seq<char>>) -> Seq<char> {
    match text {
        Some(text) => text,
        None => "Unknown error"@,
    }
}

/// The stage that follows `stage` on `event`, for an operation that can be in
/// `stage`; none where the event is no answer to what the stage waits for.
/// `now` is the time at which a token that arrives is captured.
pub open spec fn next_stage(
    config: AuthConfigView,
    operation: Operation,
    stage: StageView,
    event: EventView,
    now: Seq<char>,
) -> Option<StageView>
    recommends
        belongs(operation, stage),
{
    match stage {
        StageView::LoginSent { url, credentials } => match event {
            EventView::Unreachable(detail) => Some(
                StageView::Done(reported(operation, Err("Network error: "@ + detail))),
            ),
            EventView::Status(code) => Some(
                if is_success(code) {
                    StageView::TokenArriving
                } else {
                    StageView::LoginRejected
                },
            ),
            _ => None,
        },
        StageView::LoginRejected => match event {
            EventView::ErrorText(text) => Some(
                StageView::Done(
                    reported(
                        operation,
                        Ok(bare_result(false, "Login failed: "@ + rejection_text(text))),
                    ),
                ),
            ),
            _ => None,
        },
        StageView::TokenArriving => match event {
            EventView::TokenBody(body) => Some(store_request(body.access_token, now)),
            EventView::Malformed(detail) => Some(
                StageView::Done(
                    reported(operation, Err("Failed to parse login response: "@ + detail)),
                ),
            ),
            _ => None,
        },
        StageView::Storing { token, record } => match event {
            EventView::Stored => Some(after_store(config, operation, token, Ok(()))),
            EventView::BackendFailure(detail) => Some(
                after_store(
                    config,
                    operation,
                    token,
                    Err("Failed to save token to keyring: "@ + detail),
                ),
            ),
            _ => None,
        },
        StageView::ProfileSent { token, url, authorization } => match event {
            EventView::Unreachable(detail) => Some(
                after_profile(operation, token, Err("Network error: "@ + detail)),
            ),
            EventView::Status(code) => Some(
                if is_success(code) {
                    StageView::ProfileArriving { token }
                } else {
                    after_profile(operation, token, Err("Failed to get user profile"@))
                },
            ),
            _ => None,
        },
        StageView::ProfileArriving { token } => match event {
            EventView::ProfileBody(profile) => Some(after_profile(operation, token, Ok(profile))),
            EventView::Malformed(detail) => Some(
                after_profile(
                    operation,
                    token,
                    Err("Failed to parse profile response: "@ + detail),
                ),
            ),
            _ => None,
        },
        StageView::Loading => if asks_presence(operation) {
            match event {
                EventView::Found(record) => Some(after_presence(operation, true)),
                EventView::Missing => Some(after_presence(operation, false)),
                EventView::BackendFailure(detail) => Some(after_presence(operation, false)),
                _ => None,
            }
        } else {
            match event {
                EventView::Found(record) => Some(
                    after_load(config, operation, token_of_record(record)),
                ),
                EventView::Missing => Some(after_load(config, operation, Ok(None))),
                EventView::BackendFailure(detail) => Some(
                    after_load(
                        config,
                        operation,
                        Err("Failed to load token from keyring: "@ + detail),
                    ),
                ),
                _ => None,
            }
        },
        StageView::Deleting => match event {
            EventView::Deleted => Some(after_delete(operation, Ok(()))),
            EventView::Missing => Some(after_delete(operation, Ok(()))),
            EventView::BackendFailure(detail) => Some(
                after_delete(operation, Err("Failed to clear token from keyring: "@ + detail)),
            ),
            _ => None,
        },
        StageView::Done(outcome) => None,
    }
}

/// The flow after an event, with `now` as the time of capture. An event that
/// is no answer to what the flow waits for leaves it as it is, and so does
/// any event on a flow that is not well formed or is over.
pub open spec fn step(
    config: AuthConfigView,
    flow: FlowView,
    event: EventView,
    now: Seq<char>,
) -> FlowView {
    if well_formed(flow) {
        match next_stage(config, flow.operation, flow.stage, event, now) {
            Some(stage) => FlowView { operation: flow.operation, stage },
            None => flow,
        }
    } else {
        flow
    }
}

} // verus!
