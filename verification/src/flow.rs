//! An operation in progress.
//!
//! A [`Flow`] is an operation together with the stage it has reached. Every
//! stage but the last waits for one piece of outside work, its [`Effect`];
//! the shell performs it and reports what happened as an [`Event`]. The last
//! stage holds the [`Outcome`].

use crate::model::{
    optional_text, AuthError, AuthErrorView, AuthResult, AuthResultView,
    TokenResponse, TokenResponseView, UserCredentials, UserCredentialsView, UserProfile,
    UserProfileView,
};
use crate::record::loaded_view;
use vstd::prelude::*;

verus! {

/// The operations of the session store and the commands of the shell.
#[derive(Debug, Clone, Copy, PartialEq, Eq)]
pub enum Operation {
    Login,
    GetUserProfile,
    ValidateStoredToken,
    SaveToken,
    LoadToken,
    ClearToken,
    HasStoredToken,
    LoginUser,
    ValidateToken,
    LogoutUser,
    CheckAuthStatus,
    RefreshUserProfile,
}

/// Outside work that a flow waits for.
#[derive(Debug, Clone, PartialEq, Eq)]
pub enum Effect {
    /// POST the credentials as the JSON object `{email, password}` to `url`.
    PostLogin { url: String, credentials: UserCredentials },
    /// GET `url` with the header `Authorization: ` and `authorization`.
    GetProfile { url: String, authorization: String },
    /// Read the body of the response as a token response.
    ReadTokenBody,
    /// Read the body of the response as a user profile.
    ReadProfileBody,
    /// Read the body of the response as text.
    ReadErrorText,
    /// Read the record from the persistence backend.
    LoadRecord,
    /// Write `record` to the persistence backend, over any earlier one.
    StoreRecord { record: String },
    /// Delete the record from the persistence backend.
    DeleteRecord,
}

pub enum EffectView {
    PostLogin { url: Seq<char>, credentials: UserCredentialsView },
    GetProfile { url: Seq<char>, authorization: Seq<char> },
    ReadTokenBody,
    ReadProfileBody,
    ReadErrorText,
    LoadRecord,
    StoreRecord { record: Seq<char> },
    DeleteRecord,
}

impl View for Effect {
    type V = EffectView;

    open spec fn view(&self) -> EffectView {
        match self {
            Effect::PostLogin { url, credentials } => EffectView::PostLogin {
                url: url@,
                credentials: credentials@,
            },
            Effect::GetProfile { url, authorization } => EffectView::GetProfile {
                url: url@,
                authorization: authorization@,
            },
            Effect::ReadTokenBody => EffectView::ReadTokenBody,
            Effect::ReadProfileBody => EffectView::ReadProfileBody,
            Effect::ReadErrorText => EffectView::ReadErrorText,
            Effect::LoadRecord => EffectView::LoadRecord,
            Effect::StoreRecord { record } => EffectView::StoreRecord { record: record@ },
            Effect::DeleteRecord => EffectView::DeleteRecord,
        }
    }
}

/// What the shell reports after an effect.
#[derive(Debug, Clone, PartialEq, Eq)]
pub enum Event {
    /// The request could not be sent, or no response came; the transport's
    /// message.
    Unreachable(String),
    /// A response came, with this status code.
    Status(u16),
    /// The body was a token response.
    TokenBody(TokenResponse),
    /// The body was a user profile.
    ProfileBody(UserProfile),
    /// The body was not what was asked for; the reader's message.
    Malformed(String),
    /// The body as text, or none where it could not be read.
    ErrorText(Option<String>),
    /// The backend holds this record.
    Found(String),
    /// The backend holds no record.
    Missing,
    /// The record was written.
    Stored,
    /// The record was deleted.
    Deleted,
    /// The backend failed; its message.
    BackendFailure(String),
}

pub enum EventView {
    Unreachable(Seq<char>),
    Status(int),
    TokenBody(TokenResponseView),
    ProfileBody(UserProfileView),
    Malformed(Seq<char>),
    ErrorText(Option<Seq<char>>),
    Found(Seq<char>),
    Missing,
    Stored,
    Deleted,
    BackendFailure(Seq<char>),
}

impl View for Event {
    type V = EventView;

    open spec fn view(&self) -> EventView {
        match self {
            Event::Unreachable(message) => EventView::Unreachable(message@),
            Event::Status(code) => EventView::Status(*code as int),
            Event::TokenBody(body) => EventView::TokenBody(body@),
            Event::ProfileBody(profile) => EventView::ProfileBody(profile@),
            Event::Malformed(message) => EventView::Malformed(message@),
            Event::ErrorText(text) => EventView::ErrorText(optional_text(*text)),
            Event::Found(record) => EventView::Found(record@),
            Event::Missing => EventView::Missing,
            Event::Stored => EventView::Stored,
            Event::Deleted => EventView::Deleted,
            Event::BackendFailure(message) => EventView::BackendFailure(message@),
        }
    }
}

/// What a finished operation hands back.
#[derive(Debug, PartialEq, Eq)]
pub enum Outcome {
    /// Of `login` and `validate_stored_token`.
    Auth(Result<AuthResult, String>),
    /// Of `login_user`, `validate_token`, `logout_user` and
    /// `refresh_user_profile`.
    Command(Result<AuthResult, AuthError>),
    /// Of `get_user_profile`.
    Profile(Result<UserProfile, String>),
    /// Of `load_token`.
    Token(Result<Option<String>, String>),
    /// Of `save_token` and `clear_token`.
    Unit(Result<(), String>),
    /// Of `has_stored_token`.
    Present(bool),
    /// Of `check_auth_status`.
    Status(Result<bool, String>),
}

pub enum OutcomeView {
    Auth(Result<AuthResultView, Seq<char>>),
    Command(Result<AuthResultView, AuthErrorView>),
    Profile(Result<UserProfileView, Seq<char>>),
    Token(Result<Option<Seq<char>>, Seq<char>>),
    Unit(Result<(), Seq<char>>),
    Present(bool),
    Status(Result<bool, Seq<char>>),
}

/// The view of the result of an operation that yields an `AuthResult`.
pub open spec fn auth_view(result: Result<AuthResult, String>) -> Result<
    AuthResultView,
    Seq<char>,
> {
    match result {
        Ok(value) => Ok(value@),
        Err(message) => Err(message@),
    }
}

/// The view of the result of a profile fetch.
pub open spec fn fetched_view(fetched: Result<UserProfile, String>) -> Result<
    UserProfileView,
    Seq<char>,
> {
    match fetched {
        Ok(profile) => Ok(profile@),
        Err(message) => Err(message@),
    }
}

/// The view of the result of a write or a delete.
pub open spec fn unit_view(done: Result<(), String>) -> Result<(), Seq<char>> {
    match done {
        Ok(_) => Ok(()),
        Err(message) => Err(message@),
    }
}

impl View for Outcome {
    type V = OutcomeView;

    open spec fn view(&self) -> OutcomeView {
        match self {
            Outcome::Auth(result) => OutcomeView::Auth(auth_view(*result)),
            Outcome::Command(result) => OutcomeView::Command(
                match result {
                    Ok(value) => Ok(value@),
                    Err(error) => Err(error@),
                },
            ),
            Outcome::Profile(result) => OutcomeView::Profile(fetched_view(*result)),
            Outcome::Token(result) => OutcomeView::Token(loaded_view(*result)),
            Outcome::Unit(result) => OutcomeView::Unit(unit_view(*result)),
            Outcome::Present(present) => OutcomeView::Present(*present),
            Outcome::Status(result) => OutcomeView::Status(
                match result {
                    Ok(present) => Ok(*present),
                    Err(message) => Err(message@),
                },
            ),
        }
    }
}

/// How far an operation has come.
#[derive(Debug, PartialEq, Eq)]
pub enum Stage {
    /// The login request is on its way.
    LoginSent { url: String, credentials: UserCredentials },
    /// The server refused the login; its error text is being read.
    LoginRejected,
    /// The server accepted the login; the token response is being read.
    TokenArriving,
    /// The record of `token` is being written.
    Storing { token: String, record: String },
    /// The profile request for `token` is on its way.
    ProfileSent { token: String, url: String, authorization: String },
    /// The server answered the profile request for `token` with success; the
    /// profile is being read.
    ProfileArriving { token: String },
    /// The record is being read.
    Loading,
    /// The record is being deleted.
    Deleting,
    /// The operation is over.
    Done(Outcome),
}

pub enum StageView {
    LoginSent { url: Seq<char>, credentials: UserCredentialsView },
    LoginRejected,
    TokenArriving,
    Storing { token: Seq<char>, record: Seq<char> },
    ProfileSent { token: Seq<char>, url: Seq<char>, authorization: Seq<char> },
    ProfileArriving { token: Seq<char> },
    Loading,
    Deleting,
    Done(OutcomeView),
}

impl View for Stage {
    type V = StageView;

    open spec fn view(&self) -> StageView {
        match self {
            Stage::LoginSent { url, credentials } => StageView::LoginSent {
                url: url@,
                credentials: credentials@,
            },
            Stage::LoginRejected => StageView::LoginRejected,
            Stage::TokenArriving => StageView::TokenArriving,
            Stage::Storing { token, record } => StageView::Storing {
                token: token@,
                record: record@,
            },
            Stage::ProfileSent { token, url, authorization } => StageView::ProfileSent {
                token: token@,
                url: url@,
                authorization: authorization@,
            },
            Stage::ProfileArriving { token } => StageView::ProfileArriving { token: token@ },
            Stage::Loading => StageView::Loading,
            Stage::Deleting => StageView::Deleting,
            Stage::Done(outcome) => StageView::Done(outcome@),
        }
    }
}

/// An operation and the stage it has reached.
#[derive(Debug, PartialEq, Eq)]
pub struct Flow {
    pub operation: Operation,
    pub stage: Stage,
}

pub struct FlowView {
    pub operation: Operation,
    pub stage: StageView,
}

impl View for Flow {
    type V = FlowView;

    open spec fn view(&self) -> FlowView {
        FlowView { operation: self.operation, stage: self.stage@ }
    }
}

/// The outside work that a stage waits for; none once the operation is over.
pub open spec fn pending(stage: StageView) -> Option<EffectView> {
    match stage {
        StageView::LoginSent { url, credentials } => Some(
            EffectView::PostLogin { url, credentials },
        ),
        StageView::LoginRejected => Some(EffectView::ReadErrorText),
        StageView::TokenArriving => Some(EffectView::ReadTokenBody),
        StageView::Storing { token, record } => Some(EffectView::StoreRecord { record }),
        StageView::ProfileSent { token, url, authorization } => Some(
            EffectView::GetProfile { url, authorization },
        ),
        StageView::ProfileArriving { token } => Some(EffectView::ReadProfileBody),
        StageView::Loading => Some(EffectView::LoadRecord),
        StageView::Deleting => Some(EffectView::DeleteRecord),
        StageView::Done(outcome) => None,
    }
}

/// The view of an optional effect.
pub open spec fn optional_effect(effect: Option<Effect>) -> Option<EffectView> {
    match effect {
        Some(effect) => Some(effect@),
        None => None,
    }
}

/// The view of an optional outcome.
pub open spec fn optional_outcome(outcome: Option<Outcome>) -> Option<OutcomeView> {
    match outcome {
        Some(outcome) => Some(outcome@),
        None => None,
    }
}

/// The outcome of a stage; none while the operation is under way.
pub open spec fn outcome_of(stage: StageView) -> Option<OutcomeView> {
    match stage {
        StageView::Done(outcome) => Some(outcome),
        _ => None,
    }
}

impl Flow {
    /// The outside work that the flow waits for; none once it is over.
    pub fn effect(&self) -> (effect: Option<Effect>)
        ensures
            optional_effect(effect) == pending(self@.stage),
    {
        match &self.stage {
            Stage::LoginSent { url, credentials } => Some(
                Effect::PostLogin {
                    url: url.clone(),
                    credentials: UserCredentials {
                        email: credentials.email.clone(),
                        password: credentials.password.clone(),
                    },
                },
            ),
            Stage::LoginRejected => Some(Effect::ReadErrorText),
            Stage::TokenArriving => Some(Effect::ReadTokenBody),
            Stage::Storing { token, record } => Some(Effect::StoreRecord { record: record.clone() }),
            Stage::ProfileSent { token, url, authorization } => Some(
                Effect::GetProfile { url: url.clone(), authorization: authorization.clone() },
            ),
            Stage::ProfileArriving { token } => Some(Effect::ReadProfileBody),
            Stage::Loading => Some(Effect::LoadRecord),
            Stage::Deleting => Some(Effect::DeleteRecord),
            Stage::Done(outcome) => None,
        }
    }

    /// Whether the operation is over.
    pub fn is_done(&self) -> (done: bool)
        ensures
            done == (self@.stage is Done),
    {
        match &self.stage {
            Stage::Done(outcome) => true,
            _ => false,
        }
    }

    /// The outcome of the operation; none while it is under way.
    pub fn into_outcome(self) -> (outcome: Option<Outcome>)
        ensures
            optional_outcome(outcome) == outcome_of(self@.stage),
    {
        match self.stage {
            Stage::Done(outcome) => Some(outcome),
            _ => None,
        }
    }
}

} // verus!
