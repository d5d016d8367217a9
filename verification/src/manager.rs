//! The session store: it begins the operations and carries each of them on
//! from event to event.

use crate::flow::{Event, Flow, Operation, Stage};
use crate::json::current_time;
use crate::model::{AuthConfig, AuthConfigView, AuthResult};
use crate::record::stored_token;
use crate::rules;
use crate::steps::{
    after_delete, after_load, after_presence, after_profile, after_store, belongs, is_success,
    login_request, profile_request, report, store_request,
};
use crate::text::prefixed;
use vstd::prelude::*;
use vstd::string::*;

verus! {

/// Where the file backend keeps the record: the file `file_name` in the
/// folder `folder` of the local data directory `data_dir`.
#[derive(Debug, Clone, PartialEq, Eq)]
pub struct TokenFilePath {
    pub data_dir: String,
    pub folder: String,
    pub file_name: String,
}

pub struct TokenFilePathView {
    pub data_dir: Seq<char>,
    pub folder: Seq<char>,
    pub file_name: Seq<char>,
}

impl View for TokenFilePath {
    type V = TokenFilePathView;

    open spec fn view(&self) -> TokenFilePathView {
        TokenFilePathView {
            data_dir: self.data_dir@,
            folder: self.folder@,
            file_name: self.file_name@,
        }
    }
}

/// The view of a manager made from the outcome of creating the keyring
/// entry.
pub open spec fn created_view(created: Result<AuthManager, String>) -> Result<
    AuthConfigView,
    Seq<char>,
> {
    match created {
        Ok(manager) => Ok(manager@),
        Err(message) => Err(message@),
    }
}

/// The view of a located token file.
pub open spec fn located_view(located: Result<TokenFilePath, String>) -> Result<
    TokenFilePathView,
    Seq<char>,
> {
    match located {
        Ok(path) => Ok(path@),
        Err(message) => Err(message@),
    }
}

/// The session store. It owns the configuration and nothing else: the HTTP
/// client and the persistence backend are the shell's.
#[derive(Debug, Clone, PartialEq, Eq)]
pub struct AuthManager {
    config: AuthConfig,
}

impl View for AuthManager {
    type V = AuthConfigView;

    closed spec fn view(&self) -> AuthConfigView {
        self.config@
    }
}

impl AuthManager {
    /// The manager for `config`, given how creating the keyring entry went:
    /// where that failed with a message, the manager is not made and the
    /// message comes back behind `Failed to create keyring entry: `.
    pub fn new(config: AuthConfig, keyring_entry: Result<(), String>) -> (created: Result<
        AuthManager,
        String,
    >)
        ensures
            created_view(created) == match keyring_entry {
                Ok(_) => Ok::<AuthConfigView, Seq<char>>(config@),
                Err(detail) => Err("Failed to create keyring entry: "@ + detail@),
            },
    {
        match keyring_entry {
            Ok(_) => Ok(AuthManager { config }),
            Err(detail) => Err(prefixed("Failed to create keyring entry: ", detail.as_str())),
        }
    }

    /// The configuration.
    pub fn config(&self) -> (config: &AuthConfig)
        ensures
            config@ == self@,
    {
        &self.config
    }

    /// Where the file backend keeps the record, given the local data
    /// directory of the user: `auth_token.json` in its folder
    /// `legal-toolkit`. Without such a directory there is no place.
    pub fn get_token_file_path(&self, data_local_dir: Option<String>) -> (located: Result<
        TokenFilePath,
        String,
    >)
        ensures
            located_view(located) == match data_local_dir {
                Some(dir) => Ok::<TokenFilePathView, Seq<char>>(
                    TokenFilePathView {
                        data_dir: dir@,
                        folder: "legal-toolkit"@,
                        file_name: "auth_token.json"@,
                    },
                ),
                None => Err("Failed to get local data directory"@),
            },
    {
        match data_local_dir {
            Some(dir) => Ok(
                TokenFilePath {
                    data_dir: dir,
                    folder: String::from_str("legal-toolkit"),
                    file_name: String::from_str("auth_token.json"),
                },
            ),
            None => Err(String::from_str("Failed to get local data directory")),
        }
    }

    /// Begins a login for `operation`, which is `Login` or `LoginUser`.
    pub(crate) fn begin_login(&self, operation: Operation, email: &str, password: &str) -> (flow: Flow)
        ensures
            flow@ == rules::login_flow(self@, operation, email@, password@),
    {
        Flow { operation, stage: login_request(&self.config, email, password) }
    }

    /// Begins a login: the credentials go to `/auth/login`.
    pub fn login(&self, email: &str, password: &str) -> (flow: Flow)
        ensures
            flow@ == rules::login_flow(self@, Operation::Login, email@, password@),
    {
        self.begin_login(Operation::Login, email, password)
    }

    /// Begins a profile fetch: a request to `/user/profile` that carries
    /// `token` as bearer.
    pub fn get_user_profile(&self, token: &str) -> (flow: Flow)
        ensures
            flow@ == rules::profile_flow(self@, Operation::GetUserProfile, token@),
    {
        Flow {
            operation: Operation::GetUserProfile,
            stage: profile_request(&self.config, String::from_str(token)),
        }
    }

    /// Begins the validation of the stored token: the record is read.
    pub fn validate_stored_token(&self) -> (flow: Flow)
        ensures
            flow@ == rules::load_flow(Operation::ValidateStoredToken),
    {
        Flow { operation: Operation::ValidateStoredToken, stage: Stage::Loading }
    }

    /// Begins a save of `token` with `stored_at` as the time of capture: the
    /// record goes to the backend.
    pub fn save_token_at(&self, token: &str, stored_at: &str) -> (flow: Flow)
        ensures
            flow@ == rules::save_flow(token@, stored_at@),
    {
        Flow {
            operation: Operation::SaveToken,
            stage: store_request(String::from_str(token), stored_at),
        }
    }

    /// Begins a save of `token`, captured now.
    pub fn save_token(&self, token: &str) -> (flow: Flow)
        ensures
            exists|now: Seq<char>| flow@ == rules::save_flow(token@, now),
    {
        let now = current_time();
        self.save_token_at(token, now.as_str())
    }

    /// Begins a load of the stored token: the record is read.
    pub fn load_token(&self) -> (flow: Flow)
        ensures
            flow@ == rules::load_flow(Operation::LoadToken),
    {
        Flow { operation: Operation::LoadToken, stage: Stage::Loading }
    }

    /// Begins the removal of the stored token: the record is deleted.
    pub fn clear_token(&self) -> (flow: Flow)
        ensures
            flow@ == rules::delete_flow(Operation::ClearToken),
    {
        Flow { operation: Operation::ClearToken, stage: Stage::Deleting }
    }

    /// Begins the check whether a token is stored: the record is looked for,
    /// and not parsed.
    pub fn has_stored_token(&self) -> (flow: Flow)
        ensures
            flow@ == rules::load_flow(Operation::HasStoredToken),
    {
        Flow { operation: Operation::HasStoredToken, stage: Stage::Loading }
    }

    /// Carries `flow` on with `event`, with `now` as the time at which a
    /// token that arrives is captured.
    pub fn advance(&self, flow: Flow, event: Event, now: &str) -> (next: Flow)
        ensures
            next@ == rules::step(self@, flow@, event@, now@),
    {
        if !belongs(flow.operation, &flow.stage) {
            return flow;
        }
        let operation = flow.operation;
        let stage = match flow.stage {
            Stage::LoginSent { url, credentials } => match event {
                Event::Unreachable(detail) => Stage::Done(
                    report(operation, Err(prefixed("Network error: ", detail.as_str()))),
                ),
                Event::Status(code) => if is_success(code) {
                    Stage::TokenArriving
                } else {
                    Stage::LoginRejected
                },
                _ => Stage::LoginSent { url, credentials },
            },
            Stage::LoginRejected => match event {
                Event::ErrorText(text) => {
                    let text = match text {
                        Some(text) => text,
                        None => String::from_str("Unknown error"),
                    };
                    Stage::Done(
                        report(
                            operation,
                            Ok(AuthResult::bare(false, prefixed("Login failed: ", text.as_str()))),
                        ),
                    )
                },
                _ => Stage::LoginRejected,
            },
            Stage::TokenArriving => match event {
                Event::TokenBody(body) => store_request(body.access_token, now),
                Event::Malformed(detail) => Stage::Done(
                    report(
                        operation,
                        Err(prefixed("Failed to parse login response: ", detail.as_str())),
                    ),
                ),
                _ => Stage::TokenArriving,
            },
            Stage::Storing { token, record } => match event {
                Event::Stored => after_store(&self.config, operation, token, Ok(())),
                Event::BackendFailure(detail) => after_store(
                    &self.config,
                    operation,
                    token,
                    Err(prefixed("Failed to save token to keyring: ", detail.as_str())),
                ),
                _ => Stage::Storing { token, record },
            },
            Stage::ProfileSent { token, url, authorization } => match event {
                Event::Unreachable(detail) => after_profile(
                    operation,
                    token,
                    Err(prefixed("Network error: ", detail.as_str())),
                ),
                Event::Status(code) => if is_success(code) {
                    Stage::ProfileArriving { token }
                } else {
                    after_profile(
                        operation,
                        token,
                        Err(String::from_str("Failed to get user profile")),
                    )
                },
                _ => Stage::ProfileSent { token, url, authorization },
            },
            Stage::ProfileArriving { token } => match event {
                Event::ProfileBody(profile) => after_profile(operation, token, Ok(profile)),
                Event::Malformed(detail) => after_profile(
                    operation,
                    token,
                    Err(prefixed("Failed to parse profile response: ", detail.as_str())),
                ),
                _ => Stage::ProfileArriving { token },
            },
            Stage::Loading => match operation {
                Operation::HasStoredToken | Operation::CheckAuthStatus => match event {
                    Event::Found(record) => after_presence(operation, true),
                    Event::Missing => after_presence(operation, false),
                    Event::BackendFailure(detail) => after_presence(operation, false),
                    _ => Stage::Loading,
                },
                _ => match event {
                    Event::Found(record) => after_load(
                        &self.config,
                        operation,
                        stored_token(record.as_str()),
                    ),
                    Event::Missing => after_load(&self.config, operation, Ok(None)),
                    Event::BackendFailure(detail) => after_load(
                        &self.config,
                        operation,
                        Err(prefixed("Failed to load token from keyring: ", detail.as_str())),
                    ),
                    _ => Stage::Loading,
                },
            },
            Stage::Deleting => match event {
                Event::Deleted => after_delete(operation, Ok(())),
                Event::Missing => after_delete(operation, Ok(())),
                Event::BackendFailure(detail) => after_delete(
                    operation,
                    Err(prefixed("Failed to clear token from keyring: ", detail.as_str())),
                ),
                _ => Stage::Deleting,
            },
            Stage::Done(outcome) => Stage::Done(outcome),
        };
        Flow { operation, stage }
    }

    /// Carries `flow` on with `event`. A token that arrives is captured now.
    pub fn resume(&self, flow: Flow, event: Event) -> (next: Flow)
        ensures
            exists|now: Seq<char>| next@ == rules::step(self@, flow@, event@, now),
    {
        let now = current_time();
        self.advance(flow, event, now.as_str())
    }
}

} // verus!
