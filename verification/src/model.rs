//! The values that cross the library's boundary, each with its view: the same
//! value with every string as a sequence of characters.
//!
//! Instants are held as RFC 3339 text.

use vstd::prelude::*;
use vstd::string::*;

verus! {

/// The view of an optional string.
pub open spec fn optional_text(value: Option<String>) -> Option<Seq<char>> {
    match value {
        Some(text) => Some(text@),
        None => None,
    }
}

/// Base URL used when `API_BASE_URL` is not set.
pub open spec fn default_api_base_url() -> Seq<char> {
    "http://localhost:8000"@
}

/// Service name of the credential-store entry.
pub open spec fn keyring_service_name() -> Seq<char> {
    "legal-toolkit"@
}

/// Account name of the credential-store entry.
pub open spec fn keyring_account_name() -> Seq<char> {
    "auth-token"@
}

/// Where the API lives and under which service and account the token is kept.
#[derive(Debug, Clone, PartialEq, Eq)]
pub struct AuthConfig {
    pub api_base_url: String,
    pub keyring_service: String,
    pub keyring_account: String,
}

pub struct AuthConfigView {
    pub api_base_url: Seq<char>,
    pub keyring_service: Seq<char>,
    pub keyring_account: Seq<char>,
}

impl View for AuthConfig {
    type V = AuthConfigView;

    open spec fn view(&self) -> AuthConfigView {
        AuthConfigView {
            api_base_url: self.api_base_url@,
            keyring_service: self.keyring_service@,
            keyring_account: self.keyring_account@,
        }
    }
}

impl AuthConfig {
    /// The configuration for a given value of the `API_BASE_URL` setting:
    /// that value where it is set, `http://localhost:8000` where it is not,
    /// and the fixed service and account names.
    pub fn from_base_url(api_base_url: Option<String>) -> (config: AuthConfig)
        ensures
            config@ == (AuthConfigView {
                api_base_url: match api_base_url {
                    Some(url) => url@,
                    None => default_api_base_url(),
                },
                keyring_service: keyring_service_name(),
                keyring_account: keyring_account_name(),
            }),
    {
        let url = match api_base_url {
            Some(url) => url,
            None => String::from_str("http://localhost:8000"),
        };
        AuthConfig {
            api_base_url: url,
            keyring_service: String::from_str("legal-toolkit"),
            keyring_account: String::from_str("auth-token"),
        }
    }
}

/// E-mail address and password as the caller supplies them. Never persisted.
#[derive(Debug, Clone, PartialEq, Eq)]
pub struct UserCredentials {
    pub email: String,
    pub password: String,
}

pub struct UserCredentialsView {
    pub email: Seq<char>,
    pub password: Seq<char>,
}

impl View for UserCredentials {
    type V = UserCredentialsView;

    open spec fn view(&self) -> UserCredentialsView {
        UserCredentialsView { email: self.email@, password: self.password@ }
    }
}

/// Subscription details of a profile.
#[derive(Debug, Clone, PartialEq, Eq)]
pub struct SubscriptionInfo {
    pub plan_type: String,
    pub status: String,
    /// RFC 3339 text.
    pub created_at: String,
}

pub struct SubscriptionInfoView {
    pub plan_type: Seq<char>,
    pub status: Seq<char>,
    pub created_at: Seq<char>,
}

impl View for SubscriptionInfo {
    type V = SubscriptionInfoView;

    open spec fn view(&self) -> SubscriptionInfoView {
        SubscriptionInfoView {
            plan_type: self.plan_type@,
            status: self.status@,
            created_at: self.created_at@,
        }
    }
}

/// The identity snapshot that the server supplies for a token.
#[derive(Debug, Clone, PartialEq, Eq)]
pub struct UserProfile {
    pub id: i32,
    pub email: String,
    pub full_name: String,
    pub is_active: bool,
    /// RFC 3339 text.
    pub created_at: String,
    pub subscription: Option<SubscriptionInfo>,
}

pub struct UserProfileView {
    pub id: int,
    pub email: Seq<char>,
    pub full_name: Seq<char>,
    pub is_active: bool,
    pub created_at: Seq<char>,
    pub subscription: Option<SubscriptionInfoView>,
}

impl View for UserProfile {
    type V = UserProfileView;

    open spec fn view(&self) -> UserProfileView {
        UserProfileView {
            id: self.id as int,
            email: self.email@,
            full_name: self.full_name@,
            is_active: self.is_active,
            created_at: self.created_at@,
            subscription: match self.subscription {
                Some(subscription) => Some(subscription@),
                None => None,
            },
        }
    }
}

/// What the server answers to a successful login.
#[derive(Debug, Clone, PartialEq, Eq)]
pub struct TokenResponse {
    pub access_token: String,
    pub token_type: String,
}

pub struct TokenResponseView {
    pub access_token: Seq<char>,
    pub token_type: Seq<char>,
}

impl View for TokenResponse {
    type V = TokenResponseView;

    open spec fn view(&self) -> TokenResponseView {
        TokenResponseView { access_token: self.access_token@, token_type: self.token_type@ }
    }
}

/// The claims of a token: subject, expiry and issue time.
#[derive(Debug, Clone, PartialEq, Eq)]
pub struct JwtClaims {
    pub sub: String,
    pub exp: usize,
    pub iat: usize,
}

pub struct JwtClaimsView {
    pub sub: Seq<char>,
    pub exp: nat,
    pub iat: nat,
}

impl View for JwtClaims {
    type V = JwtClaimsView;

    open spec fn view(&self) -> JwtClaimsView {
        JwtClaimsView { sub: self.sub@, exp: self.exp as nat, iat: self.iat as nat }
    }
}

/// The envelope that every operation hands back to the caller.
#[derive(Debug, Clone, PartialEq, Eq)]
pub struct AuthResult {
    pub success: bool,
    pub user_id: Option<String>,
    pub message: String,
    pub token: Option<String>,
    pub user_profile: Option<UserProfile>,
}

pub struct AuthResultView {
    pub success: bool,
    pub user_id: Option<Seq<char>>,
    pub message: Seq<char>,
    pub token: Option<Seq<char>>,
    pub user_profile: Option<UserProfileView>,
}

impl View for AuthResult {
    type V = AuthResultView;

    open spec fn view(&self) -> AuthResultView {
        AuthResultView {
            success: self.success,
            user_id: optional_text(self.user_id),
            message: self.message@,
            token: optional_text(self.token),
            user_profile: match self.user_profile {
                Some(profile) => Some(profile@),
                None => None,
            },
        }
    }
}

/// The result of an operation that found the session valid: the profile, its
/// id in decimal as user id, and the token.
pub open spec fn signed_in(
    message: Seq<char>,
    token: Seq<char>,
    profile: UserProfileView,
) -> AuthResultView {
    AuthResultView {
        success: true,
        user_id: Some(crate::text::decimal(profile.id)),
        message,
        token: Some(token),
        user_profile: Some(profile),
    }
}

/// The result of an operation that carries nothing but a verdict and a
/// message.
pub open spec fn bare_result(success: bool, message: Seq<char>) -> AuthResultView {
    AuthResultView { success, user_id: None, message, token: None, user_profile: None }
}

impl AuthResult {
    /// A successful result for `profile`, reached with `token`.
    pub fn signed_in(message: &str, token: String, profile: UserProfile) -> (result: AuthResult)
        ensures
            result@ == signed_in(message@, token@, profile@),
    {
        AuthResult {
            success: true,
            user_id: Some(crate::text::decimal_string(profile.id)),
            message: String::from_str(message),
            token: Some(token),
            user_profile: Some(profile),
        }
    }

    /// A result without user, token or profile.
    pub fn bare(success: bool, message: String) -> (result: AuthResult)
        ensures
            result@ == bare_result(success, message@),
    {
        AuthResult { success, user_id: None, message, token: None, user_profile: None }
    }
}

/// A failure as the shell reports it: a machine code, the detail for the
/// log, and the sentence shown to the user.
#[derive(Debug, Clone, PartialEq, Eq)]
pub struct AuthError {
    pub error_type: String,
    pub message: String,
    pub user_message: String,
}

pub struct AuthErrorView {
    pub error_type: Seq<char>,
    pub message: Seq<char>,
    pub user_message: Seq<char>,
}

impl View for AuthError {
    type V = AuthErrorView;

    open spec fn view(&self) -> AuthErrorView {
        AuthErrorView {
            error_type: self.error_type@,
            message: self.message@,
            user_message: self.user_message@,
        }
    }
}

impl AuthError {
    /// An error made of its three texts.
    pub fn new(error_type: &str, message: &str, user_message: &str) -> (error: AuthError)
        ensures
            error@ == (AuthErrorView {
                error_type: error_type@,
                message: message@,
                user_message: user_message@,
            }),
    {
        AuthError {
            error_type: String::from_str(error_type),
            message: String::from_str(message),
            user_message: String::from_str(user_message),
        }
    }
}

} // verus!
