//! Failures at the service boundary: the one error type that crosses it, how
//! it is classified, and how it reads.

use crate::db_error::{prefixed, DbError, DbErrorView};
use crate::ident::{render_uuid, uuid_text};
use crate::outside::{displays_as, internal_server_error_code};
use server_fn::error::ServerFnErrorErr;
use validator::ValidationErrors;
use vstd::prelude::*;

verus! {

/// A failure at the service boundary. An identifier is the 128-bit value of
/// a UUID.
#[derive(Debug, PartialEq)]
pub enum AppError {
    /// The network cannot be reached.
    NotConnected,
    /// The caller may not perform `action` on the resource `id`.
    UnauthorizedAction { action: String, id: u128, description: String },
    /// No entity `name` has the identifier `id`.
    NotFound { name: String, id: u128 },
    /// The entity `name` with the identifier `id` was deleted before.
    AlreadyDeleted { name: String, id: u128 },
    /// The request carried no access token.
    AccessTokenRequired,
    /// The access token is past its lifetime.
    AccessTokenExpired,
    /// The access token cannot be accepted.
    AccessTokenInvalid,
    /// The refresh token is past its lifetime.
    RefreshTokenExpired,
    /// The refresh token cannot be accepted.
    RefreshTokenInvalid,
    /// The refresh token was withdrawn.
    RefreshTokenRevoked,
    /// No actor goes by `username`.
    UsernameNotAssociatedWithActor { username: String },
    /// `username` is taken.
    UsernameNotAvailable { username: String },
    /// No user has the identifier `id`.
    UserNotFound { id: u128 },
    /// No registration challenge is pending.
    RegistrationChallengeNotFound,
    /// The registration challenge is past its lifetime.
    RegistrationChallengeExpired,
    /// The registration challenge cannot be accepted.
    RegistrationChallengeInvalid,
    /// A value that the request's context should hold is not there.
    MissingContext,
    /// The environment variable `variable` is not set.
    EnvMissing { variable: String },
    /// The environment variable `variable` holds an unusable value.
    EnvInvalid { variable: String },
    /// The storage layer failed.
    Db(DbError),
    /// Encoding or decoding a value failed.
    Serde(String),
    /// Reading or writing JSON failed.
    Json(String),
    /// An outbound request failed.
    Request(String),
    /// A token could not be encoded or decoded.
    Jwt(String),
    /// The credential protocol failed.
    Webauthn(String),
    /// The caller's input did not pass validation.
    Validation(ValidationErrors),
    /// The call to the other tier failed in transport.
    ServerFn(ServerFnErrorErr),
    /// Any other failure, with its cause.
    Other(String),
    /// A failure whose detail is withheld from the reader.
    Hidden,
}

impl Clone for AppError {
    /// A copy that holds what `self` holds.
    fn clone(&self) -> (r: AppError)
        ensures
            r == *self,
    {
        match self {
            AppError::NotConnected => AppError::NotConnected,
            AppError::UnauthorizedAction { action, id, description } => {
                AppError::UnauthorizedAction {
                    action: action.clone(),
                    id: *id,
                    description: description.clone(),
                }
            },
            AppError::NotFound { name, id } => AppError::NotFound { name: name.clone(), id: *id },
            AppError::AlreadyDeleted { name, id } => AppError::AlreadyDeleted {
                name: name.clone(),
                id: *id,
            },
            AppError::AccessTokenRequired => AppError::AccessTokenRequired,
            AppError::AccessTokenExpired => AppError::AccessTokenExpired,
            AppError::AccessTokenInvalid => AppError::AccessTokenInvalid,
            AppError::RefreshTokenExpired => AppError::RefreshTokenExpired,
            AppError::RefreshTokenInvalid => AppError::RefreshTokenInvalid,
            AppError::RefreshTokenRevoked => AppError::RefreshTokenRevoked,
            AppError::UsernameNotAssociatedWithActor { username } => {
                AppError::UsernameNotAssociatedWithActor { username: username.clone() }
            },
            AppError::UsernameNotAvailable { username } => AppError::UsernameNotAvailable {
                username: username.clone(),
            },
            AppError::UserNotFound { id } => AppError::UserNotFound { id: *id },
            AppError::RegistrationChallengeNotFound => AppError::RegistrationChallengeNotFound,
            AppError::RegistrationChallengeExpired => AppError::RegistrationChallengeExpired,
            AppError::RegistrationChallengeInvalid => AppError::RegistrationChallengeInvalid,
            AppError::MissingContext => AppError::MissingContext,
            AppError::EnvMissing { variable } => AppError::EnvMissing {
                variable: variable.clone(),
            },
            AppError::EnvInvalid { variable } => AppError::EnvInvalid {
                variable: variable.clone(),
            },
            AppError::Db(kind) => AppError::Db(kind.clone()),
            AppError::Serde(m) => AppError::Serde(m.clone()),
            AppError::Json(m) => AppError::Json(m.clone()),
            AppError::Request(m) => AppError::Request(m.clone()),
            AppError::Jwt(m) => AppError::Jwt(m.clone()),
            AppError::Webauthn(m) => AppError::Webauthn(m.clone()),
            AppError::Validation(errors) => AppError::Validation(errors.clone()),
            AppError::ServerFn(failure) => AppError::ServerFn(failure.clone()),
            AppError::Other(m) => AppError::Other(m.clone()),
            AppError::Hidden => AppError::Hidden,
        }
    }
}

/// The result of an operation of the service.
pub type AppResult<T> = Result<T, AppError>;

/// What an [`AppError`] holds, with each text as a sequence of characters.
pub ghost enum AppErrorView {
    NotConnected,
    UnauthorizedAction { action: Seq<char>, id: u128, description: Seq<char> },
    NotFound { name: Seq<char>, id: u128 },
    AlreadyDeleted { name: Seq<char>, id: u128 },
    AccessTokenRequired,
    AccessTokenExpired,
    AccessTokenInvalid,
    RefreshTokenExpired,
    RefreshTokenInvalid,
    RefreshTokenRevoked,
    UsernameNotAssociatedWithActor { username: Seq<char> },
    UsernameNotAvailable { username: Seq<char> },
    UserNotFound { id: u128 },
    RegistrationChallengeNotFound,
    RegistrationChallengeExpired,
    RegistrationChallengeInvalid,
    MissingContext,
    EnvMissing { variable: Seq<char> },
    EnvInvalid { variable: Seq<char> },
    Db(DbErrorView),
    Serde(Seq<char>),
    Json(Seq<char>),
    Request(Seq<char>),
    Jwt(Seq<char>),
    Webauthn(Seq<char>),
    Validation(ValidationErrors),
    ServerFn(ServerFnErrorErr),
    Other(Seq<char>),
    Hidden,
}

impl View for AppError {
    type V = AppErrorView;

    open spec fn view(&self) -> AppErrorView {
        match *self {
            AppError::NotConnected => AppErrorView::NotConnected,
            AppError::UnauthorizedAction { action, id, description } => {
                AppErrorView::UnauthorizedAction { action: action@, id, description: description@ }
            },
            AppError::NotFound { name, id } => AppErrorView::NotFound { name: name@, id },
            AppError::AlreadyDeleted { name, id } => AppErrorView::AlreadyDeleted {
                name: name@,
                id,
            },
            AppError::AccessTokenRequired => AppErrorView::AccessTokenRequired,
            AppError::AccessTokenExpired => AppErrorView::AccessTokenExpired,
            AppError::AccessTokenInvalid => AppErrorView::AccessTokenInvalid,
            AppError::RefreshTokenExpired => AppErrorView::RefreshTokenExpired,
            AppError::RefreshTokenInvalid => AppErrorView::RefreshTokenInvalid,
            AppError::RefreshTokenRevoked => AppErrorView::RefreshTokenRevoked,
            AppError::UsernameNotAssociatedWithActor { username } => {
                AppErrorView::UsernameNotAssociatedWithActor { username: username@ }
            },
            AppError::UsernameNotAvailable { username } => AppErrorView::UsernameNotAvailable {
                username: username@,
            },
            AppError::UserNotFound { id } => AppErrorView::UserNotFound { id },
            AppError::RegistrationChallengeNotFound => AppErrorView::RegistrationChallengeNotFound,
            AppError::RegistrationChallengeExpired => AppErrorView::RegistrationChallengeExpired,
            AppError::RegistrationChallengeInvalid => AppErrorView::RegistrationChallengeInvalid,
            AppError::MissingContext => AppErrorView::MissingContext,
            AppError::EnvMissing { variable } => AppErrorView::EnvMissing { variable: variable@ },
            AppError::EnvInvalid { variable } => AppErrorView::EnvInvalid { variable: variable@ },
            AppError::Db(kind) => AppErrorView::Db(kind@),
            AppError::Serde(m) => AppErrorView::Serde(m@),
            AppError::Json(m) => AppErrorView::Json(m@),
            AppError::Request(m) => AppErrorView::Request(m@),
            AppError::Jwt(m) => AppErrorView::Jwt(m@),
            AppError::Webauthn(m) => AppErrorView::Webauthn(m@),
            AppError::Validation(errors) => AppErrorView::Validation(errors),
            AppError::ServerFn(failure) => AppErrorView::ServerFn(failure),
            AppError::Other(m) => AppErrorView::Other(m@),
            AppError::Hidden => AppErrorView::Hidden,
        }
    }
}

impl AppErrorView {
    /// The failure concerns the access token.
    pub open spec fn is_access_token_error(self) -> bool {
        self is AccessTokenRequired || self is AccessTokenExpired || self is AccessTokenInvalid
    }

    /// The failure concerns the refresh token.
    pub open spec fn is_refresh_token_error(self) -> bool {
        self is RefreshTokenExpired || self is RefreshTokenInvalid || self is RefreshTokenRevoked
    }

    /// The failure is one of the six of the token lifecycle.
    pub open spec fn is_auth_error(self) -> bool {
        ||| self is AccessTokenRequired
        ||| self is AccessTokenExpired
        ||| self is AccessTokenInvalid
        ||| self is RefreshTokenExpired
        ||| self is RefreshTokenInvalid
        ||| self is RefreshTokenRevoked
    }

    /// The operation may be tried again as it is: the failure is none of
    /// the token lifecycle, which ask for a new authentication instead.
    pub open spec fn is_retryable(self) -> bool {
        !self.is_auth_error()
    }

    /// The payload comes from another crate, which alone can render it.
    pub open spec fn has_outside_payload(self) -> bool {
        self is Validation || self is ServerFn
    }

    /// The human-readable message of the failure, where `detail` is the
    /// rendered text of a payload that another crate renders. Only the
    /// variants with such a payload read `detail`.
    pub open spec fn message_with(self, detail: Seq<char>) -> Seq<char> {
        match self {
            AppErrorView::NotConnected => "Not connected to the network"@,
            AppErrorView::UnauthorizedAction { action, id, description } => {
                "Unauthorized action: "@ + action + " on "@ + uuid_text(id)
            },
            AppErrorView::NotFound { name, id } => "Not found: "@ + name + " on "@ + uuid_text(id),
            AppErrorView::AlreadyDeleted { name, id } => "Already deleted: "@ + name + " on "@
                + uuid_text(id),
            AppErrorView::AccessTokenRequired => "An access token is required"@,
            AppErrorView::AccessTokenExpired => "Access token expired"@,
            AppErrorView::AccessTokenInvalid => "Access token invalid"@,
            AppErrorView::RefreshTokenExpired => "Refresh token expired"@,
            AppErrorView::RefreshTokenInvalid => "Refresh token invalid"@,
            AppErrorView::RefreshTokenRevoked => "Refresh token revoked"@,
            AppErrorView::UsernameNotAssociatedWithActor { username } => {
                "Username not associated with an actor: "@ + username
            },
            AppErrorView::UsernameNotAvailable { username } => "Username not available: "@
                + username,
            AppErrorView::UserNotFound { id } => "User not found: "@ + uuid_text(id),
            AppErrorView::RegistrationChallengeNotFound => "Registration challenge not found"@,
            AppErrorView::RegistrationChallengeExpired => "Registration challenge expired"@,
            AppErrorView::RegistrationChallengeInvalid => "Registration challenge invalid"@,
            AppErrorView::MissingContext => "Missing context"@,
            AppErrorView::EnvMissing { variable } => "Environment variable missing: "@ + variable,
            AppErrorView::EnvInvalid { variable } => "Environment variable invalid: "@ + variable,
            AppErrorView::Db(kind) => "Database error: "@ + kind.message(),
            AppErrorView::Serde(m) => "Serde: "@ + m,
            AppErrorView::Json(m) => "Json: "@ + m,
            AppErrorView::Request(m) => "Request: "@ + m,
            AppErrorView::Jwt(m) => "JWT: "@ + m,
            AppErrorView::Webauthn(m) => "Webauthn: "@ + m,
            AppErrorView::Validation(_) => "Validation errors: "@ + detail,
            AppErrorView::ServerFn(_) => "ServerFnError: "@ + detail,
            AppErrorView::Other(m) => "Other error: "@ + m,
            AppErrorView::Hidden => "Error hidden from client"@,
        }
    }

    /// The human-readable message of a failure whose payload, if it has one,
    /// is the library's own.
    pub open spec fn message(self) -> Seq<char>
        recommends
            !self.has_outside_payload(),
    {
        self.message_with(Seq::empty())
    }

    /// `detail` is the text that the crate of the payload renders it to.
    /// For a failure without such a payload any text will do, since its
    /// message reads none.
    pub open spec fn payload_renders_as(self, detail: Seq<char>) -> bool {
        match self {
            AppErrorView::Validation(errors) => displays_as(errors, detail),
            AppErrorView::ServerFn(failure) => displays_as(failure, detail),
            _ => true,
        }
    }

    /// `text` is the human-readable message of the failure. A payload of
    /// another crate stands in it as that crate renders it.
    pub open spec fn renders_as(self, text: Seq<char>) -> bool {
        exists|detail: Seq<char>| #[trigger]
            self.payload_renders_as(detail) && text == self.message_with(detail)
    }

    /// The body of the response that reports the failure.
    pub open spec fn response_body(self, text: Seq<char>) -> bool {
        exists|message: Seq<char>| #[trigger]
            self.renders_as(message) && text == "App error: "@ + message
    }
}

/// A failure is of the token lifecycle exactly when it concerns the access
/// token or the refresh token, and it never concerns both.
pub proof fn lemma_auth_error_is_either_token_error(e: AppErrorView)
    ensures
        e.is_auth_error() <==> (e.is_access_token_error() || e.is_refresh_token_error()),
        !(e.is_access_token_error() && e.is_refresh_token_error()),
{
}

/// Every failure is either of the token lifecycle or retryable, and none is
/// both.
pub proof fn lemma_retryable_is_not_auth_error(e: AppErrorView)
    ensures
        e.is_retryable() == !e.is_auth_error(),
{
}

/// A failure whose payload is the library's own has one message only.
pub proof fn lemma_message_is_unique(e: AppErrorView, first: Seq<char>, second: Seq<char>)
    requires
        !e.has_outside_payload(),
        e.renders_as(first),
        e.renders_as(second),
    ensures
        first == second,
        first == e.message(),
{
}

impl AppError {
    /// Whether the failure concerns the access token.
    pub fn is_access_token_error(&self) -> (r: bool)
        ensures
            r == self@.is_access_token_error(),
    {
        matches!(
            self,
            AppError::AccessTokenRequired | AppError::AccessTokenExpired
                | AppError::AccessTokenInvalid
        )
    }

    /// Whether the failure concerns the refresh token.
    pub fn is_refresh_token_error(&self) -> (r: bool)
        ensures
            r == self@.is_refresh_token_error(),
    {
        matches!(
            self,
            AppError::RefreshTokenExpired | AppError::RefreshTokenInvalid
                | AppError::RefreshTokenRevoked
        )
    }

    /// Whether the failure is one of the six of the token lifecycle, after
    /// which the caller has to authenticate again.
    pub fn is_auth_error(&self) -> (r: bool)
        ensures
            r == self@.is_auth_error(),
            r == (self@.is_access_token_error() || self@.is_refresh_token_error()),
    {
        matches!(
            self,
            AppError::AccessTokenRequired | AppError::AccessTokenExpired
                | AppError::AccessTokenInvalid | AppError::RefreshTokenExpired
                | AppError::RefreshTokenInvalid | AppError::RefreshTokenRevoked
        )
    }

    /// Whether the operation may be tried again as it is: exactly when the
    /// failure is none of the token lifecycle.
    pub fn is_retryable(&self) -> (r: bool)
        ensures
            r == self@.is_retryable(),
            r == !self@.is_auth_error(),
    {
        !self.is_auth_error()
    }

    /// The human-readable message of the failure, with `detail` in the place
    /// of a payload that another crate renders.
    pub fn render_with(&self, detail: &str) -> (r: String)
        ensures
            r@ == self@.message_with(detail@),
    {
        match self {
            AppError::NotConnected => String::from_str("Not connected to the network"),
            AppError::UnauthorizedAction { action, id, description: _ } => {
                let mut text = prefixed("Unauthorized action: ", action.as_str());
                text.append(" on ");
                text.append(render_uuid(*id).as_str());
                text
            },
            AppError::NotFound { name, id } => {
                let mut text = prefixed("Not found: ", name.as_str());
                text.append(" on ");
                text.append(render_uuid(*id).as_str());
                text
            },
            AppError::AlreadyDeleted { name, id } => {
                let mut text = prefixed("Already deleted: ", name.as_str());
                text.append(" on ");
                text.append(render_uuid(*id).as_str());
                text
            },
            AppError::AccessTokenRequired => String::from_str("An access token is required"),
            AppError::AccessTokenExpired => String::from_str("Access token expired"),
            AppError::AccessTokenInvalid => String::from_str("Access token invalid"),
            AppError::RefreshTokenExpired => String::from_str("Refresh token expired"),
            AppError::RefreshTokenInvalid => String::from_str("Refresh token invalid"),
            AppError::RefreshTokenRevoked => String::from_str("Refresh token revoked"),
            AppError::UsernameNotAssociatedWithActor { username } => prefixed(
                "Username not associated with an actor: ",
                username.as_str(),
            ),
            AppError::UsernameNotAvailable { username } => prefixed(
                "Username not available: ",
                username.as_str(),
            ),
            AppError::UserNotFound { id } => prefixed(
                "User not found: ",
                render_uuid(*id).as_str(),
            ),
            AppError::RegistrationChallengeNotFound => String::from_str(
                "Registration challenge not found",
            ),
            AppError::RegistrationChallengeExpired => String::from_str(
                "Registration challenge expired",
            ),
            AppError::RegistrationChallengeInvalid => String::from_str(
                "Registration challenge invalid",
            ),
            AppError::MissingContext => String::from_str("Missing context"),
            AppError::EnvMissing { variable } => prefixed(
                "Environment variable missing: ",
                variable.as_str(),
            ),
            AppError::EnvInvalid { variable } => prefixed(
                "Environment variable invalid: ",
                variable.as_str(),
            ),
            AppError::Db(kind) => prefixed("Database error: ", kind.render().as_str()),
            AppError::Serde(m) => prefixed("Serde: ", m.as_str()),
            AppError::Json(m) => prefixed("Json: ", m.as_str()),
            AppError::Request(m) => prefixed("Request: ", m.as_str()),
            AppError::Jwt(m) => prefixed("JWT: ", m.as_str()),
            AppError::Webauthn(m) => prefixed("Webauthn: ", m.as_str()),
            AppError::Validation(_) => prefixed("Validation errors: ", detail),
            AppError::ServerFn(_) => prefixed("ServerFnError: ", detail),
            AppError::Other(m) => prefixed("Other error: ", m.as_str()),
            AppError::Hidden => String::from_str("Error hidden from client"),
        }
    }

    /// The human-readable message of the failure.
    pub fn render(&self) -> (r: String)
        ensures
            self@.renders_as(r@),
            !self@.has_outside_payload() ==> r@ == self@.message(),
    {
        match self {
            AppError::Validation(errors) => {
                let detail = errors.to_string();
                proof {
                    assert(self@.payload_renders_as(detail@));
                }
                self.render_with(detail.as_str())
            },
            AppError::ServerFn(failure) => {
                let detail = failure.to_string();
                proof {
                    assert(self@.payload_renders_as(detail@));
                }
                self.render_with(detail.as_str())
            },
            _ => {
                proof {
                    assert(self@.payload_renders_as(""@));
                }
                self.render_with("")
            },
        }
    }

    /// The status code and the body of the response that reports the
    /// failure: an internal server error that quotes the message.
    pub fn into_response_parts(&self) -> (r: (u16, String))
        ensures
            r.0 == 500,
            self@.response_body(r.1@),
    {
        let message = self.render();
        (internal_server_error_code(), prefixed("App error: ", message.as_str()))
    }
}

} // verus!
