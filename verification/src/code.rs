//! The discriminants of [`AppError`]: which variant a failure is, apart from
//! what it carries. Each has a stable snake-case name, the tag by which the
//! two tiers tell the variants apart on the wire.

use crate::app_error::{AppError, AppErrorView};
use crate::outside::same_text;
use vstd::prelude::*;

verus! {

/// Which variant an [`AppError`] is.
#[derive(Clone, Copy, Debug, PartialEq, Eq, Hash, Structural)]
pub enum AppErrorCode {
    NotConnected,
    UnauthorizedAction,
    NotFound,
    AlreadyDeleted,
    AccessTokenRequired,
    AccessTokenExpired,
    AccessTokenInvalid,
    RefreshTokenExpired,
    RefreshTokenInvalid,
    RefreshTokenRevoked,
    UsernameNotAssociatedWithActor,
    UsernameNotAvailable,
    UserNotFound,
    RegistrationChallengeNotFound,
    RegistrationChallengeExpired,
    RegistrationChallengeInvalid,
    MissingContext,
    EnvMissing,
    EnvInvalid,
    Db,
    Serde,
    Json,
    Request,
    Jwt,
    Webauthn,
    Validation,
    ServerFn,
    Other,
    Hidden,
}

impl AppErrorView {
    /// The discriminant of the failure.
    pub open spec fn code(self) -> AppErrorCode {
        match self {
            AppErrorView::NotConnected => AppErrorCode::NotConnected,
            AppErrorView::UnauthorizedAction { .. } => AppErrorCode::UnauthorizedAction,
            AppErrorView::NotFound { .. } => AppErrorCode::NotFound,
            AppErrorView::AlreadyDeleted { .. } => AppErrorCode::AlreadyDeleted,
            AppErrorView::AccessTokenRequired => AppErrorCode::AccessTokenRequired,
            AppErrorView::AccessTokenExpired => AppErrorCode::AccessTokenExpired,
            AppErrorView::AccessTokenInvalid => AppErrorCode::AccessTokenInvalid,
            AppErrorView::RefreshTokenExpired => AppErrorCode::RefreshTokenExpired,
            AppErrorView::RefreshTokenInvalid => AppErrorCode::RefreshTokenInvalid,
            AppErrorView::RefreshTokenRevoked => AppErrorCode::RefreshTokenRevoked,
            AppErrorView::UsernameNotAssociatedWithActor { .. } => {
                AppErrorCode::UsernameNotAssociatedWithActor
            },
            AppErrorView::UsernameNotAvailable { .. } => AppErrorCode::UsernameNotAvailable,
            AppErrorView::UserNotFound { .. } => AppErrorCode::UserNotFound,
            AppErrorView::RegistrationChallengeNotFound => {
                AppErrorCode::RegistrationChallengeNotFound
            },
            AppErrorView::RegistrationChallengeExpired => {
                AppErrorCode::RegistrationChallengeExpired
            },
            AppErrorView::RegistrationChallengeInvalid => {
                AppErrorCode::RegistrationChallengeInvalid
            },
            AppErrorView::MissingContext => AppErrorCode::MissingContext,
            AppErrorView::EnvMissing { .. } => AppErrorCode::EnvMissing,
            AppErrorView::EnvInvalid { .. } => AppErrorCode::EnvInvalid,
            AppErrorView::Db(_) => AppErrorCode::Db,
            AppErrorView::Serde(_) => AppErrorCode::Serde,
            AppErrorView::Json(_) => AppErrorCode::Json,
            AppErrorView::Request(_) => AppErrorCode::Request,
            AppErrorView::Jwt(_) => AppErrorCode::Jwt,
            AppErrorView::Webauthn(_) => AppErrorCode::Webauthn,
            AppErrorView::Validation(_) => AppErrorCode::Validation,
            AppErrorView::ServerFn(_) => AppErrorCode::ServerFn,
            AppErrorView::Other(_) => AppErrorCode::Other,
            AppErrorView::Hidden => AppErrorCode::Hidden,
        }
    }
}

impl AppError {
    /// The discriminant of the failure.
    pub fn code(&self) -> (r: AppErrorCode)
        ensures
            r == self@.code(),
    {
        match self {
            AppError::NotConnected => AppErrorCode::NotConnected,
            AppError::UnauthorizedAction { .. } => AppErrorCode::UnauthorizedAction,
            AppError::NotFound { .. } => AppErrorCode::NotFound,
            AppError::AlreadyDeleted { .. } => AppErrorCode::AlreadyDeleted,
            AppError::AccessTokenRequired => AppErrorCode::AccessTokenRequired,
            AppError::AccessTokenExpired => AppErrorCode::AccessTokenExpired,
            AppError::AccessTokenInvalid => AppErrorCode::AccessTokenInvalid,
            AppError::RefreshTokenExpired => AppErrorCode::RefreshTokenExpired,
            AppError::RefreshTokenInvalid => AppErrorCode::RefreshTokenInvalid,
            AppError::RefreshTokenRevoked => AppErrorCode::RefreshTokenRevoked,
            AppError::UsernameNotAssociatedWithActor { .. } => {
                AppErrorCode::UsernameNotAssociatedWithActor
            },
            AppError::UsernameNotAvailable { .. } => AppErrorCode::UsernameNotAvailable,
            AppError::UserNotFound { .. } => AppErrorCode::UserNotFound,
            AppError::RegistrationChallengeNotFound => AppErrorCode::RegistrationChallengeNotFound,
            AppError::RegistrationChallengeExpired => AppErrorCode::RegistrationChallengeExpired,
            AppError::RegistrationChallengeInvalid => AppErrorCode::RegistrationChallengeInvalid,
            AppError::MissingContext => AppErrorCode::MissingContext,
            AppError::EnvMissing { .. } => AppErrorCode::EnvMissing,
            AppError::EnvInvalid { .. } => AppErrorCode::EnvInvalid,
            AppError::Db(_) => AppErrorCode::Db,
            AppError::Serde(_) => AppErrorCode::Serde,
            AppError::Json(_) => AppErrorCode::Json,
            AppError::Request(_) => AppErrorCode::Request,
            AppError::Jwt(_) => AppErrorCode::Jwt,
            AppError::Webauthn(_) => AppErrorCode::Webauthn,
            AppError::Validation(_) => AppErrorCode::Validation,
            AppError::ServerFn(_) => AppErrorCode::ServerFn,
            AppError::Other(_) => AppErrorCode::Other,
            AppError::Hidden => AppErrorCode::Hidden,
        }
    }
}

impl AppErrorCode {
    /// The snake-case name of the discriminant.
    pub open spec fn name(self) -> Seq<char> {
        match self {
            AppErrorCode::NotConnected => "not_connected"@,
            AppErrorCode::UnauthorizedAction => "unauthorized_action"@,
            AppErrorCode::NotFound => "not_found"@,
            AppErrorCode::AlreadyDeleted => "already_deleted"@,
            AppErrorCode::AccessTokenRequired => "access_token_required"@,
            AppErrorCode::AccessTokenExpired => "access_token_expired"@,
            AppErrorCode::AccessTokenInvalid => "access_token_invalid"@,
            AppErrorCode::RefreshTokenExpired => "refresh_token_expired"@,
            AppErrorCode::RefreshTokenInvalid => "refresh_token_invalid"@,
            AppErrorCode::RefreshTokenRevoked => "refresh_token_revoked"@,
            AppErrorCode::UsernameNotAssociatedWithActor => "username_not_associated_with_actor"@,
            AppErrorCode::UsernameNotAvailable => "username_not_available"@,
            AppErrorCode::UserNotFound => "user_not_found"@,
            AppErrorCode::RegistrationChallengeNotFound => "registration_challenge_not_found"@,
            AppErrorCode::RegistrationChallengeExpired => "registration_challenge_expired"@,
            AppErrorCode::RegistrationChallengeInvalid => "registration_challenge_invalid"@,
            AppErrorCode::MissingContext => "missing_context"@,
            AppErrorCode::EnvMissing => "env_missing"@,
            AppErrorCode::EnvInvalid => "env_invalid"@,
            AppErrorCode::Db => "db"@,
            AppErrorCode::Serde => "serde"@,
            AppErrorCode::Json => "json"@,
            AppErrorCode::Request => "request"@,
            AppErrorCode::Jwt => "jwt"@,
            AppErrorCode::Webauthn => "webauthn"@,
            AppErrorCode::Validation => "validation"@,
            AppErrorCode::ServerFn => "server_fn"@,
            AppErrorCode::Other => "other"@,
            AppErrorCode::Hidden => "hidden"@,
        }
    }

    /// The discriminant whose name is `text`, if there is one.
    pub open spec fn named(text: Seq<char>) -> Option<AppErrorCode> {
        if exists|code: AppErrorCode| #[trigger] code.name() == text {
            Some(choose|code: AppErrorCode| #[trigger] code.name() == text)
        } else {
            None
        }
    }

    /// The snake-case name of the discriminant.
    pub fn as_str(&self) -> (r: &'static str)
        ensures
            r@ == self.name(),
    {
        match self {
            AppErrorCode::NotConnected => "not_connected",
            AppErrorCode::UnauthorizedAction => "unauthorized_action",
            AppErrorCode::NotFound => "not_found",
            AppErrorCode::AlreadyDeleted => "already_deleted",
            AppErrorCode::AccessTokenRequired => "access_token_required",
            AppErrorCode::AccessTokenExpired => "access_token_expired",
            AppErrorCode::AccessTokenInvalid => "access_token_invalid",
            AppErrorCode::RefreshTokenExpired => "refresh_token_expired",
            AppErrorCode::RefreshTokenInvalid => "refresh_token_invalid",
            AppErrorCode::RefreshTokenRevoked => "refresh_token_revoked",
            AppErrorCode::UsernameNotAssociatedWithActor => "username_not_associated_with_actor",
            AppErrorCode::UsernameNotAvailable => "username_not_available",
            AppErrorCode::UserNotFound => "user_not_found",
            AppErrorCode::RegistrationChallengeNotFound => "registration_challenge_not_found",
            AppErrorCode::RegistrationChallengeExpired => "registration_challenge_expired",
            AppErrorCode::RegistrationChallengeInvalid => "registration_challenge_invalid",
            AppErrorCode::MissingContext => "missing_context",
            AppErrorCode::EnvMissing => "env_missing",
            AppErrorCode::EnvInvalid => "env_invalid",
            AppErrorCode::Db => "db",
            AppErrorCode::Serde => "serde",
            AppErrorCode::Json => "json",
            AppErrorCode::Request => "request",
            AppErrorCode::Jwt => "jwt",
            AppErrorCode::Webauthn => "webauthn",
            AppErrorCode::Validation => "validation",
            AppErrorCode::ServerFn => "server_fn",
            AppErrorCode::Other => "other",
            AppErrorCode::Hidden => "hidden",
        }
    }

    /// Reads a discriminant from its name. A text that names none gives
    /// `None`.
    pub fn parse(text: &str) -> (r: Option<AppErrorCode>)
        ensures
            r == AppErrorCode::named(text@),
    {
        let found = if same_text(text, "not_connected") {
            Some(AppErrorCode::NotConnected)
        } else if same_text(text, "unauthorized_action") {
            Some(AppErrorCode::UnauthorizedAction)
        } else if same_text(text, "not_found") {
            Some(AppErrorCode::NotFound)
        } else if same_text(text, "already_deleted") {
            Some(AppErrorCode::AlreadyDeleted)
        } else if same_text(text, "access_token_required") {
            Some(AppErrorCode::AccessTokenRequired)
        } else if same_text(text, "access_token_expired") {
            Some(AppErrorCode::AccessTokenExpired)
        } else if same_text(text, "access_token_invalid") {
            Some(AppErrorCode::AccessTokenInvalid)
        } else if same_text(text, "refresh_token_expired") {
            Some(AppErrorCode::RefreshTokenExpired)
        } else if same_text(text, "refresh_token_invalid") {
            Some(AppErrorCode::RefreshTokenInvalid)
        } else if same_text(text, "refresh_token_revoked") {
            Some(AppErrorCode::RefreshTokenRevoked)
        } else if same_text(text, "username_not_associated_with_actor") {
            Some(AppErrorCode::UsernameNotAssociatedWithActor)
        } else if same_text(text, "username_not_available") {
            Some(AppErrorCode::UsernameNotAvailable)
        } else if same_text(text, "user_not_found") {
            Some(AppErrorCode::UserNotFound)
        } else if same_text(text, "registration_challenge_not_found") {
            Some(AppErrorCode::RegistrationChallengeNotFound)
        } else if same_text(text, "registration_challenge_expired") {
            Some(AppErrorCode::RegistrationChallengeExpired)
        } else if same_text(text, "registration_challenge_invalid") {
            Some(AppErrorCode::RegistrationChallengeInvalid)
        } else if same_text(text, "missing_context") {
            Some(AppErrorCode::MissingContext)
        } else if same_text(text, "env_missing") {
            Some(AppErrorCode::EnvMissing)
        } else if same_text(text, "env_invalid") {
            Some(AppErrorCode::EnvInvalid)
        } else if same_text(text, "db") {
            Some(AppErrorCode::Db)
        } else if same_text(text, "serde") {
            Some(AppErrorCode::Serde)
        } else if same_text(text, "json") {
            Some(AppErrorCode::Json)
        } else if same_text(text, "request") {
            Some(AppErrorCode::Request)
        } else if same_text(text, "jwt") {
            Some(AppErrorCode::Jwt)
        } else if same_text(text, "webauthn") {
            Some(AppErrorCode::Webauthn)
        } else if same_text(text, "validation") {
            Some(AppErrorCode::Validation)
        } else if same_text(text, "server_fn") {
            Some(AppErrorCode::ServerFn)
        } else if same_text(text, "other") {
            Some(AppErrorCode::Other)
        } else if same_text(text, "hidden") {
            Some(AppErrorCode::Hidden)
        } else {
            None
        };
        proof {
            match found {
                Some(code) => {
                    assert(code.name() == text@);
                    let chosen = choose|other: AppErrorCode| #[trigger] other.name() == text@;
                    if chosen != code {
                        lemma_names_are_distinct(chosen, code);
                    }
                },
                None => {
                    assert forall|code: AppErrorCode| #[trigger] code.name() != text@ by {
                        lemma_name_is_listed(code);
                    }
                },
            }
        }
        found
    }

    /// Every discriminant, each once, in the order of declaration.
    pub fn all() -> (r: Vec<AppErrorCode>)
        ensures
            r@.len() == 29,
            r@.no_duplicates(),
            forall|code: AppErrorCode| #[trigger] r@.contains(code),
    {
        let r = vec![
            AppErrorCode::NotConnected,
            AppErrorCode::UnauthorizedAction,
            AppErrorCode::NotFound,
            AppErrorCode::AlreadyDeleted,
            AppErrorCode::AccessTokenRequired,
            AppErrorCode::AccessTokenExpired,
            AppErrorCode::AccessTokenInvalid,
            AppErrorCode::RefreshTokenExpired,
            AppErrorCode::RefreshTokenInvalid,
            AppErrorCode::RefreshTokenRevoked,
            AppErrorCode::UsernameNotAssociatedWithActor,
            AppErrorCode::UsernameNotAvailable,
            AppErrorCode::UserNotFound,
            AppErrorCode::RegistrationChallengeNotFound,
            AppErrorCode::RegistrationChallengeExpired,
            AppErrorCode::RegistrationChallengeInvalid,
            AppErrorCode::MissingContext,
            AppErrorCode::EnvMissing,
            AppErrorCode::EnvInvalid,
            AppErrorCode::Db,
            AppErrorCode::Serde,
            AppErrorCode::Json,
            AppErrorCode::Request,
            AppErrorCode::Jwt,
            AppErrorCode::Webauthn,
            AppErrorCode::Validation,
            AppErrorCode::ServerFn,
            AppErrorCode::Other,
            AppErrorCode::Hidden,
        ];
        proof {
            assert forall|code: AppErrorCode| #[trigger] r@.contains(code) by {
                let i = code.position();
                assert(r@[i] == code);
            }
        }
        r
    }

    /// The place of the discriminant in the order of declaration.
    pub open spec fn position(self) -> int {
        match self {
            AppErrorCode::NotConnected => 0,
            AppErrorCode::UnauthorizedAction => 1,
            AppErrorCode::NotFound => 2,
            AppErrorCode::AlreadyDeleted => 3,
            AppErrorCode::AccessTokenRequired => 4,
            AppErrorCode::AccessTokenExpired => 5,
            AppErrorCode::AccessTokenInvalid => 6,
            AppErrorCode::RefreshTokenExpired => 7,
            AppErrorCode::RefreshTokenInvalid => 8,
            AppErrorCode::RefreshTokenRevoked => 9,
            AppErrorCode::UsernameNotAssociatedWithActor => 10,
            AppErrorCode::UsernameNotAvailable => 11,
            AppErrorCode::UserNotFound => 12,
            AppErrorCode::RegistrationChallengeNotFound => 13,
            AppErrorCode::RegistrationChallengeExpired => 14,
            AppErrorCode::RegistrationChallengeInvalid => 15,
            AppErrorCode::MissingContext => 16,
            AppErrorCode::EnvMissing => 17,
            AppErrorCode::EnvInvalid => 18,
            AppErrorCode::Db => 19,
            AppErrorCode::Serde => 20,
            AppErrorCode::Json => 21,
            AppErrorCode::Request => 22,
            AppErrorCode::Jwt => 23,
            AppErrorCode::Webauthn => 24,
            AppErrorCode::Validation => 25,
            AppErrorCode::ServerFn => 26,
            AppErrorCode::Other => 27,
            AppErrorCode::Hidden => 28,
        }
    }
}

/// The name of a discriminant is one of the listed literals.
proof fn lemma_name_is_listed(code: AppErrorCode)
    ensures
        code.name() == "not_connected"@
            || code.name() == "unauthorized_action"@
            || code.name() == "not_found"@
            || code.name() == "already_deleted"@
            || code.name() == "access_token_required"@
            || code.name() == "access_token_expired"@
            || code.name() == "access_token_invalid"@
            || code.name() == "refresh_token_expired"@
            || code.name() == "refresh_token_invalid"@
            || code.name() == "refresh_token_revoked"@
            || code.name() == "username_not_associated_with_actor"@
            || code.name() == "username_not_available"@
            || code.name() == "user_not_found"@
            || code.name() == "registration_challenge_not_found"@
            || code.name() == "registration_challenge_expired"@
            || code.name() == "registration_challenge_invalid"@
            || code.name() == "missing_context"@
            || code.name() == "env_missing"@
            || code.name() == "env_invalid"@
            || code.name() == "db"@
            || code.name() == "serde"@
            || code.name() == "json"@
            || code.name() == "request"@
            || code.name() == "jwt"@
            || code.name() == "webauthn"@
            || code.name() == "validation"@
            || code.name() == "server_fn"@
            || code.name() == "other"@
            || code.name() == "hidden"@,
{
}

/// No two discriminants share a name.
pub proof fn lemma_names_are_distinct(a: AppErrorCode, b: AppErrorCode)
    requires
        a != b,
    ensures
        a.name() != b.name(),
{
    reveal_strlit("not_connected");
    reveal_strlit("unauthorized_action");
    reveal_strlit("not_found");
    reveal_strlit("already_deleted");
    reveal_strlit("access_token_required");
    reveal_strlit("access_token_expired");
    reveal_strlit("access_token_invalid");
    reveal_strlit("refresh_token_expired");
    reveal_strlit("refresh_token_invalid");
    reveal_strlit("refresh_token_revoked");
    reveal_strlit("username_not_associated_with_actor");
    reveal_strlit("username_not_available");
    reveal_strlit("user_not_found");
    reveal_strlit("registration_challenge_not_found");
    reveal_strlit("registration_challenge_expired");
    reveal_strlit("registration_challenge_invalid");
    reveal_strlit("missing_context");
    reveal_strlit("env_missing");
    reveal_strlit("env_invalid");
    reveal_strlit("db");
    reveal_strlit("serde");
    reveal_strlit("json");
    reveal_strlit("request");
    reveal_strlit("jwt");
    reveal_strlit("webauthn");
    reveal_strlit("validation");
    reveal_strlit("server_fn");
    reveal_strlit("other");
    reveal_strlit("hidden");
    let x = a.name();
    let y = b.name();
    // Names of one length differ in their character at place 4, 14 or 23.
    assert(x.len() != y.len() || (x.len() > 4 && x[4] != y[4]) || (x.len() > 14 && x[14]
        != y[14]) || (x.len() > 23 && x[23] != y[23]));
}

/// Reading the name of a discriminant gives the discriminant back.
pub proof fn lemma_name_round_trip(code: AppErrorCode)
    ensures
        AppErrorCode::named(code.name()) == Some(code),
{
    let chosen = choose|other: AppErrorCode| #[trigger] other.name() == code.name();
    if chosen != code {
        lemma_names_are_distinct(chosen, code);
    }
}

/// A text names at most one discriminant, and that one bears it.
pub proof fn lemma_named_is_exact(text: Seq<char>, code: AppErrorCode)
    ensures
        AppErrorCode::named(text) == Some(code) <==> code.name() == text,
{
    if code.name() == text {
        lemma_name_round_trip(code);
    }
}

} // verus!
