use server_fn::error::ServerFnErrorErr;
use validator::{ValidationError, ValidationErrors};
use verily::app_error::AppError;
use verily::db_error::DbError;

const ID: u128 = 0xa1a2a3a4b1b2c1c2d1d2d3d4d5d6d7d8;

const ID_TEXT: &str = "a1a2a3a4-b1b2-c1c2-d1d2-d3d4d5d6d7d8";

fn text(s: &str) -> String {
    s.to_string()
}

fn findings() -> ValidationErrors {
    let mut errors = ValidationErrors::new();
    errors.add("name", ValidationError::new("length"));
    errors
}

fn every_variant() -> Vec<AppError> {
    vec![
        AppError::NotConnected,
        AppError::UnauthorizedAction { action: text("delete"), id: ID, description: text("no") },
        AppError::NotFound { name: text("user"), id: ID },
        AppError::AlreadyDeleted { name: text("user"), id: ID },
        AppError::AccessTokenRequired,
        AppError::AccessTokenExpired,
        AppError::AccessTokenInvalid,
        AppError::RefreshTokenExpired,
        AppError::RefreshTokenInvalid,
        AppError::RefreshTokenRevoked,
        AppError::UsernameNotAssociatedWithActor { username: text("ada") },
        AppError::UsernameNotAvailable { username: text("ada") },
        AppError::UserNotFound { id: ID },
        AppError::RegistrationChallengeNotFound,
        AppError::RegistrationChallengeExpired,
        AppError::RegistrationChallengeInvalid,
        AppError::MissingContext,
        AppError::EnvMissing { variable: text("DATABASE_URL") },
        AppError::EnvInvalid { variable: text("DATABASE_URL") },
        AppError::Db(DbError::NotFound),
        AppError::Serde(text("s")),
        AppError::Json(text("j")),
        AppError::Request(text("r")),
        AppError::Jwt(text("t")),
        AppError::Webauthn(text("w")),
        AppError::Validation(findings()),
        AppError::ServerFn(ServerFnErrorErr::Request(text("offline"))),
        AppError::Other(text("o")),
        AppError::Hidden,
    ]
}

#[test]
fn auth_errors_are_the_six_token_variants() {
    let all = every_variant();
    assert_eq!(all.len(), 29);
    for (i, e) in all.iter().enumerate() {
        assert_eq!(e.is_auth_error(), (4..10).contains(&i), "{e:?}");
    }
}

#[test]
fn access_token_errors_are_the_first_three() {
    for (i, e) in every_variant().iter().enumerate() {
        assert_eq!(e.is_access_token_error(), (4..7).contains(&i), "{e:?}");
    }
}

#[test]
fn refresh_token_errors_are_the_last_three() {
    for (i, e) in every_variant().iter().enumerate() {
        assert_eq!(e.is_refresh_token_error(), (7..10).contains(&i), "{e:?}");
    }
}

#[test]
fn auth_error_is_the_union_of_both_token_kinds() {
    for e in every_variant() {
        assert_eq!(e.is_auth_error(), e.is_access_token_error() || e.is_refresh_token_error());
    }
}

#[test]
fn retryable_is_the_negation_of_auth_error() {
    for e in every_variant() {
        assert_eq!(e.is_retryable(), !e.is_auth_error(), "{e:?}");
    }
    assert!(AppError::Db(DbError::NotFound).is_retryable());
    assert!(AppError::Hidden.is_retryable());
    assert!(!AppError::AccessTokenExpired.is_retryable());
    assert!(!AppError::RefreshTokenRevoked.is_retryable());
}

#[test]
fn messages_without_payload() {
    assert_eq!(AppError::NotConnected.render(), "Not connected to the network");
    assert_eq!(AppError::AccessTokenRequired.render(), "An access token is required");
    assert_eq!(AppError::AccessTokenExpired.render(), "Access token expired");
    assert_eq!(AppError::AccessTokenInvalid.render(), "Access token invalid");
    assert_eq!(AppError::RefreshTokenExpired.render(), "Refresh token expired");
    assert_eq!(AppError::RefreshTokenInvalid.render(), "Refresh token invalid");
    assert_eq!(AppError::RefreshTokenRevoked.render(), "Refresh token revoked");
    assert_eq!(
        AppError::RegistrationChallengeNotFound.render(),
        "Registration challenge not found"
    );
    assert_eq!(AppError::RegistrationChallengeExpired.render(), "Registration challenge expired");
    assert_eq!(AppError::RegistrationChallengeInvalid.render(), "Registration challenge invalid");
    assert_eq!(AppError::MissingContext.render(), "Missing context");
    assert_eq!(AppError::Hidden.render(), "Error hidden from client");
}

#[test]
fn messages_with_an_identifier_write_it_hyphenated() {
    let e = AppError::UnauthorizedAction { action: text("delete"), id: ID, description: text("no") };
    assert_eq!(e.render(), format!("Unauthorized action: delete on {ID_TEXT}"));
    let e = AppError::NotFound { name: text("user"), id: ID };
    assert_eq!(e.render(), format!("Not found: user on {ID_TEXT}"));
    let e = AppError::AlreadyDeleted { name: text("user"), id: ID };
    assert_eq!(e.render(), format!("Already deleted: user on {ID_TEXT}"));
    let e = AppError::UserNotFound { id: ID };
    assert_eq!(e.render(), format!("User not found: {ID_TEXT}"));
}

#[test]
fn identifier_text_matches_the_uuid_crate() {
    for id in [0u128, 1, 0x0123456789abcdef0123456789abcdef, u128::MAX, ID] {
        let expected = format!("User not found: {}", uuid::Uuid::from_u128(id));
        assert_eq!(AppError::UserNotFound { id }.render(), expected);
    }
    assert_eq!(
        AppError::UserNotFound { id: 0 }.render(),
        "User not found: 00000000-0000-0000-0000-000000000000"
    );
    assert_eq!(
        AppError::UserNotFound { id: 0x0123456789abcdef0123456789abcdef }.render(),
        "User not found: 01234567-89ab-cdef-0123-456789abcdef"
    );
    assert_eq!(
        AppError::UserNotFound { id: u128::MAX }.render(),
        "User not found: ffffffff-ffff-ffff-ffff-ffffffffffff"
    );
}

#[test]
fn messages_with_text_payload() {
    assert_eq!(
        AppError::UsernameNotAssociatedWithActor { username: text("ada") }.render(),
        "Username not associated with an actor: ada"
    );
    assert_eq!(
        AppError::UsernameNotAvailable { username: text("ada") }.render(),
        "Username not available: ada"
    );
    assert_eq!(
        AppError::EnvMissing { variable: text("DATABASE_URL") }.render(),
        "Environment variable missing: DATABASE_URL"
    );
    assert_eq!(
        AppError::EnvInvalid { variable: text("DATABASE_URL") }.render(),
        "Environment variable invalid: DATABASE_URL"
    );
    assert_eq!(AppError::Serde(text("x")).render(), "Serde: x");
    assert_eq!(AppError::Json(text("x")).render(), "Json: x");
    assert_eq!(AppError::Request(text("x")).render(), "Request: x");
    assert_eq!(AppError::Jwt(text("x")).render(), "JWT: x");
    assert_eq!(AppError::Webauthn(text("x")).render(), "Webauthn: x");
    assert_eq!(AppError::Other(text("disk full")).render(), "Other error: disk full");
}

#[test]
fn database_message_quotes_the_kind() {
    assert_eq!(
        AppError::Db(DbError::Migration(text("v2"))).render(),
        "Database error: Migration: v2"
    );
    assert_eq!(
        AppError::Db(DbError::MissingContext).render(),
        "Database error: Missing context"
    );
}

#[test]
fn validation_message_quotes_the_findings() {
    let expected = format!("Validation errors: {}", findings());
    assert_eq!(AppError::Validation(findings()).render(), expected);
    assert_eq!(expected, "Validation errors: name: Validation error: length [{}]");
}

#[test]
fn transport_message_quotes_the_failure() {
    let e = AppError::ServerFn(ServerFnErrorErr::Request(text("offline")));
    assert_eq!(
        e.render(),
        "ServerFnError: error reaching server to call server function: offline"
    );
}

#[test]
fn render_with_reads_the_detail_only_for_outside_payloads() {
    assert_eq!(
        AppError::Validation(findings()).render_with("name is too short"),
        "Validation errors: name is too short"
    );
    assert_eq!(
        AppError::ServerFn(ServerFnErrorErr::Args(text("a"))).render_with("bad argument"),
        "ServerFnError: bad argument"
    );
    assert_eq!(AppError::Hidden.render_with("ignored"), "Error hidden from client");
    assert_eq!(AppError::Other(text("o")).render_with("ignored"), "Other error: o");
}

#[test]
fn response_is_an_internal_server_error_with_the_message() {
    let (status, body) = AppError::NotConnected.into_response_parts();
    assert_eq!(status, 500);
    assert_eq!(status, http::StatusCode::INTERNAL_SERVER_ERROR.as_u16());
    assert_eq!(body, "App error: Not connected to the network");
    let (status, body) = AppError::Validation(findings()).into_response_parts();
    assert_eq!(status, 500);
    assert_eq!(body, "App error: Validation errors: name: Validation error: length [{}]");
}
