//! What this library takes from other crates. Their failure types and
//! handles are carried as opaque values: the library reads nothing inside
//! them, asks a failure only for its rendered text, and hands a handle on.
//! The few calls into other crates that are not made on such a value stand
//! here too, each behind a contract that is taken on trust.

use std::fmt::Display;
use vstd::prelude::*;
use vstd::string::to_string_from_display_ensures;

verus! {

/// `text` is what `value` renders to through its `Display`.
pub open spec fn displays_as<T: Display>(value: T, text: Seq<char>) -> bool {
    exists|rendered: String| #[trigger]
        to_string_from_display_ensures::<T>(&value, rendered) && rendered@ == text
}

/// `anyhow::Error`: a chained, contextual failure.
#[verifier::external_type_specification]
#[verifier::external_body]
pub struct ExAnyhowError(anyhow::Error);

/// `serde_json::Error`: a JSON reading or writing failure.
#[verifier::external_type_specification]
#[verifier::external_body]
pub struct ExJsonError(serde_json::Error);

/// `argon2::password_hash::Error`: a password hashing failure.
#[verifier::external_type_specification]
#[verifier::external_body]
pub struct ExPasswordHashError(argon2::password_hash::Error);

/// `aes_gcm_siv::aead::Error`: an authenticated-encryption failure.
#[verifier::external_type_specification]
#[verifier::external_body]
pub struct ExAeadError(aes_gcm_siv::aead::Error);

/// `welds::WeldsError`: a failure of the storage layer.
#[verifier::external_type_specification]
#[verifier::external_body]
pub struct ExWeldsError(welds::WeldsError);

/// `welds::connections::Error`: a failure of the connection to the storage
/// layer.
#[verifier::external_type_specification]
#[verifier::external_body]
pub struct ExWeldsConnectionError(welds::connections::Error);

/// `welds::connections::sqlite::SqliteClient`: a pooled connection to a
/// SQLite database.
#[verifier::external_type_specification]
#[verifier::external_body]
pub struct ExSqliteClient(welds::connections::sqlite::SqliteClient);

/// `welds::connections::Transaction`: an open transaction, which borrows the
/// connection that began it.
#[verifier::external_type_specification]
#[verifier::external_body]
pub struct ExTransaction<'t>(welds::connections::Transaction<'t>);

/// `sqlx::migrate::MigrateError`: a schema migration failure.
#[verifier::external_type_specification]
#[verifier::external_body]
pub struct ExMigrateError(sqlx::migrate::MigrateError);

/// `std::io::Error`: a file or other I/O failure.
#[verifier::external_type_specification]
#[verifier::external_body]
pub struct ExIoError(std::io::Error);

/// `leptos::config::errors::LeptosConfigError`: a failure to read the
/// configuration of the service.
#[verifier::external_type_specification]
#[verifier::external_body]
pub struct ExLeptosConfigError(leptos::config::errors::LeptosConfigError);

/// `reqwest::Error`: an outbound HTTP failure.
#[verifier::external_type_specification]
#[verifier::external_body]
pub struct ExRequestError(reqwest::Error);

/// `webauthn_rs_core::error::WebauthnError`: a credential-protocol failure.
#[verifier::external_type_specification]
#[verifier::external_body]
pub struct ExWebauthnError(webauthn_rs_core::error::WebauthnError);

/// `jsonwebtoken::errors::Error`: a token encoding or decoding failure.
#[verifier::external_type_specification]
#[verifier::external_body]
pub struct ExJwtError(jsonwebtoken::errors::Error);

/// `validator::ValidationErrors`: the field-level findings of a validation.
#[verifier::external_type_specification]
#[verifier::external_body]
pub struct ExValidationErrors(validator::ValidationErrors);

/// `server_fn::error::ServerFnErrorErr`: a remote-procedure transport
/// failure.
#[verifier::external_type_specification]
#[verifier::external_body]
pub struct ExServerFnErrorErr(server_fn::error::ServerFnErrorErr);

/// `server_fn::error::ServerFnError`: the older remote-procedure failure
/// type, which may wrap a caller's own error.
#[verifier::external_type_specification]
#[verifier::external_body]
#[verifier::reject_recursive_types(E)]
pub struct ExServerFnError<E>(server_fn::error::ServerFnError<E>);

/// `server_fn::error::NoCustomError`: the caller's error of a
/// `ServerFnError` that wraps none.
#[verifier::external_type_specification]
#[verifier::external_body]
pub struct ExNoCustomError(server_fn::error::NoCustomError);

/// The clone that `validator::ValidationErrors` derives holds what the
/// value it was made from holds.
pub assume_specification[ <validator::ValidationErrors as Clone>::clone ](
    errors: &validator::ValidationErrors,
) -> (r: validator::ValidationErrors)
    ensures
        r == *errors,
;

/// The clone that `server_fn::error::ServerFnErrorErr` derives holds what
/// the value it was made from holds.
pub assume_specification[ <server_fn::error::ServerFnErrorErr as Clone>::clone ](
    failure: &server_fn::error::ServerFnErrorErr,
) -> (r: server_fn::error::ServerFnErrorErr)
    ensures
        r == *failure,
;

/// Compares two string slices with `str`'s own `==`, which holds exactly
/// when both hold the same characters.
#[verifier::external_body]
pub(crate) fn same_text(a: &str, b: &str) -> (r: bool)
    ensures
        r == (a@ == b@),
{
    a == b
}

/// Reads the number of `http::StatusCode::INTERNAL_SERVER_ERROR`, which the
/// crate defines as 500.
#[verifier::external_body]
pub(crate) fn internal_server_error_code() -> (r: u16)
    ensures
        r == 500,
{
    http::StatusCode::INTERNAL_SERVER_ERROR.as_u16()
}

} // verus!
