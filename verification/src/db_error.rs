//! Failures of the storage layer, classified and rendered to text at the
//! point of capture.

use vstd::prelude::*;
use crate::outside::displays_as;

verus! {

/// A failure of the storage layer. Every payload but that of
/// [`DbError::ModelNotFound`] is diagnostic text that was rendered when the
/// failure was captured.
#[derive(Debug, PartialEq, Eq)]
pub enum DbError {
    /// No database handle was published to the running request.
    MissingContext,
    /// Hashing or checking a password failed.
    PasswordHash(String),
    /// Encrypting or decrypting failed.
    Encryption(String),
    /// A key pair could not be made or read.
    Keypair(String),
    /// The storage layer failed.
    Welds(String),
    /// The connection to the storage layer failed.
    WeldsConnection(String),
    /// A schema migration failed.
    Migration(String),
    /// A stored value has another type than the one asked for.
    TypeMismatch,
    /// Data that the operation needs is not there.
    NotFound,
    /// No record of `model` has the identity `id`.
    ModelNotFound { model: String, id: String },
    /// Reading or writing a file failed.
    File(String),
    /// Any other failure, with its cause.
    Other(String),
    /// Reading or writing JSON failed.
    Json(String),
}

impl Clone for DbError {
    /// A copy that holds what `self` holds.
    fn clone(&self) -> (r: DbError)
        ensures
            r == *self,
    {
        match self {
            DbError::MissingContext => DbError::MissingContext,
            DbError::PasswordHash(m) => DbError::PasswordHash(m.clone()),
            DbError::Encryption(m) => DbError::Encryption(m.clone()),
            DbError::Keypair(m) => DbError::Keypair(m.clone()),
            DbError::Welds(m) => DbError::Welds(m.clone()),
            DbError::WeldsConnection(m) => DbError::WeldsConnection(m.clone()),
            DbError::Migration(m) => DbError::Migration(m.clone()),
            DbError::TypeMismatch => DbError::TypeMismatch,
            DbError::NotFound => DbError::NotFound,
            DbError::ModelNotFound { model, id } => DbError::ModelNotFound {
                model: model.clone(),
                id: id.clone(),
            },
            DbError::File(m) => DbError::File(m.clone()),
            DbError::Other(m) => DbError::Other(m.clone()),
            DbError::Json(m) => DbError::Json(m.clone()),
        }
    }
}

/// The result of a storage operation.
pub type DbResult<T> = Result<T, DbError>;

/// What a [`DbError`] holds, with each text as a sequence of characters.
pub ghost enum DbErrorView {
    MissingContext,
    PasswordHash(Seq<char>),
    Encryption(Seq<char>),
    Keypair(Seq<char>),
    Welds(Seq<char>),
    WeldsConnection(Seq<char>),
    Migration(Seq<char>),
    TypeMismatch,
    NotFound,
    ModelNotFound { model: Seq<char>, id: Seq<char> },
    File(Seq<char>),
    Other(Seq<char>),
    Json(Seq<char>),
}

impl View for DbError {
    type V = DbErrorView;

    open spec fn view(&self) -> DbErrorView {
        match *self {
            DbError::MissingContext => DbErrorView::MissingContext,
            DbError::PasswordHash(m) => DbErrorView::PasswordHash(m@),
            DbError::Encryption(m) => DbErrorView::Encryption(m@),
            DbError::Keypair(m) => DbErrorView::Keypair(m@),
            DbError::Welds(m) => DbErrorView::Welds(m@),
            DbError::WeldsConnection(m) => DbErrorView::WeldsConnection(m@),
            DbError::Migration(m) => DbErrorView::Migration(m@),
            DbError::TypeMismatch => DbErrorView::TypeMismatch,
            DbError::NotFound => DbErrorView::NotFound,
            DbError::ModelNotFound { model, id } => DbErrorView::ModelNotFound {
                model: model@,
                id: id@,
            },
            DbError::File(m) => DbErrorView::File(m@),
            DbError::Other(m) => DbErrorView::Other(m@),
            DbError::Json(m) => DbErrorView::Json(m@),
        }
    }
}

impl DbErrorView {
    /// The human-readable message of the failure.
    pub open spec fn message(self) -> Seq<char> {
        match self {
            DbErrorView::MissingContext => "Missing context"@,
            DbErrorView::PasswordHash(m) => "Password: "@ + m,
            DbErrorView::Encryption(m) => "Encryption: "@ + m,
            DbErrorView::Keypair(m) => "Keypair: "@ + m,
            DbErrorView::Welds(m) => "Welds: "@ + m,
            DbErrorView::WeldsConnection(m) => "Welds: "@ + m,
            DbErrorView::Migration(m) => "Migration: "@ + m,
            DbErrorView::TypeMismatch => "Type mismatch"@,
            DbErrorView::NotFound => "Required data not found"@,
            DbErrorView::ModelNotFound { model, id } => "`"@ + model + "` with id: `"@ + id
                + "` not found"@,
            DbErrorView::File(m) => "File: "@ + m,
            DbErrorView::Other(m) => "Other: "@ + m,
            DbErrorView::Json(m) => "JSON: "@ + m,
        }
    }
}

/// `prefix` followed by `detail`.
pub(crate) fn prefixed(prefix: &str, detail: &str) -> (r: String)
    ensures
        r@ == prefix@ + detail@,
{
    let mut text = String::from_str(prefix);
    text.append(detail);
    text
}

impl DbError {
    /// The human-readable message of the failure.
    pub fn render(&self) -> (r: String)
        ensures
            r@ == self@.message(),
    {
        match self {
            DbError::MissingContext => String::from_str("Missing context"),
            DbError::PasswordHash(m) => prefixed("Password: ", m.as_str()),
            DbError::Encryption(m) => prefixed("Encryption: ", m.as_str()),
            DbError::Keypair(m) => prefixed("Keypair: ", m.as_str()),
            DbError::Welds(m) => prefixed("Welds: ", m.as_str()),
            DbError::WeldsConnection(m) => prefixed("Welds: ", m.as_str()),
            DbError::Migration(m) => prefixed("Migration: ", m.as_str()),
            DbError::TypeMismatch => String::from_str("Type mismatch"),
            DbError::NotFound => String::from_str("Required data not found"),
            DbError::ModelNotFound { model, id } => {
                let mut text = prefixed("`", model.as_str());
                text.append("` with id: `");
                text.append(id.as_str());
                text.append("` not found");
                text
            },
            DbError::File(m) => prefixed("File: ", m.as_str()),
            DbError::Other(m) => prefixed("Other: ", m.as_str()),
            DbError::Json(m) => prefixed("JSON: ", m.as_str()),
        }
    }

    /// A password hashing failure becomes [`DbError::PasswordHash`] with the
    /// failure's own text.
    pub fn from_password_hash_error(value: argon2::password_hash::Error) -> (r: DbError)
        ensures
            r matches DbError::PasswordHash(m) && displays_as(value, m@),
    {
        DbError::PasswordHash(value.to_string())
    }

    /// An encryption failure becomes [`DbError::Encryption`] with the
    /// failure's own text.
    pub fn from_encryption_error(value: aes_gcm_siv::aead::Error) -> (r: DbError)
        ensures
            r matches DbError::Encryption(m) && displays_as(value, m@),
    {
        DbError::Encryption(value.to_string())
    }

    /// A failure of the storage layer becomes [`DbError::Welds`] with the
    /// failure's own text.
    pub fn from_welds_error(value: welds::WeldsError) -> (r: DbError)
        ensures
            r matches DbError::Welds(m) && displays_as(value, m@),
    {
        DbError::Welds(value.to_string())
    }

    /// A failure of the connection to the storage layer becomes
    /// [`DbError::WeldsConnection`] with the failure's own text.
    pub fn from_welds_connection_error(value: welds::connections::Error) -> (r: DbError)
        ensures
            r matches DbError::WeldsConnection(m) && displays_as(value, m@),
    {
        DbError::WeldsConnection(value.to_string())
    }

    /// A migration failure becomes [`DbError::Migration`] with the failure's
    /// own text.
    pub fn from_migrate_error(value: sqlx::migrate::MigrateError) -> (r: DbError)
        ensures
            r matches DbError::Migration(m) && displays_as(value, m@),
    {
        DbError::Migration(value.to_string())
    }

    /// An I/O failure becomes [`DbError::File`] with the failure's own text.
    pub fn from_io_error(value: std::io::Error) -> (r: DbError)
        ensures
            r matches DbError::File(m) && displays_as(value, m@),
    {
        DbError::File(value.to_string())
    }

    /// A contextual failure becomes [`DbError::Other`] with the text of its
    /// outermost cause.
    pub fn from_anyhow(value: anyhow::Error) -> (r: DbError)
        ensures
            r matches DbError::Other(m) && displays_as(value, m@),
    {
        DbError::Other(value.to_string())
    }

    /// A JSON failure becomes [`DbError::Json`] with the failure's own text.
    pub fn from_json_error(value: serde_json::Error) -> (r: DbError)
        ensures
            r matches DbError::Json(m) && displays_as(value, m@),
    {
        DbError::Json(value.to_string())
    }
}

} // verus!
