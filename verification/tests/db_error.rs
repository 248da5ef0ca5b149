use verily::db_error::DbError;

fn text(s: &str) -> String {
    s.to_string()
}

#[test]
fn model_not_found_message_names_model_and_id() {
    let e = DbError::ModelNotFound { model: text("user"), id: text("42") };
    assert_eq!(e.render(), "`user` with id: `42` not found");
}

#[test]
fn storage_messages_without_payload() {
    assert_eq!(DbError::MissingContext.render(), "Missing context");
    assert_eq!(DbError::TypeMismatch.render(), "Type mismatch");
    assert_eq!(DbError::NotFound.render(), "Required data not found");
}

#[test]
fn storage_messages_with_text_payload() {
    assert_eq!(DbError::PasswordHash(text("weak")).render(), "Password: weak");
    assert_eq!(DbError::Encryption(text("bad key")).render(), "Encryption: bad key");
    assert_eq!(DbError::Keypair(text("short")).render(), "Keypair: short");
    assert_eq!(DbError::Welds(text("no row")).render(), "Welds: no row");
    assert_eq!(DbError::WeldsConnection(text("refused")).render(), "Welds: refused");
    assert_eq!(DbError::Migration(text("v2")).render(), "Migration: v2");
    assert_eq!(DbError::File(text("gone")).render(), "File: gone");
    assert_eq!(DbError::Other(text("disk full")).render(), "Other: disk full");
    assert_eq!(DbError::Json(text("eof")).render(), "JSON: eof");
}

#[test]
fn message_with_empty_payload_is_the_prefix() {
    assert_eq!(DbError::Other(String::new()).render(), "Other: ");
}

#[test]
fn password_hash_failure_is_classified() {
    let failure = argon2::password_hash::Error::PasswordInvalid;
    let expected = failure.to_string();
    assert!(!expected.is_empty());
    assert_eq!(DbError::from_password_hash_error(failure), DbError::PasswordHash(expected));
}

#[test]
fn encryption_failure_is_classified() {
    let e = DbError::from_encryption_error(aes_gcm_siv::aead::Error);
    assert_eq!(e, DbError::Encryption(text("aead::Error")));
}

#[test]
fn storage_failure_is_classified() {
    let e = DbError::from_welds_error(welds::WeldsError::RowNotFound);
    assert_eq!(e, DbError::Welds(text("Expected a row from DB, found None")));
}

#[test]
fn connection_failure_is_classified() {
    let e = DbError::from_welds_connection_error(welds::connections::Error::ClosedTransaction);
    assert_eq!(
        e,
        DbError::WeldsConnection(text("SQL can not be executed on a closed transaction"))
    );
}

#[test]
fn migration_failure_is_classified() {
    let e = DbError::from_migrate_error(sqlx::migrate::MigrateError::VersionMissing(7));
    assert_eq!(
        e,
        DbError::Migration(text(
            "migration 7 was previously applied but is missing in the resolved migrations"
        ))
    );
}

#[test]
fn io_failure_is_classified() {
    let failure = std::io::Error::new(std::io::ErrorKind::NotFound, "no such file");
    assert_eq!(DbError::from_io_error(failure), DbError::File(text("no such file")));
}

#[test]
fn contextual_failure_is_classified() {
    let e = DbError::from_anyhow(anyhow::Error::msg("disk full"));
    assert_eq!(e, DbError::Other(text("disk full")));
}

#[test]
fn contextual_failure_shows_its_outermost_context() {
    let failure = anyhow::Error::msg("disk full").context("saving the record");
    assert_eq!(DbError::from_anyhow(failure), DbError::Other(text("saving the record")));
}

#[test]
fn json_failure_is_classified() {
    let failure = serde_json::from_str::<serde_json::Value>("{").unwrap_err();
    let expected = failure.to_string();
    assert!(expected.contains("line 1"));
    assert_eq!(DbError::from_json_error(failure), DbError::Json(expected));
}
