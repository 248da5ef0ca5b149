use server_fn::error::ServerFnErrorErr;
use validator::{ValidationError, ValidationErrors};
use verily::app_error::AppError;
use verily::db_error::DbError;
use verily::wire::{WireError, WireFault, WireField, WireValue};

const ID: u128 = 0x0123456789abcdef0123456789abcdef;

fn text(s: &str) -> String {
    s.to_string()
}

fn field(name: &str, value: WireValue) -> WireField {
    WireField { name: text(name), value }
}

fn findings() -> ValidationErrors {
    let mut errors = ValidationErrors::new();
    errors.add("name", ValidationError::new("length"));
    errors.add("email", ValidationError::new("email"));
    errors
}

fn every_variant() -> Vec<AppError> {
    vec![
        AppError::NotConnected,
        AppError::UnauthorizedAction { action: text("delete"), id: ID, description: text("no") },
        AppError::NotFound { name: text("user"), id: ID },
        AppError::AlreadyDeleted { name: text("user"), id: u128::MAX },
        AppError::AccessTokenRequired,
        AppError::AccessTokenExpired,
        AppError::AccessTokenInvalid,
        AppError::RefreshTokenExpired,
        AppError::RefreshTokenInvalid,
        AppError::RefreshTokenRevoked,
        AppError::UsernameNotAssociatedWithActor { username: text("ada") },
        AppError::UsernameNotAvailable { username: text("") },
        AppError::UserNotFound { id: 0 },
        AppError::RegistrationChallengeNotFound,
        AppError::RegistrationChallengeExpired,
        AppError::RegistrationChallengeInvalid,
        AppError::MissingContext,
        AppError::EnvMissing { variable: text("DATABASE_URL") },
        AppError::EnvInvalid { variable: text("DATABASE_URL") },
        AppError::Db(DbError::ModelNotFound { model: text("user"), id: text("42") }),
        AppError::Db(DbError::MissingContext),
        AppError::Serde(text("s")),
        AppError::Json(text("j")),
        AppError::Request(text("r")),
        AppError::Jwt(text("t")),
        AppError::Webauthn(text("w")),
        AppError::Validation(findings()),
        AppError::ServerFn(ServerFnErrorErr::MissingArg(text("id"))),
        AppError::Other(text("disk full")),
        AppError::Hidden,
    ]
}

#[test]
fn every_variant_survives_the_wire() {
    for e in every_variant() {
        let w = e.to_wire();
        assert_eq!(AppError::from_wire(&w), Ok(e.clone()), "{w:?}");
    }
}

#[test]
fn tag_is_the_snake_case_discriminant() {
    for e in every_variant() {
        assert_eq!(e.to_wire().tag, e.code().as_str());
    }
    assert_eq!(AppError::NotFound { name: text("user"), id: ID }.to_wire().tag, "not_found");
}

#[test]
fn not_found_carries_name_and_id() {
    let w = AppError::NotFound { name: text("user"), id: ID }.to_wire();
    let expected = WireError {
        tag: text("not_found"),
        fields: vec![field("name", WireValue::Text(text("user"))), field("id", WireValue::Id(ID))],
    };
    assert_eq!(w, expected);
}

#[test]
fn unauthorized_action_carries_three_fields() {
    let e = AppError::UnauthorizedAction { action: text("delete"), id: ID, description: text("no") };
    let expected = WireError {
        tag: text("unauthorized_action"),
        fields: vec![
            field("action", WireValue::Text(text("delete"))),
            field("id", WireValue::Id(ID)),
            field("description", WireValue::Text(text("no"))),
        ],
    };
    assert_eq!(e.to_wire(), expected);
}

#[test]
fn message_variants_carry_a_message() {
    let expected = WireError {
        tag: text("other"),
        fields: vec![field("message", WireValue::Text(text("disk full")))],
    };
    assert_eq!(AppError::Other(text("disk full")).to_wire(), expected);
}

#[test]
fn hidden_carries_nothing() {
    let w = AppError::Hidden.to_wire();
    assert_eq!(w, WireError { tag: text("hidden"), fields: vec![] });
    assert!(!format!("{w:?}").contains("disk full"));
}

#[test]
fn database_failure_travels_in_the_kind_field() {
    let kind = DbError::ModelNotFound { model: text("user"), id: text("42") };
    let expected = WireError {
        tag: text("db"),
        fields: vec![field("kind", WireValue::Storage(kind.clone()))],
    };
    assert_eq!(AppError::Db(kind).to_wire(), expected);
}

#[test]
fn unknown_tag_is_a_fault() {
    let w = WireError { tag: text("teapot"), fields: vec![] };
    assert_eq!(AppError::from_wire(&w), Err(WireFault::UnknownType));
    let w = WireError {
        tag: text("NotFound"),
        fields: vec![field("name", WireValue::Text(text("user"))), field("id", WireValue::Id(ID))],
    };
    assert_eq!(AppError::from_wire(&w), Err(WireFault::UnknownType));
}

#[test]
fn unknown_fields_are_passed_over() {
    let w = WireError {
        tag: text("not_found"),
        fields: vec![
            field("trace", WireValue::Text(text("abc"))),
            field("id", WireValue::Id(ID)),
            field("name", WireValue::Text(text("user"))),
            field("retry_after", WireValue::Id(3)),
        ],
    };
    assert_eq!(AppError::from_wire(&w), Ok(AppError::NotFound { name: text("user"), id: ID }));
    let w = WireError {
        tag: text("hidden"),
        fields: vec![field("message", WireValue::Text(text("x")))],
    };
    assert_eq!(AppError::from_wire(&w), Ok(AppError::Hidden));
}

#[test]
fn first_field_of_a_name_counts() {
    let w = WireError {
        tag: text("other"),
        fields: vec![
            field("message", WireValue::Text(text("first"))),
            field("message", WireValue::Text(text("second"))),
        ],
    };
    assert_eq!(AppError::from_wire(&w), Ok(AppError::Other(text("first"))));
}

#[test]
fn missing_field_is_a_payload_fault() {
    let w = WireError {
        tag: text("not_found"),
        fields: vec![field("name", WireValue::Text(text("user")))],
    };
    assert_eq!(AppError::from_wire(&w), Err(WireFault::Payload));
    let w = WireError { tag: text("db"), fields: vec![] };
    assert_eq!(AppError::from_wire(&w), Err(WireFault::Payload));
}

#[test]
fn field_of_another_kind_is_a_payload_fault() {
    let w = WireError {
        tag: text("user_not_found"),
        fields: vec![field("id", WireValue::Text(text("not an id")))],
    };
    assert_eq!(AppError::from_wire(&w), Err(WireFault::Payload));
    let w = WireError { tag: text("json"), fields: vec![field("message", WireValue::Id(1))] };
    assert_eq!(AppError::from_wire(&w), Err(WireFault::Payload));
}
