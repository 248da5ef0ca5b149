//! The wire form of an [`AppError`]: a tagged record, the one vocabulary
//! that both tiers share. The record holds the snake-case discriminant as
//! its tag and the payload of the variant as named fields beside it. A
//! reader finds the fields by name, whatever their order, and passes over
//! fields that it does not know; a tag that it does not know is a fault, not
//! a crash.

use crate::app_error::{AppError, AppErrorView};
use crate::code::{lemma_name_round_trip, AppErrorCode};
use crate::db_error::{DbError, DbErrorView};
use crate::outside::same_text;
use server_fn::error::ServerFnErrorErr;
use validator::ValidationErrors;
use vstd::prelude::*;

verus! {

/// The value of a field of a wire record.
#[derive(Debug, PartialEq)]
pub enum WireValue {
    /// A text.
    Text(String),
    /// An identifier, the 128-bit value of a UUID.
    Id(u128),
    /// A failure of the storage layer.
    Storage(DbError),
    /// The findings of a validation.
    Findings(ValidationErrors),
    /// A transport failure of a remote procedure call.
    Transport(ServerFnErrorErr),
}

/// A named field of a wire record.
#[derive(Debug, PartialEq)]
pub struct WireField {
    pub name: String,
    pub value: WireValue,
}

/// The wire form of a failure: its tag and its fields.
#[derive(Debug, PartialEq)]
pub struct WireError {
    /// The discriminant, which travels in the field `type`.
    pub tag: String,
    /// The fields beside the tag.
    pub fields: Vec<WireField>,
}

/// Why a wire record cannot be read as a failure.
#[derive(Clone, Copy, Debug, PartialEq, Eq, Structural)]
pub enum WireFault {
    /// The tag names no variant.
    UnknownType,
    /// A field that the variant needs is missing or holds a value of
    /// another kind.
    Payload,
}

/// What a [`WireValue`] holds, with each text as a sequence of characters.
pub ghost enum WireValueView {
    Text(Seq<char>),
    Id(u128),
    Storage(DbErrorView),
    Findings(ValidationErrors),
    Transport(ServerFnErrorErr),
}

/// What a [`WireField`] holds.
pub ghost struct WireFieldView {
    pub name: Seq<char>,
    pub value: WireValueView,
}

/// What a [`WireError`] holds.
pub ghost struct WireErrorView {
    pub tag: Seq<char>,
    pub fields: Seq<WireFieldView>,
}

impl View for WireValue {
    type V = WireValueView;

    open spec fn view(&self) -> WireValueView {
        match *self {
            WireValue::Text(t) => WireValueView::Text(t@),
            WireValue::Id(id) => WireValueView::Id(id),
            WireValue::Storage(kind) => WireValueView::Storage(kind@),
            WireValue::Findings(errors) => WireValueView::Findings(errors),
            WireValue::Transport(failure) => WireValueView::Transport(failure),
        }
    }
}

impl View for WireField {
    type V = WireFieldView;

    open spec fn view(&self) -> WireFieldView {
        WireFieldView { name: self.name@, value: self.value@ }
    }
}

/// The fields of a record, each by its view.
pub open spec fn fields_view(fields: Seq<WireField>) -> Seq<WireFieldView> {
    fields.map_values(|field: WireField| field@)
}

impl View for WireError {
    type V = WireErrorView;

    open spec fn view(&self) -> WireErrorView {
        WireErrorView { tag: self.tag@, fields: fields_view(self.fields@) }
    }
}

/// The value of the first of `fields` that is named `name`.
pub open spec fn lookup(fields: Seq<WireFieldView>, name: Seq<char>) -> Option<WireValueView>
    decreases fields.len(),
{
    if fields.len() == 0 {
        None
    } else if fields[0].name == name {
        Some(fields[0].value)
    } else {
        lookup(fields.drop_first(), name)
    }
}

/// The text in the field `name`.
pub open spec fn text_at(fields: Seq<WireFieldView>, name: Seq<char>) -> Option<Seq<char>> {
    match lookup(fields, name) {
        Some(WireValueView::Text(t)) => Some(t),
        _ => None,
    }
}

/// The identifier in the field `name`.
pub open spec fn id_at(fields: Seq<WireFieldView>, name: Seq<char>) -> Option<u128> {
    match lookup(fields, name) {
        Some(WireValueView::Id(id)) => Some(id),
        _ => None,
    }
}

/// The storage failure in the field `name`.
pub open spec fn storage_at(fields: Seq<WireFieldView>, name: Seq<char>) -> Option<DbErrorView> {
    match lookup(fields, name) {
        Some(WireValueView::Storage(kind)) => Some(kind),
        _ => None,
    }
}

/// The validation findings in the field `name`.
pub open spec fn findings_at(fields: Seq<WireFieldView>, name: Seq<char>) -> Option<
    ValidationErrors,
> {
    match lookup(fields, name) {
        Some(WireValueView::Findings(errors)) => Some(errors),
        _ => None,
    }
}

/// The transport failure in the field `name`.
pub open spec fn transport_at(fields: Seq<WireFieldView>, name: Seq<char>) -> Option<
    ServerFnErrorErr,
> {
    match lookup(fields, name) {
        Some(WireValueView::Transport(failure)) => Some(failure),
        _ => None,
    }
}

/// The field named `name` that holds `value`.
pub open spec fn field(name: Seq<char>, value: WireValueView) -> WireFieldView {
    WireFieldView { name, value }
}

/// The fields that carry the payload of `e`.
pub open spec fn encoded_fields(e: AppErrorView) -> Seq<WireFieldView> {
    match e {
        AppErrorView::NotConnected => seq![],
        AppErrorView::UnauthorizedAction { action, id, description } => seq![
            field("action"@, WireValueView::Text(action)),
            field("id"@, WireValueView::Id(id)),
            field("description"@, WireValueView::Text(description)),
        ],
        AppErrorView::NotFound { name, id } => seq![
            field("name"@, WireValueView::Text(name)),
            field("id"@, WireValueView::Id(id)),
        ],
        AppErrorView::AlreadyDeleted { name, id } => seq![
            field("name"@, WireValueView::Text(name)),
            field("id"@, WireValueView::Id(id)),
        ],
        AppErrorView::AccessTokenRequired => seq![],
        AppErrorView::AccessTokenExpired => seq![],
        AppErrorView::AccessTokenInvalid => seq![],
        AppErrorView::RefreshTokenExpired => seq![],
        AppErrorView::RefreshTokenInvalid => seq![],
        AppErrorView::RefreshTokenRevoked => seq![],
        AppErrorView::UsernameNotAssociatedWithActor { username } => seq![
            field("username"@, WireValueView::Text(username)),
        ],
        AppErrorView::UsernameNotAvailable { username } => seq![
            field("username"@, WireValueView::Text(username)),
        ],
        AppErrorView::UserNotFound { id } => seq![
            field("id"@, WireValueView::Id(id)),
        ],
        AppErrorView::RegistrationChallengeNotFound => seq![],
        AppErrorView::RegistrationChallengeExpired => seq![],
        AppErrorView::RegistrationChallengeInvalid => seq![],
        AppErrorView::MissingContext => seq![],
        AppErrorView::EnvMissing { variable } => seq![
            field("variable"@, WireValueView::Text(variable)),
        ],
        AppErrorView::EnvInvalid { variable } => seq![
            field("variable"@, WireValueView::Text(variable)),
        ],
        AppErrorView::Db(kind) => seq![
            field("kind"@, WireValueView::Storage(kind)),
        ],
        AppErrorView::Serde(m) => seq![
            field("message"@, WireValueView::Text(m)),
        ],
        AppErrorView::Json(m) => seq![
            field("message"@, WireValueView::Text(m)),
        ],
        AppErrorView::Request(m) => seq![
            field("message"@, WireValueView::Text(m)),
        ],
        AppErrorView::Jwt(m) => seq![
            field("message"@, WireValueView::Text(m)),
        ],
        AppErrorView::Webauthn(m) => seq![
            field("message"@, WireValueView::Text(m)),
        ],
        AppErrorView::Validation(errors) => seq![
            field("errors"@, WireValueView::Findings(errors)),
        ],
        AppErrorView::ServerFn(failure) => seq![
            field("error"@, WireValueView::Transport(failure)),
        ],
        AppErrorView::Other(m) => seq![
            field("message"@, WireValueView::Text(m)),
        ],
        AppErrorView::Hidden => seq![],
    }
}

/// The wire form of `e`: the name of its discriminant as the tag, and its
/// payload in named fields.
pub open spec fn encoded(e: AppErrorView) -> WireErrorView {
    WireErrorView { tag: e.code().name(), fields: encoded_fields(e) }
}

/// The failure of the variant `code` whose payload `fields` carry, where
/// they carry all of it.
pub open spec fn decoded_as(code: AppErrorCode, fields: Seq<WireFieldView>) -> Option<
    AppErrorView,
> {
    match code {
        AppErrorCode::NotConnected => Some(AppErrorView::NotConnected),
        AppErrorCode::UnauthorizedAction => match (
            text_at(fields, "action"@),
            id_at(fields, "id"@),
            text_at(fields, "description"@),
        ) {
            (Some(action), Some(id), Some(description)) => Some(
                AppErrorView::UnauthorizedAction { action, id, description },
            ),
            _ => None,
        },
        AppErrorCode::NotFound => match (
            text_at(fields, "name"@),
            id_at(fields, "id"@),
        ) {
            (Some(name), Some(id)) => Some(AppErrorView::NotFound { name, id }),
            _ => None,
        },
        AppErrorCode::AlreadyDeleted => match (
            text_at(fields, "name"@),
            id_at(fields, "id"@),
        ) {
            (Some(name), Some(id)) => Some(AppErrorView::AlreadyDeleted { name, id }),
            _ => None,
        },
        AppErrorCode::AccessTokenRequired => Some(AppErrorView::AccessTokenRequired),
        AppErrorCode::AccessTokenExpired => Some(AppErrorView::AccessTokenExpired),
        AppErrorCode::AccessTokenInvalid => Some(AppErrorView::AccessTokenInvalid),
        AppErrorCode::RefreshTokenExpired => Some(AppErrorView::RefreshTokenExpired),
        AppErrorCode::RefreshTokenInvalid => Some(AppErrorView::RefreshTokenInvalid),
        AppErrorCode::RefreshTokenRevoked => Some(AppErrorView::RefreshTokenRevoked),
        AppErrorCode::UsernameNotAssociatedWithActor => match text_at(fields, "username"@) {
            Some(username) => Some(AppErrorView::UsernameNotAssociatedWithActor { username }),
            None => None,
        },
        AppErrorCode::UsernameNotAvailable => match text_at(fields, "username"@) {
            Some(username) => Some(AppErrorView::UsernameNotAvailable { username }),
            None => None,
        },
        AppErrorCode::UserNotFound => match id_at(fields, "id"@) {
            Some(id) => Some(AppErrorView::UserNotFound { id }),
            None => None,
        },
        AppErrorCode::RegistrationChallengeNotFound => {
            Some(AppErrorView::RegistrationChallengeNotFound)
        },
        AppErrorCode::RegistrationChallengeExpired => {
            Some(AppErrorView::RegistrationChallengeExpired)
        },
        AppErrorCode::RegistrationChallengeInvalid => {
            Some(AppErrorView::RegistrationChallengeInvalid)
        },
        AppErrorCode::MissingContext => Some(AppErrorView::MissingContext),
        AppErrorCode::EnvMissing => match text_at(fields, "variable"@) {
            Some(variable) => Some(AppErrorView::EnvMissing { variable }),
            None => None,
        },
        AppErrorCode::EnvInvalid => match text_at(fields, "variable"@) {
            Some(variable) => Some(AppErrorView::EnvInvalid { variable }),
            None => None,
        },
        AppErrorCode::Db => match storage_at(fields, "kind"@) {
            Some(kind) => Some(AppErrorView::Db(kind)),
            None => None,
        },
        AppErrorCode::Serde => match text_at(fields, "message"@) {
            Some(m) => Some(AppErrorView::Serde(m)),
            None => None,
        },
        AppErrorCode::Json => match text_at(fields, "message"@) {
            Some(m) => Some(AppErrorView::Json(m)),
            None => None,
        },
        AppErrorCode::Request => match text_at(fields, "message"@) {
            Some(m) => Some(AppErrorView::Request(m)),
            None => None,
        },
        AppErrorCode::Jwt => match text_at(fields, "message"@) {
            Some(m) => Some(AppErrorView::Jwt(m)),
            None => None,
        },
        AppErrorCode::Webauthn => match text_at(fields, "message"@) {
            Some(m) => Some(AppErrorView::Webauthn(m)),
            None => None,
        },
        AppErrorCode::Validation => match findings_at(fields, "errors"@) {
            Some(errors) => Some(AppErrorView::Validation(errors)),
            None => None,
        },
        AppErrorCode::ServerFn => match transport_at(fields, "error"@) {
            Some(failure) => Some(AppErrorView::ServerFn(failure)),
            None => None,
        },
        AppErrorCode::Other => match text_at(fields, "message"@) {
            Some(m) => Some(AppErrorView::Other(m)),
            None => None,
        },
        AppErrorCode::Hidden => Some(AppErrorView::Hidden),
    }
}

/// What the wire record `w` reads as: the failure that its tag names, with
/// the payload from its fields, or the fault that stops the reading.
pub open spec fn decoded(w: WireErrorView) -> Result<AppErrorView, WireFault> {
    match AppErrorCode::named(w.tag) {
        None => Err(WireFault::UnknownType),
        Some(code) => match decoded_as(code, w.fields) {
            Some(e) => Ok(e),
            None => Err(WireFault::Payload),
        },
    }
}

/// The value of the first of `fields` that is named `name`.
fn find<'a>(fields: &'a Vec<WireField>, name: &str) -> (r: Option<&'a WireValue>)
    ensures
        match r {
            Some(value) => lookup(fields_view(fields@), name@) == Some(value@),
            None => lookup(fields_view(fields@), name@) is None,
        },
{
    let ghost all = fields_view(fields@);
    let mut i: usize = 0;
    proof {
        assert(all.skip(0) =~= all);
    }
    while i < fields.len()
        invariant
            i <= fields.len(),
            all == fields_view(fields@),
            lookup(all, name@) == lookup(all.skip(i as int), name@),
        decreases fields.len() - i,
    {
        if same_text(fields[i].name.as_str(), name) {
            return Some(&fields[i].value);
        }
        proof {
            assert(all.skip(i as int).drop_first() =~= all.skip(i as int + 1));
        }
        i += 1;
    }
    None
}

fn text_field(fields: &Vec<WireField>, name: &str) -> (r: Option<String>)
    ensures
        match r {
            Some(t) => text_at(fields_view(fields@), name@) == Some(t@),
            None => text_at(fields_view(fields@), name@) is None,
        },
{
    match find(fields, name) {
        Some(WireValue::Text(t)) => Some(t.clone()),
        _ => None,
    }
}

fn id_field(fields: &Vec<WireField>, name: &str) -> (r: Option<u128>)
    ensures
        r == id_at(fields_view(fields@), name@),
{
    match find(fields, name) {
        Some(WireValue::Id(id)) => Some(*id),
        _ => None,
    }
}

fn storage_field(fields: &Vec<WireField>, name: &str) -> (r: Option<DbError>)
    ensures
        match r {
            Some(kind) => storage_at(fields_view(fields@), name@) == Some(kind@),
            None => storage_at(fields_view(fields@), name@) is None,
        },
{
    match find(fields, name) {
        Some(WireValue::Storage(kind)) => Some(kind.clone()),
        _ => None,
    }
}

fn findings_field(fields: &Vec<WireField>, name: &str) -> (r: Option<ValidationErrors>)
    ensures
        r == findings_at(fields_view(fields@), name@),
{
    match find(fields, name) {
        Some(WireValue::Findings(errors)) => Some(errors.clone()),
        _ => None,
    }
}

fn transport_field(fields: &Vec<WireField>, name: &str) -> (r: Option<ServerFnErrorErr>)
    ensures
        r == transport_at(fields_view(fields@), name@),
{
    match find(fields, name) {
        Some(WireValue::Transport(failure)) => Some(failure.clone()),
        _ => None,
    }
}

/// The field named `name` that holds `value`.
fn named_field(name: &str, value: WireValue) -> (r: WireField)
    ensures
        r@ == field(name@, value@),
{
    WireField { name: String::from_str(name), value }
}

impl AppError {
    /// The wire form of the failure.
    pub fn to_wire(&self) -> (w: WireError)
        ensures
            w@ == encoded(self@),
    {
        let mut fields: Vec<WireField> = Vec::new();
        match self {
            AppError::NotConnected => {},
            AppError::UnauthorizedAction { action, id, description } => {
                fields.push(named_field("action", WireValue::Text(action.clone())));
                fields.push(named_field("id", WireValue::Id(*id)));
                fields.push(named_field("description", WireValue::Text(description.clone())));
            },
            AppError::NotFound { name, id } => {
                fields.push(named_field("name", WireValue::Text(name.clone())));
                fields.push(named_field("id", WireValue::Id(*id)));
            },
            AppError::AlreadyDeleted { name, id } => {
                fields.push(named_field("name", WireValue::Text(name.clone())));
                fields.push(named_field("id", WireValue::Id(*id)));
            },
            AppError::AccessTokenRequired => {},
            AppError::AccessTokenExpired => {},
            AppError::AccessTokenInvalid => {},
            AppError::RefreshTokenExpired => {},
            AppError::RefreshTokenInvalid => {},
            AppError::RefreshTokenRevoked => {},
            AppError::UsernameNotAssociatedWithActor { username } => {
                fields.push(named_field("username", WireValue::Text(username.clone())));
            },
            AppError::UsernameNotAvailable { username } => {
                fields.push(named_field("username", WireValue::Text(username.clone())));
            },
            AppError::UserNotFound { id } => {
                fields.push(named_field("id", WireValue::Id(*id)));
            },
            AppError::RegistrationChallengeNotFound => {},
            AppError::RegistrationChallengeExpired => {},
            AppError::RegistrationChallengeInvalid => {},
            AppError::MissingContext => {},
            AppError::EnvMissing { variable } => {
                fields.push(named_field("variable", WireValue::Text(variable.clone())));
            },
            AppError::EnvInvalid { variable } => {
                fields.push(named_field("variable", WireValue::Text(variable.clone())));
            },
            AppError::Db(kind) => {
                fields.push(named_field("kind", WireValue::Storage(kind.clone())));
            },
            AppError::Serde(m) => {
                fields.push(named_field("message", WireValue::Text(m.clone())));
            },
            AppError::Json(m) => {
                fields.push(named_field("message", WireValue::Text(m.clone())));
            },
            AppError::Request(m) => {
                fields.push(named_field("message", WireValue::Text(m.clone())));
            },
            AppError::Jwt(m) => {
                fields.push(named_field("message", WireValue::Text(m.clone())));
            },
            AppError::Webauthn(m) => {
                fields.push(named_field("message", WireValue::Text(m.clone())));
            },
            AppError::Validation(errors) => {
                fields.push(named_field("errors", WireValue::Findings(errors.clone())));
            },
            AppError::ServerFn(failure) => {
                fields.push(named_field("error", WireValue::Transport(failure.clone())));
            },
            AppError::Other(m) => {
                fields.push(named_field("message", WireValue::Text(m.clone())));
            },
            AppError::Hidden => {},
        }
        let w = WireError { tag: String::from_str(self.code().as_str()), fields };
        proof {
            assert(w@.fields =~= encoded_fields(self@));
        }
        w
    }

    /// Reads a failure from its wire form. The tag decides the variant; the
    /// fields that the variant needs are found by name, the first of a name
    /// counts, and every other field is passed over.
    pub fn from_wire(w: &WireError) -> (r: Result<AppError, WireFault>)
        ensures
            match r {
                Ok(e) => decoded(w@) == Ok::<AppErrorView, WireFault>(e@),
                Err(fault) => decoded(w@) == Err::<AppErrorView, WireFault>(fault),
            },
    {
        let code = match AppErrorCode::parse(w.tag.as_str()) {
            Some(code) => code,
            None => {
                return Err(WireFault::UnknownType);
            },
        };
        let fields = &w.fields;
        let read: Option<AppError> = match code {
            AppErrorCode::NotConnected => Some(AppError::NotConnected),
            AppErrorCode::UnauthorizedAction => match (
                text_field(fields, "action"),
                id_field(fields, "id"),
                text_field(fields, "description"),
            ) {
                (Some(action), Some(id), Some(description)) => Some(
                    AppError::UnauthorizedAction { action, id, description },
                ),
                _ => None,
            },
            AppErrorCode::NotFound => match (
                text_field(fields, "name"),
                id_field(fields, "id"),
            ) {
                (Some(name), Some(id)) => Some(AppError::NotFound { name, id }),
                _ => None,
            },
            AppErrorCode::AlreadyDeleted => match (
                text_field(fields, "name"),
                id_field(fields, "id"),
            ) {
                (Some(name), Some(id)) => Some(AppError::AlreadyDeleted { name, id }),
                _ => None,
            },
            AppErrorCode::AccessTokenRequired => Some(AppError::AccessTokenRequired),
            AppErrorCode::AccessTokenExpired => Some(AppError::AccessTokenExpired),
            AppErrorCode::AccessTokenInvalid => Some(AppError::AccessTokenInvalid),
            AppErrorCode::RefreshTokenExpired => Some(AppError::RefreshTokenExpired),
            AppErrorCode::RefreshTokenInvalid => Some(AppError::RefreshTokenInvalid),
            AppErrorCode::RefreshTokenRevoked => Some(AppError::RefreshTokenRevoked),
            AppErrorCode::UsernameNotAssociatedWithActor => match text_field(fields, "username") {
                Some(username) => Some(AppError::UsernameNotAssociatedWithActor { username }),
                None => None,
            },
            AppErrorCode::UsernameNotAvailable => match text_field(fields, "username") {
                Some(username) => Some(AppError::UsernameNotAvailable { username }),
                None => None,
            },
            AppErrorCode::UserNotFound => match id_field(fields, "id") {
                Some(id) => Some(AppError::UserNotFound { id }),
                None => None,
            },
            AppErrorCode::RegistrationChallengeNotFound => {
                Some(AppError::RegistrationChallengeNotFound)
            },
            AppErrorCode::RegistrationChallengeExpired => {
                Some(AppError::RegistrationChallengeExpired)
            },
            AppErrorCode::RegistrationChallengeInvalid => {
                Some(AppError::RegistrationChallengeInvalid)
            },
            AppErrorCode::MissingContext => Some(AppError::MissingContext),
            AppErrorCode::EnvMissing => match text_field(fields, "variable") {
                Some(variable) => Some(AppError::EnvMissing { variable }),
                None => None,
            },
            AppErrorCode::EnvInvalid => match text_field(fields, "variable") {
                Some(variable) => Some(AppError::EnvInvalid { variable }),
                None => None,
            },
            AppErrorCode::Db => match storage_field(fields, "kind") {
                Some(kind) => Some(AppError::Db(kind)),
                None => None,
            },
            AppErrorCode::Serde => match text_field(fields, "message") {
                Some(m) => Some(AppError::Serde(m)),
                None => None,
            },
            AppErrorCode::Json => match text_field(fields, "message") {
                Some(m) => Some(AppError::Json(m)),
                None => None,
            },
            AppErrorCode::Request => match text_field(fields, "message") {
                Some(m) => Some(AppError::Request(m)),
                None => None,
            },
            AppErrorCode::Jwt => match text_field(fields, "message") {
                Some(m) => Some(AppError::Jwt(m)),
                None => None,
            },
            AppErrorCode::Webauthn => match text_field(fields, "message") {
                Some(m) => Some(AppError::Webauthn(m)),
                None => None,
            },
            AppErrorCode::Validation => match findings_field(fields, "errors") {
                Some(errors) => Some(AppError::Validation(errors)),
                None => None,
            },
            AppErrorCode::ServerFn => match transport_field(fields, "error") {
                Some(failure) => Some(AppError::ServerFn(failure)),
                None => None,
            },
            AppErrorCode::Other => match text_field(fields, "message") {
                Some(m) => Some(AppError::Other(m)),
                None => None,
            },
            AppErrorCode::Hidden => Some(AppError::Hidden),
        };
        match read {
            Some(e) => Ok(e),
            None => Err(WireFault::Payload),
        }
    }
}

/// The first of `fields` that is named `name` is the one that `lookup`
/// reads.
pub proof fn lemma_lookup_finds(fields: Seq<WireFieldView>, i: int, name: Seq<char>)
    requires
        0 <= i < fields.len(),
        fields[i].name == name,
        forall|j: int| 0 <= j < i ==> fields[j].name != name,
    ensures
        lookup(fields, name) == Some(fields[i].value),
    decreases i,
{
    if i > 0 {
        let rest = fields.drop_first();
        assert(rest[i - 1] == fields[i]);
        assert forall|j: int| 0 <= j < i - 1 implies rest[j].name != name by {
            assert(rest[j] == fields[j + 1]);
        }
        lemma_lookup_finds(rest, i - 1, name);
    }
}

/// Reading the wire form of a failure gives the failure back, whatever the
/// variant and whatever it carries.
pub proof fn lemma_wire_round_trip(e: AppErrorView)
    ensures
        decoded(encoded(e)) == Ok::<AppErrorView, WireFault>(e),
{
    reveal_strlit("action");
    reveal_strlit("id");
    reveal_strlit("description");
    reveal_strlit("name");
    assert("action"@.len() == 6 && "id"@.len() == 2 && "description"@.len() == 11 && "name"@.len()
        == 4);
    lemma_name_round_trip(e.code());
    let fields = encoded_fields(e);
    match e {
        AppErrorView::UnauthorizedAction { .. } => {
            lemma_lookup_finds(fields, 0, "action"@);
            lemma_lookup_finds(fields, 1, "id"@);
            lemma_lookup_finds(fields, 2, "description"@);
        },
        AppErrorView::NotFound { .. } => {
            lemma_lookup_finds(fields, 0, "name"@);
            lemma_lookup_finds(fields, 1, "id"@);
        },
        AppErrorView::AlreadyDeleted { .. } => {
            lemma_lookup_finds(fields, 0, "name"@);
            lemma_lookup_finds(fields, 1, "id"@);
        },
        AppErrorView::UsernameNotAssociatedWithActor { .. } => {
            lemma_lookup_finds(fields, 0, "username"@);
        },
        AppErrorView::UsernameNotAvailable { .. } => {
            lemma_lookup_finds(fields, 0, "username"@);
        },
        AppErrorView::UserNotFound { .. } => {
            lemma_lookup_finds(fields, 0, "id"@);
        },
        AppErrorView::EnvMissing { .. } => {
            lemma_lookup_finds(fields, 0, "variable"@);
        },
        AppErrorView::EnvInvalid { .. } => {
            lemma_lookup_finds(fields, 0, "variable"@);
        },
        AppErrorView::Db(_) => {
            lemma_lookup_finds(fields, 0, "kind"@);
        },
        AppErrorView::Serde(_) => {
            lemma_lookup_finds(fields, 0, "message"@);
        },
        AppErrorView::Json(_) => {
            lemma_lookup_finds(fields, 0, "message"@);
        },
        AppErrorView::Request(_) => {
            lemma_lookup_finds(fields, 0, "message"@);
        },
        AppErrorView::Jwt(_) => {
            lemma_lookup_finds(fields, 0, "message"@);
        },
        AppErrorView::Webauthn(_) => {
            lemma_lookup_finds(fields, 0, "message"@);
        },
        AppErrorView::Other(_) => {
            lemma_lookup_finds(fields, 0, "message"@);
        },
        AppErrorView::Validation(_) => {
            lemma_lookup_finds(fields, 0, "errors"@);
        },
        AppErrorView::ServerFn(_) => {
            lemma_lookup_finds(fields, 0, "error"@);
        },
        _ => {},
    }
}

/// A field after those of a record changes the reading of no name that
/// the record holds already.
pub proof fn lemma_lookup_keeps_first(
    fields: Seq<WireFieldView>,
    extra: WireFieldView,
    name: Seq<char>,
)
    ensures
        lookup(fields.push(extra), name) == match lookup(fields, name) {
            Some(value) => Some(value),
            None => if extra.name == name {
                Some(extra.value)
            } else {
                None
            },
        },
    decreases fields.len(),
{
    if fields.len() == 0 {
        assert(fields.push(extra).drop_first() =~= fields);
    } else {
        assert(fields.push(extra).drop_first() =~= fields.drop_first().push(extra));
        lemma_lookup_keeps_first(fields.drop_first(), extra, name);
    }
}

/// A record that reads as a failure still reads as that failure when a
/// field is added after its own: a reader passes over what it does not
/// need.
pub proof fn lemma_added_field_is_passed_over(w: WireErrorView, extra: WireFieldView)
    requires
        decoded(w) is Ok,
    ensures
        decoded(WireErrorView { tag: w.tag, fields: w.fields.push(extra) }) == decoded(w),
{
    lemma_lookup_keeps_first(w.fields, extra, "action"@);
    lemma_lookup_keeps_first(w.fields, extra, "id"@);
    lemma_lookup_keeps_first(w.fields, extra, "description"@);
    lemma_lookup_keeps_first(w.fields, extra, "name"@);
    lemma_lookup_keeps_first(w.fields, extra, "username"@);
    lemma_lookup_keeps_first(w.fields, extra, "variable"@);
    lemma_lookup_keeps_first(w.fields, extra, "kind"@);
    lemma_lookup_keeps_first(w.fields, extra, "message"@);
    lemma_lookup_keeps_first(w.fields, extra, "errors"@);
    lemma_lookup_keeps_first(w.fields, extra, "error"@);
}

/// A record whose tag names no variant reads as a fault, whatever its
/// fields.
pub proof fn lemma_unknown_tag_is_a_fault(w: WireErrorView)
    requires
        forall|code: AppErrorCode| #[trigger] code.name() != w.tag,
    ensures
        decoded(w) == Err::<AppErrorView, WireFault>(WireFault::UnknownType),
{
}

} // verus!
