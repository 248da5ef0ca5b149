//! The conversions that fold the failures of other subsystems into an
//! [`AppError`]. Those that could reveal how the service works inside
//! consult the sensitivity policy and collapse to [`AppError::Hidden`] where
//! it withholds detail; those that only describe the shape of a request or
//! a response never do.

use crate::app_error::AppError;
use crate::db_error::DbError;
use crate::outside::displays_as;
use crate::policy::{collapsed, shows_sensitive, Deployment};
use server_fn::error::{NoCustomError, ServerFnError, ServerFnErrorErr};
use validator::ValidationErrors;
use vstd::prelude::*;

verus! {

/// The capability to convert one's own failure into an [`AppError`]. A type
/// that has it is accepted by [`AppError::from_convertible`].
pub trait IntoAppError: Sized {
    /// `result` is what the failure converts to in `deployment`.
    spec fn converts_to(&self, deployment: Deployment, result: AppError) -> bool;

    /// Converts the failure in `deployment`.
    fn into_app_error(self, deployment: Deployment) -> (r: AppError)
        ensures
            self.converts_to(deployment, r),
    ;
}

impl IntoAppError for welds::WeldsError {
    open spec fn converts_to(&self, deployment: Deployment, result: AppError) -> bool {
        if shows_sensitive(deployment) {
            result matches AppError::Db(DbError::Welds(m)) && displays_as(*self, m@)
        } else {
            result == AppError::Hidden
        }
    }

    fn into_app_error(self, deployment: Deployment) -> (r: AppError) {
        if AppError::should_show_sensitive_errors(deployment) {
            AppError::Db(DbError::from_welds_error(self))
        } else {
            AppError::Hidden
        }
    }
}

impl IntoAppError for welds::connections::Error {
    open spec fn converts_to(&self, deployment: Deployment, result: AppError) -> bool {
        if shows_sensitive(deployment) {
            result matches AppError::Db(DbError::WeldsConnection(m)) && displays_as(*self, m@)
        } else {
            result == AppError::Hidden
        }
    }

    fn into_app_error(self, deployment: Deployment) -> (r: AppError) {
        if AppError::should_show_sensitive_errors(deployment) {
            AppError::Db(DbError::from_welds_connection_error(self))
        } else {
            AppError::Hidden
        }
    }
}

impl IntoAppError for sqlx::migrate::MigrateError {
    open spec fn converts_to(&self, deployment: Deployment, result: AppError) -> bool {
        if shows_sensitive(deployment) {
            result matches AppError::Db(DbError::Migration(m)) && displays_as(*self, m@)
        } else {
            result == AppError::Hidden
        }
    }

    fn into_app_error(self, deployment: Deployment) -> (r: AppError) {
        if AppError::should_show_sensitive_errors(deployment) {
            AppError::Db(DbError::from_migrate_error(self))
        } else {
            AppError::Hidden
        }
    }
}

impl AppError {
    /// A failure of the storage layer crosses the boundary as
    /// [`AppError::Db`] with the kind unchanged where the policy allows
    /// detail, and as [`AppError::Hidden`] where it does not.
    pub fn from_db_error(value: DbError, deployment: Deployment) -> (r: AppError)
        ensures
            r == collapsed(AppError::Db(value), deployment),
            shows_sensitive(deployment) ==> r == AppError::Db(value),
            !shows_sensitive(deployment) ==> r == AppError::Hidden,
    {
        if Self::should_show_sensitive_errors(deployment) {
            AppError::Db(value)
        } else {
            AppError::Hidden
        }
    }

    /// A contextual failure crosses the boundary as [`AppError::Other`] with
    /// the text of its outermost cause where the policy allows detail, and
    /// as [`AppError::Hidden`] where it does not.
    pub fn from_anyhow(err: anyhow::Error, deployment: Deployment) -> (r: AppError)
        ensures
            shows_sensitive(deployment) ==> (r matches AppError::Other(m) && displays_as(err, m@)),
            !shows_sensitive(deployment) ==> r == AppError::Hidden,
    {
        if Self::should_show_sensitive_errors(deployment) {
            AppError::Other(err.to_string())
        } else {
            AppError::Hidden
        }
    }

    /// A remote-procedure failure of the older kind crosses the boundary as
    /// [`AppError::Other`] with its own text where the policy allows detail,
    /// and as [`AppError::Hidden`] where it does not.
    pub fn from_server_fn_failure(
        value: ServerFnError<NoCustomError>,
        deployment: Deployment,
    ) -> (r: AppError)
        ensures
            shows_sensitive(deployment) ==> (r matches AppError::Other(m) && displays_as(
                value,
                m@,
            )),
            !shows_sensitive(deployment) ==> r == AppError::Hidden,
    {
        if Self::should_show_sensitive_errors(deployment) {
            AppError::Other(value.to_string())
        } else {
            AppError::Hidden
        }
    }

    /// A credential-protocol failure crosses the boundary as
    /// [`AppError::Webauthn`] with its own text where the policy allows
    /// detail, and as [`AppError::Hidden`] where it does not.
    pub fn from_webauthn_error(
        value: webauthn_rs_core::error::WebauthnError,
        deployment: Deployment,
    ) -> (r: AppError)
        ensures
            shows_sensitive(deployment) ==> (r matches AppError::Webauthn(m) && displays_as(
                value,
                m@,
            )),
            !shows_sensitive(deployment) ==> r == AppError::Hidden,
    {
        if Self::should_show_sensitive_errors(deployment) {
            AppError::Webauthn(value.to_string())
        } else {
            AppError::Hidden
        }
    }

    /// A token codec failure crosses the boundary as [`AppError::Jwt`] with
    /// its own text where the policy allows detail, and as
    /// [`AppError::Hidden`] where it does not.
    pub fn from_jwt_error(source: jsonwebtoken::errors::Error, deployment: Deployment) -> (r:
        AppError)
        ensures
            shows_sensitive(deployment) ==> (r matches AppError::Jwt(m) && displays_as(source, m@)),
            !shows_sensitive(deployment) ==> r == AppError::Hidden,
    {
        if Self::should_show_sensitive_errors(deployment) {
            AppError::Jwt(source.to_string())
        } else {
            AppError::Hidden
        }
    }

    /// A JSON failure always crosses the boundary as [`AppError::Json`] with
    /// its own text: no policy is consulted, so it is never hidden.
    pub fn from_json_error(value: serde_json::Error) -> (r: AppError)
        ensures
            r matches AppError::Json(m) && displays_as(value, m@),
    {
        AppError::Json(value.to_string())
    }

    /// An outbound request failure always crosses the boundary as
    /// [`AppError::Request`] with its own text: no policy is consulted, so
    /// it is never hidden.
    pub fn from_request_error(value: reqwest::Error) -> (r: AppError)
        ensures
            r matches AppError::Request(m) && displays_as(value, m@),
    {
        AppError::Request(value.to_string())
    }

    /// A failure to read the configuration stops the service before it
    /// serves anyone: it is reported in full, as [`AppError::Other`] with
    /// its own text.
    pub fn from_configuration_error(value: leptos::config::errors::LeptosConfigError) -> (r:
        AppError)
        ensures
            r matches AppError::Other(m) && displays_as(value, m@),
    {
        AppError::Other(value.to_string())
    }

    /// The findings of a validation always cross the boundary unchanged, as
    /// [`AppError::Validation`]: no policy is consulted, so they are never
    /// hidden.
    pub fn from_validation_errors(value: ValidationErrors) -> (r: AppError)
        ensures
            r == AppError::Validation(value),
    {
        AppError::Validation(value)
    }

    /// A transport failure that arrives from the other tier is wrapped
    /// unchanged, as [`AppError::ServerFn`].
    pub fn from_server_fn_error(value: ServerFnErrorErr) -> (r: AppError)
        ensures
            r == AppError::ServerFn(value),
    {
        AppError::ServerFn(value)
    }

    /// Converts the failure of any type that has the [`IntoAppError`]
    /// capability, as that type defines it.
    pub fn from_convertible<T: IntoAppError>(err: T, deployment: Deployment) -> (r: AppError)
        ensures
            err.converts_to(deployment, r),
    {
        err.into_app_error(deployment)
    }
}

} // verus!
