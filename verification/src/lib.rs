//! Error taxonomy shared by the service tiers, the rules that decide how much
//! of an error may cross the service boundary, and the database handle that
//! reports into it.

pub mod app_error;
pub mod code;
pub mod collapse;
pub mod db;
pub mod db_error;
pub mod greeting;
pub mod ident;
pub mod outside;
pub mod policy;
pub mod schema;
pub mod wire;

pub use crate::app_error::{AppError, AppResult};
pub use crate::code::AppErrorCode;
pub use crate::collapse::IntoAppError;
pub use crate::db::Db;
pub use crate::db_error::{DbError, DbResult};
pub use crate::policy::Deployment;
