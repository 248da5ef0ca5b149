//! The database handle: a shared owner of one pooled connection. Handles
//! are cheap to copy and all copies share the connection; a transaction is
//! begun from a handle and never held by it.

use crate::db_error::{DbError, DbResult};
use crate::outside::displays_as;
use std::sync::Arc;
use vstd::prelude::*;
use welds::connections::sqlite::SqliteClient;
use welds::connections::Transaction;

verus! {

/// A shared handle to one pooled connection.
pub struct Db {
    client: Arc<SqliteClient>,
}

impl Clone for Db {
    /// Another handle that shares the same connection.
    fn clone(&self) -> (r: Db)
        ensures
            r.client() == self.client(),
    {
        Db { client: self.client.clone() }
    }
}

impl Db {
    /// The pooled connection that the handle shares.
    pub closed spec fn client(&self) -> SqliteClient {
        *self.client
    }

    /// The handle that shares `client`.
    pub fn from_shared(client: Arc<SqliteClient>) -> (r: Db)
        ensures
            r.client() == *client,
    {
        Db { client }
    }

    /// Gives up the handle for its share of the connection.
    pub fn into_shared(self) -> (r: Arc<SqliteClient>)
        ensures
            *r == self.client(),
    {
        self.client
    }

    /// The handle on a connection that was opened, or the failure to open
    /// it as [`DbError::WeldsConnection`].
    pub fn try_new(connected: Result<SqliteClient, welds::connections::Error>) -> (r: DbResult<Db>)
        ensures
            match connected {
                Ok(client) => r matches Ok(db) && db.client() == client,
                Err(failure) => r matches Err(DbError::WeldsConnection(m)) && displays_as(
                    failure,
                    m@,
                ),
            },
    {
        match connected {
            Ok(client) => Ok(Db { client: Arc::new(client) }),
            Err(failure) => Err(DbError::from_welds_connection_error(failure)),
        }
    }

    /// The handle that was published to the running request, or
    /// [`DbError::MissingContext`] where none was.
    pub fn from_context(published: Option<Db>) -> (r: DbResult<Db>)
        ensures
            match published {
                Some(db) => r == Ok::<Db, DbError>(db),
                None => r == Err::<Db, DbError>(DbError::MissingContext),
            },
    {
        match published {
            Some(db) => Ok(db),
            None => Err(DbError::MissingContext),
        }
    }

    /// The pooled connection that the handle shares.
    pub fn as_client(&self) -> (r: &SqliteClient)
        ensures
            *r == self.client(),
    {
        &self.client
    }

    /// The transaction that was begun on the connection, or the failure to
    /// begin it as [`DbError::WeldsConnection`].
    pub fn transaction<'t>(begun: Result<Transaction<'t>, welds::connections::Error>) -> (r:
        DbResult<Transaction<'t>>)
        ensures
            match begun {
                Ok(transaction) => r == Ok::<Transaction<'t>, DbError>(transaction),
                Err(failure) => r matches Err(DbError::WeldsConnection(m)) && displays_as(
                    failure,
                    m@,
                ),
            },
    {
        match begun {
            Ok(transaction) => Ok(transaction),
            Err(failure) => Err(DbError::from_welds_connection_error(failure)),
        }
    }
}

} // verus!
