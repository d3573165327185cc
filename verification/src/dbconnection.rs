//! The connection capability: one pooled, backend-native connection behind a
//! closed set of adapters, and the narrowing that recovers an adapter from it.

use vstd::prelude::*;

use crate::dbconnection::odbcconn::ODBCConnection;
use crate::dbconnection::postgresconn::PostgresConnection;
use crate::table_reference::quoted;
use crate::table_reference::TableReference;

pub mod odbcconn;
pub mod postgresconn;

verus! {

/// The adapters that a pooled connection can be.
#[derive(Clone, Copy, Debug, PartialEq, Eq, Structural)]
pub enum Backend {
    /// The network-protocol adapter, [`PostgresConnection`].
    Postgres,
    /// The driver-manager adapter, [`ODBCConnection`].
    Odbc,
}

/// A connection as a pool hands it out: exactly one adapter, which owns
/// exactly one backend-native connection. `P` is the native connection of the
/// network-protocol backend, `O` that of the driver-manager backend.
#[derive(Debug, PartialEq, Eq)]
pub enum DbConnection<P, O> {
    Postgres(PostgresConnection<P>),
    Odbc(ODBCConnection<O>),
}

impl<P, O> DbConnection<P, O> {
    /// The adapter that this connection is.
    pub open spec fn backend_spec(&self) -> Backend {
        match self {
            DbConnection::Postgres(_) => Backend::Postgres,
            DbConnection::Odbc(_) => Backend::Odbc,
        }
    }

    /// The adapter that this connection is.
    #[verifier::when_used_as_spec(backend_spec)]
    pub fn backend(&self) -> (backend: Backend)
        ensures
            backend == self.backend_spec(),
    {
        match self {
            DbConnection::Postgres(_) => Backend::Postgres,
            DbConnection::Odbc(_) => Backend::Odbc,
        }
    }

    /// Narrows to the network-protocol adapter: `Some` exactly when the
    /// connection is one, and then the adapter it holds.
    pub fn as_postgres(&self) -> (adapter: Option<&PostgresConnection<P>>)
        ensures
            adapter.is_some() <==> self.backend() == Backend::Postgres,
            adapter matches Some(connection) ==> *self == DbConnection::<P, O>::Postgres(*connection),
    {
        match self {
            DbConnection::Postgres(connection) => Some(connection),
            DbConnection::Odbc(_) => None,
        }
    }

    /// Narrows to the driver-manager adapter: `Some` exactly when the
    /// connection is one, and then the adapter it holds.
    pub fn as_odbc(&self) -> (adapter: Option<&ODBCConnection<O>>)
        ensures
            adapter.is_some() <==> self.backend() == Backend::Odbc,
            adapter matches Some(connection) ==> *self == DbConnection::<P, O>::Odbc(*connection),
    {
        match self {
            DbConnection::Postgres(_) => None,
            DbConnection::Odbc(connection) => Some(connection),
        }
    }

    /// Narrows to the network-protocol adapter for a change of it: `Some`
    /// exactly when the connection is one. What is done to the adapter is
    /// done to the connection.
    pub fn as_postgres_mut(&mut self) -> (adapter: Option<&mut PostgresConnection<P>>)
        ensures
            adapter.is_some() <==> old(self).backend() == Backend::Postgres,
            adapter matches Some(connection) ==> *old(self) == DbConnection::<P, O>::Postgres(
                *connection,
            ) && *final(self) == DbConnection::<P, O>::Postgres(*final(connection)),
            adapter is None ==> *final(self) == *old(self),
    {
        match self {
            DbConnection::Postgres(connection) => Some(connection),
            DbConnection::Odbc(_) => None,
        }
    }

    /// Narrows to the driver-manager adapter for a change of it: `Some`
    /// exactly when the connection is one. What is done to the adapter is
    /// done to the connection.
    pub fn as_odbc_mut(&mut self) -> (adapter: Option<&mut ODBCConnection<O>>)
        ensures
            adapter.is_some() <==> old(self).backend() == Backend::Odbc,
            adapter matches Some(connection) ==> *old(self) == DbConnection::<P, O>::Odbc(
                *connection,
            ) && *final(self) == DbConnection::<P, O>::Odbc(*final(connection)),
            adapter is None ==> *final(self) == *old(self),
    {
        match self {
            DbConnection::Postgres(_) => None,
            DbConnection::Odbc(connection) => Some(connection),
        }
    }

    /// Takes the network-protocol adapter out: `Ok` with the adapter exactly
    /// when the connection is one, otherwise the connection handed back.
    pub fn into_postgres(self) -> (adapter: Result<PostgresConnection<P>, Self>)
        ensures
            adapter.is_ok() <==> self.backend() == Backend::Postgres,
            adapter matches Ok(connection) ==> self == DbConnection::<P, O>::Postgres(connection),
            adapter matches Err(other) ==> other == self,
    {
        match self {
            DbConnection::Postgres(connection) => Ok(connection),
            other => Err(other),
        }
    }

    /// Takes the driver-manager adapter out: `Ok` with the adapter exactly
    /// when the connection is one, otherwise the connection handed back.
    pub fn into_odbc(self) -> (adapter: Result<ODBCConnection<O>, Self>)
        ensures
            adapter.is_ok() <==> self.backend() == Backend::Odbc,
            adapter matches Ok(connection) ==> self == DbConnection::<P, O>::Odbc(connection),
            adapter matches Err(other) ==> other == self,
    {
        match self {
            DbConnection::Odbc(connection) => Ok(connection),
            other => Err(other),
        }
    }
}

/// The pool capability: the one way to come by a [`DbConnection`]. A pool is
/// shared by every table handle and controller of its backend, and hands
/// each caller a connection of its own. Whether a connection can be had is
/// the backend's to decide, so nothing is promised of the outcome; a
/// failure carries the backend's own text and is not retried.
pub trait DbConnectionPool<P, O> {
    /// A connection on its way.
    type Connecting: core::future::Future<Output = Result<DbConnection<P, O>, String>>;

    /// Asks for a connection.
    fn connect(&self) -> Self::Connecting;
}

/// The statement that samples one row of a table, from which its schema is
/// inferred.
pub open spec fn schema_query_text(reference: Seq<Seq<char>>) -> Seq<char> {
    "SELECT * FROM "@ + quoted(reference) + " LIMIT 1"@
}

/// The statement that both adapters issue to reflect the schema of
/// `table_reference`: a single-row sample of the quoted reference.
pub fn schema_query(table_reference: &TableReference) -> (sql: String)
    ensures
        sql@ == schema_query_text(table_reference@),
{
    let mut sql = String::from_str("SELECT * FROM ");
    let reference = table_reference.to_quoted_string();
    sql.append(reference.as_str());
    sql.append(" LIMIT 1");
    sql
}

/// A connection is the adapter that it was made of, whatever native
/// connection that adapter owns: one made of the network-protocol adapter
/// narrows to it and to no other, and so does one made of the
/// driver-manager adapter.
pub proof fn connection_is_its_adapter<P, O>(
    postgres: PostgresConnection<P>,
    odbc: ODBCConnection<O>,
)
    ensures
        DbConnection::<P, O>::Postgres(postgres).backend() == Backend::Postgres,
        DbConnection::<P, O>::Postgres(postgres).backend() != Backend::Odbc,
        DbConnection::<P, O>::Odbc(odbc).backend() == Backend::Odbc,
        DbConnection::<P, O>::Odbc(odbc).backend() != Backend::Postgres,
{
}

} // verus!
