//! The write-back controller of the network-protocol backend, its table
//! factories, and the statements it issues.

use vstd::prelude::*;

use crate::data_components::postgres::write::Action;
use crate::data_components::postgres::write::Session;
use crate::dbconnection::postgresconn::PostgresConnection;
use crate::dbconnection::Backend;
use crate::dbconnection::DbConnection;
use crate::table_reference::dotted;
use crate::table_reference::TableReference;
use crate::text::enclosed;
use crate::text::prefixed;

pub mod write;

verus! {

/// What can go wrong on the write-back path.
#[derive(Clone, Debug, PartialEq, Eq)]
pub enum Error {
    /// No connection could be had from the pool, or the connection failed
    /// under the existence check.
    DbConnectionError { source: String },
    /// The pool itself could not be built.
    UnableToCreatePostgresConnectionPool { source: String },
    /// The pooled connection is not the network-protocol adapter.
    UnableToDowncastDbConnection {  },
    /// The backend refused to open a transaction.
    UnableToBeginTransaction { source: String },
    /// The backend rejected the `CREATE TABLE` statement.
    UnableToCreatePostgresTable { source: String },
    /// The backend failed to commit.
    UnableToCommitPostgresTransaction { source: String },
    /// The read-only table construct could not be built.
    UnableToConstructSqlTable { source: String },
    /// A filter expression could not be turned into SQL.
    UnableToGenerateSQL { source: String },
    /// The backend rejected the unconditional `DELETE`.
    UnableToDeleteAllTableData { source: String },
    /// The backend rejected the filtered `DELETE`.
    UnableToDeleteData { source: String },
    /// The backend rejected the `INSERT` of a batch.
    UnableToInsertArrowBatch { source: String },
    /// The existence check found no table of this name.
    TableDoesntExist { table_name: String },
}

impl Error {
    /// The text that [`Error::message`] returns.
    pub open spec fn message_text(&self) -> Seq<char> {
        match self {
            Error::DbConnectionError { source } => "DbConnectionError: "@ + source@,
            Error::UnableToCreatePostgresConnectionPool { source } =>
                "Unable to create Postgres connection pool: "@ + source@,
            Error::UnableToDowncastDbConnection {  } =>
                "Unable to downcast DbConnection to PostgresConnection"@,
            Error::UnableToBeginTransaction { source } => "Unable to begin Postgres transaction: "@
                + source@,
            Error::UnableToCreatePostgresTable { source } =>
                "Unable to create the Postgres table: "@ + source@,
            Error::UnableToCommitPostgresTransaction { source } =>
                "Unable to commit the Postgres transaction: "@ + source@,
            Error::UnableToConstructSqlTable { source } =>
                "Unable to construct the DataFusion SQL Table Provider for Postgres: "@ + source@,
            Error::UnableToGenerateSQL { source } => "Unable to generate SQL: "@ + source@,
            Error::UnableToDeleteAllTableData { source } =>
                "Unable to delete all data from the Postgres table: "@ + source@,
            Error::UnableToDeleteData { source } =>
                "Unable to delete data from the Postgres table: "@ + source@,
            Error::UnableToInsertArrowBatch { source } =>
                "Unable to insert Arrow batch to Postgres table: "@ + source@,
            Error::TableDoesntExist { table_name } => "The table '"@ + table_name@
                + "' doesn't exist in the Postgres server"@,
        }
    }

    /// The error as text for a person to read.
    pub fn message(&self) -> (text: String)
        ensures
            text@ == self.message_text(),
    {
        match self {
            Error::DbConnectionError { source } => prefixed("DbConnectionError: ", source.as_str()),
            Error::UnableToCreatePostgresConnectionPool { source } => prefixed(
                "Unable to create Postgres connection pool: ",
                source.as_str(),
            ),
            Error::UnableToDowncastDbConnection {  } => String::from_str(
                "Unable to downcast DbConnection to PostgresConnection",
            ),
            Error::UnableToBeginTransaction { source } => prefixed(
                "Unable to begin Postgres transaction: ",
                source.as_str(),
            ),
            Error::UnableToCreatePostgresTable { source } => prefixed(
                "Unable to create the Postgres table: ",
                source.as_str(),
            ),
            Error::UnableToCommitPostgresTransaction { source } => prefixed(
                "Unable to commit the Postgres transaction: ",
                source.as_str(),
            ),
            Error::UnableToConstructSqlTable { source } => prefixed(
                "Unable to construct the DataFusion SQL Table Provider for Postgres: ",
                source.as_str(),
            ),
            Error::UnableToGenerateSQL { source } => prefixed(
                "Unable to generate SQL: ",
                source.as_str(),
            ),
            Error::UnableToDeleteAllTableData { source } => prefixed(
                "Unable to delete all data from the Postgres table: ",
                source.as_str(),
            ),
            Error::UnableToDeleteData { source } => prefixed(
                "Unable to delete data from the Postgres table: ",
                source.as_str(),
            ),
            Error::UnableToInsertArrowBatch { source } => prefixed(
                "Unable to insert Arrow batch to Postgres table: ",
                source.as_str(),
            ),
            Error::TableDoesntExist { table_name } => enclosed(
                "The table '",
                table_name.as_str(),
                "' doesn't exist in the Postgres server",
            ),
        }
    }
}

/// The statement that asks whether a table of this name exists; it answers
/// with one row that holds one boolean.
pub open spec fn table_exists_text(table_name: Seq<char>) -> Seq<char> {
    "SELECT EXISTS (SELECT 1 FROM information_schema.tables WHERE table_name = '"@ + table_name
        + "')"@
}

/// The statement that deletes every row of the table.
pub open spec fn delete_all_text(table_name: Seq<char>) -> Seq<char> {
    "DELETE FROM \""@ + table_name + "\""@
}

/// The statement that deletes the rows that meet the predicate and answers
/// with their number.
pub open spec fn delete_from_text(table_name: Seq<char>, where_clause: Seq<char>) -> Seq<char> {
    "WITH deleted AS (DELETE FROM \""@ + table_name + "\" WHERE "@ + where_clause
        + " RETURNING *) SELECT COUNT(*) FROM deleted"@
}

/// What a deletion error says of a count below zero.
pub open spec fn negative_count_text() -> Seq<char> {
    "the backend counted a negative number of deleted rows"@
}

/// The write-back controller of one table: its name, fixed for the
/// controller's life, and the pool that its connections come from.
#[derive(Clone)]
pub struct Postgres<P> {
    table_name: String,
    pool: P,
}

impl<P> Postgres<P> {
    /// The name of the controller's table.
    pub closed spec fn name(&self) -> String {
        self.table_name
    }

    /// The pool of the controller.
    pub closed spec fn shared_pool(&self) -> P {
        self.pool
    }

    /// The controller of the table `table_name`, over `pool`.
    pub fn new(table_name: String, pool: P) -> (controller: Self)
        ensures
            controller.name() == table_name,
            controller.shared_pool() == pool,
    {
        Postgres { table_name, pool }
    }

    /// The name of the controller's table.
    pub fn table_name(&self) -> (name: &str)
        ensures
            name@ == self.name()@,
    {
        self.table_name.as_str()
    }

    /// The pool of the controller.
    pub fn pool(&self) -> (pool: &P)
        ensures
            *pool == self.shared_pool(),
    {
        &self.pool
    }

    /// Opens the session of a write of `statements` statements: it starts by
    /// asking for a pooled connection, and goes on to the existence check
    /// before anything else.
    pub fn connect(&self, statements: usize) -> (start: (Session, Action))
        ensures
            start == Session::write_start(self.name(), statements),
            start.0.well_formed(),
    {
        Session::write(self.table_name.clone(), statements)
    }

    /// Recovers the network-protocol adapter from a pooled connection: the
    /// adapter exactly when the connection is one, and otherwise the error
    /// that says it could not be narrowed. What is then done to the adapter
    /// is done to the connection, which is otherwise left as it was.
    pub fn postgres_conn<T, O>(db_connection: &mut DbConnection<T, O>) -> (adapter: Result<
        &mut PostgresConnection<T>,
        Error,
    >)
        ensures
            adapter is Ok <==> old(db_connection).backend() == Backend::Postgres,
            adapter matches Ok(connection) ==> *old(db_connection) == DbConnection::<
                T,
                O,
            >::Postgres(*connection) && *final(db_connection) == DbConnection::<T, O>::Postgres(
                *final(connection),
            ),
            adapter matches Err(error) ==> error == (Error::UnableToDowncastDbConnection {  })
                && *final(db_connection) == *old(db_connection),
    {
        match db_connection.as_postgres_mut() {
            Some(connection) => Ok(connection),
            None => Err(Error::UnableToDowncastDbConnection {  }),
        }
    }

    /// The existence check of the controller's table.
    pub fn table_exists_query(&self) -> (sql: String)
        ensures
            sql@ == table_exists_text(self.name()@),
    {
        enclosed(
            "SELECT EXISTS (SELECT 1 FROM information_schema.tables WHERE table_name = '",
            self.table_name.as_str(),
            "')",
        )
    }

    /// What the existence check found: whether the table exists, where the
    /// backend answered. A check that failed says nothing of the table: it
    /// is a connection error with the backend's own text, and never counts
    /// as absence.
    pub fn table_exists(answer: Result<bool, String>) -> (exists: Result<bool, Error>)
        ensures
            answer matches Ok(found) ==> exists == Ok::<bool, Error>(found),
            answer matches Err(source) ==> exists == Err::<bool, Error>(
                Error::DbConnectionError { source },
            ),
    {
        match answer {
            Ok(found) => Ok(found),
            Err(source) => Err(Error::DbConnectionError { source }),
        }
    }

    /// What the `INSERT` of one batch becomes: done, or the insertion error
    /// with the backend's own text.
    pub fn insert_batch(executed: Result<u64, String>) -> (done: Result<(), Error>)
        ensures
            executed is Ok ==> done == Ok::<(), Error>(()),
            executed matches Err(source) ==> done == Err::<(), Error>(
                Error::UnableToInsertArrowBatch { source },
            ),
    {
        match executed {
            Ok(_) => Ok(()),
            Err(source) => Err(Error::UnableToInsertArrowBatch { source }),
        }
    }

    /// The statement that deletes every row of the controller's table.
    pub fn delete_all_table_data_statement(&self) -> (sql: String)
        ensures
            sql@ == delete_all_text(self.name()@),
    {
        enclosed("DELETE FROM \"", self.table_name.as_str(), "\"")
    }

    /// What the unconditional `DELETE` becomes: done, or the deletion error
    /// with the backend's own text.
    pub fn delete_all_table_data(executed: Result<u64, String>) -> (done: Result<(), Error>)
        ensures
            executed is Ok ==> done == Ok::<(), Error>(()),
            executed matches Err(source) ==> done == Err::<(), Error>(
                Error::UnableToDeleteAllTableData { source },
            ),
    {
        match executed {
            Ok(_) => Ok(()),
            Err(source) => Err(Error::UnableToDeleteAllTableData { source }),
        }
    }

    /// The statement that deletes the rows of the controller's table that
    /// meet `where_clause`, and counts them. The predicate is the caller's
    /// and goes into the statement as it is.
    pub fn delete_from_query(&self, where_clause: &str) -> (sql: String)
        ensures
            sql@ == delete_from_text(self.name()@, where_clause@),
    {
        let mut sql = enclosed(
            "WITH deleted AS (DELETE FROM \"",
            self.table_name.as_str(),
            "\" WHERE ",
        );
        sql.append(where_clause);
        sql.append(" RETURNING *) SELECT COUNT(*) FROM deleted");
        sql
    }

    /// The predicate of a filtered `DELETE` as the statement generator wrote
    /// it, or, where it could not write one, the generation error with its
    /// own text.
    pub fn where_clause(generated: Result<String, String>) -> (predicate: Result<String, Error>)
        ensures
            generated matches Ok(sql) ==> predicate == Ok::<String, Error>(sql),
            generated matches Err(source) ==> predicate == Err::<String, Error>(
                Error::UnableToGenerateSQL { source },
            ),
    {
        match generated {
            Ok(sql) => Ok(sql),
            Err(source) => Err(Error::UnableToGenerateSQL { source }),
        }
    }

    /// What the counting `DELETE` becomes: the number of deleted rows as the
    /// backend counted them, or the deletion error with the backend's own
    /// text. A count below zero is no count of rows: it is a deletion error
    /// too, which says so.
    pub fn delete_from(counted: Result<i64, String>) -> (deleted: Result<u64, Error>)
        ensures
            counted matches Ok(count) ==> (count >= 0 ==> deleted == Ok::<u64, Error>(
                count as u64,
            )),
            counted matches Ok(count) ==> (count < 0 ==> (deleted matches Err(
                Error::UnableToDeleteData { source },
            ) && source@ == negative_count_text())),
            counted matches Err(source) ==> deleted == Err::<u64, Error>(
                Error::UnableToDeleteData { source },
            ),
    {
        match counted {
            Ok(count) => {
                if count >= 0 {
                    Ok(count as u64)
                } else {
                    Err(
                        Error::UnableToDeleteData {
                            source: String::from_str(
                                "the backend counted a negative number of deleted rows",
                            ),
                        },
                    )
                }
            },
            Err(source) => Err(Error::UnableToDeleteData { source }),
        }
    }

    /// What the `CREATE TABLE` becomes: done, or the creation error with the
    /// backend's own text.
    pub fn create_table(executed: Result<u64, String>) -> (done: Result<(), Error>)
        ensures
            executed is Ok ==> done == Ok::<(), Error>(()),
            executed matches Err(source) ==> done == Err::<(), Error>(
                Error::UnableToCreatePostgresTable { source },
            ),
    {
        match executed {
            Ok(_) => Ok(()),
            Err(source) => Err(Error::UnableToCreatePostgresTable { source }),
        }
    }
}

/// Builds table handles over one shared pool: read-only ones, and
/// read-write ones that carry a write-back controller.
pub struct PostgresTableFactory<P> {
    pub pool: P,
}

impl<P> PostgresTableFactory<P> {
    /// The factory over `pool`.
    pub fn new(pool: P) -> (factory: Self)
        ensures
            factory.pool == pool,
    {
        PostgresTableFactory { pool }
    }

    /// The two parts of a read-write handle to `table_reference`: the
    /// read-only handle, and the write-back controller, which is named by
    /// the plain text of the reference and shares `pool`. Where the
    /// read-only handle could not be built, its failure is handed on as it
    /// came, and no controller is made.
    pub fn table_provider<T, E>(
        table_reference: &TableReference,
        pool: P,
        read_provider: Result<T, E>,
    ) -> (provider: Result<(T, Postgres<P>), E>)
        ensures
            read_provider matches Err(error) ==> provider == Err::<(T, Postgres<P>), E>(error),
            read_provider matches Ok(table) ==> provider is Ok && provider->Ok_0.0 == table
                && provider->Ok_0.1.name()@ == dotted(table_reference@)
                && provider->Ok_0.1.shared_pool() == pool,
    {
        match read_provider {
            Ok(table) => Ok((table, Self::controller(table_reference, pool))),
            Err(error) => Err(error),
        }
    }

    /// The write-back controller of a read-write handle: it is named by the
    /// plain text of the table reference and shares `pool`.
    pub fn controller(table_reference: &TableReference, pool: P) -> (controller: Postgres<P>)
        ensures
            controller.name()@ == dotted(table_reference@),
            controller.shared_pool() == pool,
    {
        Postgres::new(table_reference.to_string(), pool)
    }
}

/// Creates a table in the backend and hands back a read-write handle to it.
pub struct PostgresTableProviderFactory {}

impl PostgresTableProviderFactory {
    /// The factory.
    pub fn new() -> (factory: Self)
        ensures
            factory == (PostgresTableProviderFactory {  }),
    {
        PostgresTableProviderFactory {  }
    }

    /// Opens the session that creates the table `name` from end to end: it
    /// starts by building the pool.
    pub fn create(&self, name: String) -> (start: (Session, Action))
        ensures
            start == Session::create_start(name),
            start.0.well_formed(),
    {
        Session::create(name)
    }

    /// The reference under which the created table is read: its bare name.
    pub fn created(name: String) -> (table_reference: TableReference)
        ensures
            table_reference == (TableReference::Bare { table: name }),
    {
        TableReference::bare(name)
    }
}

impl Default for PostgresTableProviderFactory {
    fn default() -> (factory: Self)
        ensures
            factory == (PostgresTableProviderFactory {  }),
    {
        Self::new()
    }
}

} // verus!
