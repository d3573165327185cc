//! The read-only table factory of the MySQL backend.

use vstd::prelude::*;

use crate::text::prefixed;

verus! {

/// What can go wrong when a table handle is built.
#[derive(Clone, Debug, PartialEq, Eq)]
pub enum Error {
    /// The read-only table construct could not be built over the pool.
    UnableToConstructSQLTable { source: String },
}

impl Error {
    /// The text that [`Error::message`] returns.
    pub open spec fn message_text(&self) -> Seq<char> {
        match self {
            Error::UnableToConstructSQLTable { source } => "Unable to construct SQL table: "@
                + source@,
        }
    }

    /// The error as text for a person to read.
    pub fn message(&self) -> (text: String)
        ensures
            text@ == self.message_text(),
    {
        match self {
            Error::UnableToConstructSQLTable { source } => prefixed(
                "Unable to construct SQL table: ",
                source.as_str(),
            ),
        }
    }
}

/// Builds read-only table handles over one shared pool.
pub struct MySQLTableFactory<P> {
    pub pool: P,
}

impl<P> MySQLTableFactory<P> {
    /// The factory over `pool`.
    pub fn new(pool: P) -> (factory: Self)
        ensures
            factory.pool == pool,
    {
        MySQLTableFactory { pool }
    }

    /// What building the table construct becomes: the construct itself, or
    /// a construction error with the builder's own text.
    pub fn table_provider<T>(constructed: Result<T, String>) -> (provider: Result<T, Error>)
        ensures
            constructed matches Ok(table) ==> provider == Ok::<T, Error>(table),
            constructed matches Err(source) ==> provider == Err::<T, Error>(
                Error::UnableToConstructSQLTable { source },
            ),
    {
        match constructed {
            Ok(table) => Ok(table),
            Err(source) => Err(Error::UnableToConstructSQLTable { source }),
        }
    }
}

} // verus!
