//! The Postgres connector: a table factory over a pool of its own.

use vstd::prelude::*;

use crate::data_components::postgres::PostgresTableFactory;
use crate::text::prefixed;

verus! {

/// What can go wrong when the connector is built or asked for a provider.
#[derive(Clone, Debug, PartialEq, Eq)]
pub enum Error {
    UnableToCreatePostgresConnectionPool { source: String },
    UnableToGetReadProvider { source: String },
    UnableToGetReadWriteProvider { source: String },
}

impl Error {
    /// The text that [`Error::message`] returns.
    pub open spec fn message_text(&self) -> Seq<char> {
        match self {
            Error::UnableToCreatePostgresConnectionPool { source } =>
                "Unable to create Postgres connection pool: "@ + source@,
            Error::UnableToGetReadProvider { source } => source@,
            Error::UnableToGetReadWriteProvider { source } => source@,
        }
    }

    /// The error as text for a person to read.
    pub fn message(&self) -> (text: String)
        ensures
            text@ == self.message_text(),
    {
        match self {
            Error::UnableToCreatePostgresConnectionPool { source } => prefixed(
                "Unable to create Postgres connection pool: ",
                source.as_str(),
            ),
            Error::UnableToGetReadProvider { source } => source.clone(),
            Error::UnableToGetReadWriteProvider { source } => source.clone(),
        }
    }
}

/// A Postgres connector: the factory of its tables.
pub struct Postgres<P> {
    pub postgres_factory: PostgresTableFactory<P>,
}

impl<P> Postgres<P> {
    /// The connector over a table factory on the pool, or, where the pool
    /// could not be built, the error with the builder's own text.
    pub fn create(built: Result<P, String>) -> (connector: Result<Self, Error>)
        ensures
            built matches Ok(pool) ==> connector == Ok::<Self, Error>(
                Postgres { postgres_factory: PostgresTableFactory { pool } },
            ),
            built matches Err(source) ==> connector == Err::<Self, Error>(
                Error::UnableToCreatePostgresConnectionPool { source },
            ),
    {
        match built {
            Ok(pool) => Ok(Postgres { postgres_factory: PostgresTableFactory::new(pool) }),
            Err(source) => Err(Error::UnableToCreatePostgresConnectionPool { source }),
        }
    }

    /// What asking for a read-only provider becomes: the provider, or the
    /// error with the factory's own text.
    pub fn read_provider<T>(provided: Result<T, String>) -> (provider: Result<T, Error>)
        ensures
            provided matches Ok(table) ==> provider == Ok::<T, Error>(table),
            provided matches Err(source) ==> provider == Err::<T, Error>(
                Error::UnableToGetReadProvider { source },
            ),
    {
        match provided {
            Ok(table) => Ok(table),
            Err(source) => Err(Error::UnableToGetReadProvider { source }),
        }
    }
}

} // verus!
