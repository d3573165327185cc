//! The Databricks connector: which engine its parameters select.

use vstd::prelude::*;

use crate::params::value_or_empty;
use crate::params::views;
use crate::params::Parameters;
use crate::text::same_text;

verus! {

/// What can go wrong when the connector is built or asked for a provider.
#[derive(Clone, Debug, PartialEq, Eq)]
pub enum Error {
    MissingEndpoint,
    InvalidEndpoint { endpoint: String, source: String },
    /// The storage mode does not go with the table format.
    InvalidFormat { mode: String, format: String },
    UnableToConstructDatabricksSpark { source: String },
    UnableToGetReadProvider { source: String },
    UnableToGetReadWriteProvider { source: String },
}

impl Error {
    /// The text that [`Error::message`] returns.
    pub open spec fn message_text(&self) -> Seq<char> {
        match self {
            Error::MissingEndpoint => "Missing required parameter: endpoint"@,
            Error::InvalidEndpoint { endpoint, source } => "Endpoint "@ + endpoint@
                + " is invalid: "@ + source@,
            Error::InvalidFormat { mode, format } => "Invalid format '"@ + format@
                + "' for mode '"@ + mode@ + "'. Valid combinations: s3/deltalake"@,
            Error::UnableToConstructDatabricksSpark { source } => source@,
            Error::UnableToGetReadProvider { source } => source@,
            Error::UnableToGetReadWriteProvider { source } => source@,
        }
    }

    /// The error as text for a person to read.
    pub fn message(&self) -> (text: String)
        ensures
            text@ == self.message_text(),
    {
        match self {
            Error::MissingEndpoint => String::from_str("Missing required parameter: endpoint"),
            Error::InvalidEndpoint { endpoint, source } => {
                let mut text = String::from_str("Endpoint ");
                text.append(endpoint.as_str());
                text.append(" is invalid: ");
                text.append(source.as_str());
                text
            },
            Error::InvalidFormat { mode, format } => {
                let mut text = String::from_str("Invalid format '");
                text.append(format.as_str());
                text.append("' for mode '");
                text.append(mode.as_str());
                text.append("'. Valid combinations: s3/deltalake");
                text
            },
            Error::UnableToConstructDatabricksSpark { source } => source.clone(),
            Error::UnableToGetReadProvider { source } => source.clone(),
            Error::UnableToGetReadWriteProvider { source } => source.clone(),
        }
    }
}

/// The engine behind a Databricks connector.
#[derive(Clone, Copy, Debug, PartialEq, Eq, Structural)]
pub enum Engine {
    /// Delta tables read straight from object storage.
    Delta,
    /// A remote Spark session.
    SparkConnect,
}

/// The engine that a storage mode and a table format select, where they go
/// together: `s3` storage goes with the `deltalake` format and with no
/// other; every other mode selects the remote session, whatever the format.
pub open spec fn engine_of(mode: Seq<char>, format: Seq<char>) -> Option<Engine> {
    if mode == "s3"@ {
        if format == "deltalake"@ {
            Some(Engine::Delta)
        } else {
            None
        }
    } else {
        Some(Engine::SparkConnect)
    }
}

/// A Databricks connector: the provider it reads through and the one it
/// reads and writes through.
pub struct Databricks<R, W> {
    pub read_provider: R,
    pub read_write_provider: W,
}

impl<R, W> Databricks<R, W> {
    /// The engine that the parameters `mode` and `format` select; a missing
    /// parameter counts as empty. Where they do not go together, the error
    /// names both as they were given.
    pub fn engine(params: Option<&Parameters>) -> (engine: Result<Engine, Error>)
        ensures
            match engine {
                Ok(selected) => engine_of(
                    value_or_empty(views(params), "mode"@),
                    value_or_empty(views(params), "format"@),
                ) == Some(selected),
                Err(Error::InvalidFormat { mode, format }) => {
                    &&& mode@ == value_or_empty(views(params), "mode"@)
                    &&& format@ == value_or_empty(views(params), "format"@)
                    &&& engine_of(mode@, format@) is None
                },
                Err(_) => false,
            },
    {
        let mode = Parameters::get_or_default(params, "mode");
        let format = Parameters::get_or_default(params, "format");
        if same_text(mode.as_str(), "s3") {
            if same_text(format.as_str(), "deltalake") {
                Ok(Engine::Delta)
            } else {
                Err(Error::InvalidFormat { mode, format })
            }
        } else {
            Ok(Engine::SparkConnect)
        }
    }

    /// The connector over the providers of its engine, or, where the engine
    /// could not be built, the construction error with the builder's own
    /// text.
    pub fn new(built: Result<(R, W), String>) -> (connector: Result<Self, Error>)
        ensures
            built matches Ok(providers) ==> connector == Ok::<Self, Error>(
                Databricks { read_provider: providers.0, read_write_provider: providers.1 },
            ),
            built matches Err(source) ==> connector == Err::<Self, Error>(
                Error::UnableToConstructDatabricksSpark { source },
            ),
    {
        match built {
            Ok((read_provider, read_write_provider)) => Ok(
                Databricks { read_provider, read_write_provider },
            ),
            Err(source) => Err(Error::UnableToConstructDatabricksSpark { source }),
        }
    }

    /// What asking for a read-only provider becomes: the provider, or the
    /// error with the factory's own text.
    pub fn read_provider<T>(provided: Result<T, String>) -> (provider: Result<T, Error>)
        ensures
            provided matches Ok(table) ==> provider == Ok::<T, Error>(table),
            provided matches Err(source) ==> provider == Err::<T, Error>(
                Error::UnableToGetReadProvider { source },
            ),
    {
        match provided {
            Ok(table) => Ok(table),
            Err(source) => Err(Error::UnableToGetReadProvider { source }),
        }
    }

    /// What asking for a read-write provider becomes. The connector always
    /// offers one, so the answer is never `None`: it is the provider, or
    /// the error with the factory's own text.
    pub fn read_write_provider<T>(provided: Result<T, String>) -> (provider: Option<
        Result<T, Error>,
    >)
        ensures
            provided matches Ok(table) ==> provider == Some(Ok::<T, Error>(table)),
            provided matches Err(source) ==> provider == Some(
                Err::<T, Error>(Error::UnableToGetReadWriteProvider { source }),
            ),
    {
        match provided {
            Ok(table) => Some(Ok(table)),
            Err(source) => Some(Err(Error::UnableToGetReadWriteProvider { source })),
        }
    }
}

} // verus!
