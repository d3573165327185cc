//! The Dremio connector: what it needs before it can reach its endpoint.

use vstd::prelude::*;

use crate::params::value_or_empty;
use crate::params::views;
use crate::params::Parameters;
use crate::params::Secret;
use crate::text::prefixed;

verus! {

/// What can go wrong when the connector is built or asked for a provider.
#[derive(Clone, Debug, PartialEq, Eq)]
pub enum Error {
    MissingEndpointParameter,
    MissingSecrets,
    UnableToVerifyEndpointConnection { source: String, endpoint: String },
    UnableToCreateFlightClient { source: String },
    UnableToGetReadProvider { source: String },
    UnableToGetReadWriteProvider { source: String },
}

impl Error {
    /// The text that [`Error::message`] returns.
    pub open spec fn message_text(&self) -> Seq<char> {
        match self {
            Error::MissingEndpointParameter => "Missing required parameter: endpoint"@,
            Error::MissingSecrets => "Missing required secrets"@,
            Error::UnableToVerifyEndpointConnection { source, endpoint } =>
                "Unable to connect to endpoint \""@ + endpoint@ + "\": "@ + source@,
            Error::UnableToCreateFlightClient { source } => "Unable to create flight client: "@
                + source@,
            Error::UnableToGetReadProvider { source } => source@,
            Error::UnableToGetReadWriteProvider { source } => source@,
        }
    }

    /// The error as text for a person to read.
    pub fn message(&self) -> (text: String)
        ensures
            text@ == self.message_text(),
    {
        match self {
            Error::MissingEndpointParameter => String::from_str(
                "Missing required parameter: endpoint",
            ),
            Error::MissingSecrets => String::from_str("Missing required secrets"),
            Error::UnableToVerifyEndpointConnection { source, endpoint } => {
                let mut text = String::from_str("Unable to connect to endpoint \"");
                text.append(endpoint.as_str());
                text.append("\": ");
                text.append(source.as_str());
                text
            },
            Error::UnableToCreateFlightClient { source } => prefixed(
                "Unable to create flight client: ",
                source.as_str(),
            ),
            Error::UnableToGetReadProvider { source } => source.clone(),
            Error::UnableToGetReadWriteProvider { source } => source.clone(),
        }
    }
}

/// What the connector reaches its endpoint with.
#[derive(Clone, Debug, PartialEq, Eq)]
pub struct Settings {
    pub endpoint: String,
    pub username: String,
    pub password: String,
}

/// The value of `name` in the secret, and the empty text where it has none.
pub open spec fn credential(secret: Map<Seq<char>, Seq<char>>, name: Seq<char>) -> Seq<char> {
    value_or_empty(Some(secret), name)
}

/// A Dremio connector: the factory of its tables.
pub struct Dremio<F> {
    pub flight_factory: F,
}

impl<F> Dremio<F> {
    /// What the connector reaches its endpoint with. A secret is needed,
    /// and then the `endpoint` parameter: where the secret is missing the
    /// error says so, whatever the parameters are. A user name or password
    /// that the secret does not hold is empty.
    pub fn settings(secret: Option<&Secret>, params: Option<&Parameters>) -> (settings: Result<
        Settings,
        Error,
    >)
        ensures
            match settings {
                Ok(found) => {
                    &&& secret matches Some(held)
                    &&& params matches Some(values)
                    &&& values@.contains_key("endpoint"@)
                    &&& found.endpoint@ == values@["endpoint"@]
                    &&& found.username@ == credential(held@, "username"@)
                    &&& found.password@ == credential(held@, "password"@)
                },
                Err(Error::MissingSecrets) => secret is None,
                Err(Error::MissingEndpointParameter) => secret is Some && !(params matches Some(
                    values,
                ) && values@.contains_key("endpoint"@)),
                Err(_) => false,
            },
    {
        let held = match secret {
            Some(held) => held,
            None => {
                return Err(Error::MissingSecrets);
            },
        };
        let endpoint = match params {
            Some(values) => match values.get("endpoint") {
                Some(endpoint) => String::from_str(endpoint),
                None => {
                    return Err(Error::MissingEndpointParameter);
                },
            },
            None => {
                return Err(Error::MissingEndpointParameter);
            },
        };
        let username = match held.get("username") {
            Some(username) => String::from_str(username),
            None => String::new(),
        };
        let password = match held.get("password") {
            Some(password) => String::from_str(password),
            None => String::new(),
        };
        Ok(Settings { endpoint, username, password })
    }

    /// What the check of the endpoint becomes: nothing where it could be
    /// reached, and otherwise the error that names the endpoint and carries
    /// the check's own text.
    pub fn verified(endpoint: &str, reached: Result<(), String>) -> (checked: Result<(), Error>)
        ensures
            reached is Ok ==> checked is Ok,
            reached matches Err(source) ==> checked matches Err(
                Error::UnableToVerifyEndpointConnection { source: carried, endpoint: named },
            ) && carried == source && named@ == endpoint@,
    {
        match reached {
            Ok(_) => Ok(()),
            Err(source) => Err(
                Error::UnableToVerifyEndpointConnection {
                    source,
                    endpoint: String::from_str(endpoint),
                },
            ),
        }
    }

    /// The connector over the factory of its client, or, where the client
    /// could not be built, the error with the builder's own text.
    pub fn create(built: Result<F, String>) -> (connector: Result<Self, Error>)
        ensures
            built matches Ok(flight_factory) ==> connector == Ok::<Self, Error>(
                Dremio { flight_factory },
            ),
            built matches Err(source) ==> connector == Err::<Self, Error>(
                Error::UnableToCreateFlightClient { source },
            ),
    {
        match built {
            Ok(flight_factory) => Ok(Dremio { flight_factory }),
            Err(source) => Err(Error::UnableToCreateFlightClient { source }),
        }
    }

    /// What asking for a read-only provider becomes: the provider, or the
    /// error with the factory's own text.
    pub fn read_provider<T>(provided: Result<T, String>) -> (provider: Result<T, Error>)
        ensures
            provided matches Ok(table) ==> provider == Ok::<T, Error>(table),
            provided matches Err(source) ==> provider == Err::<T, Error>(
                Error::UnableToGetReadProvider { source },
            ),
    {
        match provided {
            Ok(table) => Ok(table),
            Err(source) => Err(Error::UnableToGetReadProvider { source }),
        }
    }

    /// What asking for a read-write provider becomes. The connector always
    /// offers one, so the answer is never `None`: it is the provider, or
    /// the error with the factory's own text.
    pub fn read_write_provider<T>(provided: Result<T, String>) -> (provider: Option<
        Result<T, Error>,
    >)
        ensures
            provided matches Ok(table) ==> provider == Some(Ok::<T, Error>(table)),
            provided matches Err(source) ==> provider == Some(
                Err::<T, Error>(Error::UnableToGetReadWriteProvider { source }),
            ),
    {
        match provided {
            Ok(table) => Some(Ok(table)),
            Err(source) => Some(Err(Error::UnableToGetReadWriteProvider { source })),
        }
    }
}

} // verus!
