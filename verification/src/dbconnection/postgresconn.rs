//! The network-protocol adapter: what it asks of its connection and how it
//! reports what comes back.

use vstd::prelude::*;

verus! {

/// What can go wrong between the adapter and its backend.
#[derive(Clone, Debug, PartialEq, Eq)]
pub enum Error {
    /// The backend rejected the statement or the connection failed.
    QueryError { source: String },
    /// The statement succeeded but its rows could not be turned into a
    /// columnar batch.
    ConversionError { source: String },
}

impl Error {
    /// The text that [`Error::message`] returns.
    pub open spec fn message_text(&self) -> Seq<char> {
        match self {
            Error::QueryError { source } => source@,
            Error::ConversionError { source } => "Failed to convert query result to Arrow: "@
                + source@,
        }
    }

    /// The error as text for a person to read.
    pub fn message(&self) -> (text: String)
        ensures
            text@ == self.message_text(),
    {
        match self {
            Error::QueryError { source } => source.clone(),
            Error::ConversionError { source } => {
                let mut text = String::from_str("Failed to convert query result to Arrow: ");
                text.append(source.as_str());
                text
            },
        }
    }
}

/// The adapter of the network-protocol backend. It owns one pooled
/// connection, and is the adapter that the write-back controller recovers.
#[derive(Debug, PartialEq, Eq)]
pub struct PostgresConnection<T> {
    pub conn: T,
}

impl<T> PostgresConnection<T> {
    /// The adapter that owns `conn`.
    pub fn new(conn: T) -> (connection: Self)
        ensures
            connection.conn == conn,
    {
        PostgresConnection { conn }
    }

    /// The adapter as one that works asynchronously. Every adapter does, so
    /// this is always the adapter itself.
    pub fn as_async(&self) -> (view: Option<&Self>)
        ensures
            view == Some(self),
    {
        Some(self)
    }

    /// What a statement's outcome becomes: its rows where the backend
    /// answered, a query error with the backend's own text where it did not.
    pub fn queried<R>(outcome: Result<R, String>) -> (rows: Result<R, Error>)
        ensures
            outcome matches Ok(answer) ==> rows == Ok::<R, Error>(answer),
            outcome matches Err(source) ==> rows == Err::<R, Error>(Error::QueryError { source }),
    {
        match outcome {
            Ok(answer) => Ok(answer),
            Err(source) => Err(Error::QueryError { source }),
        }
    }

    /// What a decoding outcome becomes: the batch where the rows could be
    /// decoded, a conversion error with the decoder's own text where not.
    pub fn converted<B>(outcome: Result<B, String>) -> (batch: Result<B, Error>)
        ensures
            outcome matches Ok(decoded) ==> batch == Ok::<B, Error>(decoded),
            outcome matches Err(source) ==> batch == Err::<B, Error>(
                Error::ConversionError { source },
            ),
    {
        match outcome {
            Ok(decoded) => Ok(decoded),
            Err(source) => Err(Error::ConversionError { source }),
        }
    }
}

} // verus!
