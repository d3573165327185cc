//! The driver-manager adapter: parameter positions, eager materialisation of
//! result batches, and affected-row counts.

use vstd::prelude::*;

verus! {

/// What can go wrong between the adapter and its driver.
#[derive(Clone, Debug, PartialEq, Eq)]
pub enum Error {
    /// The result set could not be read into columnar batches.
    ArrowODBCError { source: String },
    /// The driver manager or the data source rejected a call.
    ODBCAPIError { source: String },
}

impl Error {
    /// The text that [`Error::message`] returns.
    pub open spec fn message_text(&self) -> Seq<char> {
        match self {
            Error::ArrowODBCError { .. } => "ArrowODBCError"@,
            Error::ODBCAPIError { .. } => "ODBCAPIError"@,
        }
    }

    /// The error as text for a person to read: the name of its kind.
    pub fn message(&self) -> (text: String)
        ensures
            text@ == self.message_text(),
    {
        match self {
            Error::ArrowODBCError { .. } => String::from_str("ArrowODBCError"),
            Error::ODBCAPIError { .. } => String::from_str("ODBCAPIError"),
        }
    }
}

/// The adapter of the driver-manager backend. It owns one native handle,
/// which is not reentrant: the owner of `conn` guards it.
#[derive(Debug, PartialEq, Eq)]
pub struct ODBCConnection<T> {
    pub conn: T,
}

/// What a driver error says of a missing row count.
pub open spec fn missing_count_text() -> Seq<char> {
    "the driver reported no row count"@
}

/// The batches of `results[..upto]`, in order, where each of them is `Ok`.
pub open spec fn batches_of<B>(results: Seq<Result<B, String>>, upto: int) -> Seq<B> {
    Seq::new(upto as nat, |i: int| results[i]->Ok_0)
}

/// Every result before `upto` holds a batch.
pub open spec fn all_decoded<B>(results: Seq<Result<B, String>>, upto: int) -> bool {
    forall|i: int| 0 <= i < upto ==> (#[trigger] results[i]) is Ok
}

impl<T> ODBCConnection<T> {
    /// The adapter that owns `conn`.
    pub fn new(conn: T) -> (connection: Self)
        ensures
            connection.conn == conn,
    {
        ODBCConnection { conn }
    }

    /// The adapter as one that works asynchronously. Every adapter does, so
    /// this is always the adapter itself.
    pub fn as_async(&self) -> (view: Option<&Self>)
        ensures
            view == Some(self),
    {
        Some(self)
    }

    /// The position at which the parameter with the given index is bound:
    /// positions count from one.
    pub fn bind_position(index: usize) -> (position: u16)
        requires
            index < u16::MAX,
        ensures
            position == index + 1,
    {
        (index + 1) as u16
    }

    /// The batch that a schema is inferred from: the first one of the sample.
    /// A sample without any batch has no schema to offer, so it is not
    /// accepted here; a batch that failed to decode is a decoding error.
    pub fn sampled<B>(first: Option<Result<B, String>>) -> (batch: Result<B, Error>)
        requires
            first is Some,
        ensures
            first matches Some(Ok(decoded)) ==> batch == Ok::<B, Error>(decoded),
            first matches Some(Err(source)) ==> batch == Err::<B, Error>(
                Error::ArrowODBCError { source },
            ),
    {
        match first.unwrap() {
            Ok(decoded) => Ok(decoded),
            Err(source) => Err(Error::ArrowODBCError { source }),
        }
    }

    /// Materialises a whole result set. Where every batch decoded, the
    /// batches come back in their order, none added or lost; an empty result
    /// set gives no batches and is no failure. Where a batch failed to
    /// decode, the first such failure comes back as a decoding error.
    pub fn materialize<B>(results: Vec<Result<B, String>>) -> (batches: Result<Vec<B>, Error>)
        ensures
            match batches {
                Ok(decoded) => all_decoded(results@, results@.len() as int) && decoded@
                    == batches_of(results@, results@.len() as int),
                Err(error) => exists|i: int|
                    0 <= i < results@.len() && all_decoded(results@, i) && (#[trigger] results@[i])
                        == Err::<B, String>(error->ArrowODBCError_source) && error
                        is ArrowODBCError,
            },
    {
        let ghost all = results@;
        let mut batches: Vec<B> = Vec::new();
        for result in iter: results
            invariant
                iter.seq() == all,
                batches@ == batches_of(all, iter.index() as int),
                all_decoded(all, iter.index() as int),
        {
            match result {
                Ok(batch) => {
                    batches.push(batch);
                    assert(batches@ =~= batches_of(all, iter.index() + 1));
                },
                Err(source) => {
                    assert(all[iter.index() as int] == Err::<B, String>(source));
                    return Err(Error::ArrowODBCError { source });
                },
            }
        }
        Ok(batches)
    }

    /// The number of rows that a statement affected, as the driver counted
    /// them. A driver that has no count reports a negative number: that is
    /// a driver error, which says so.
    pub fn affected_rows(count: isize) -> (rows: Result<u64, Error>)
        ensures
            count >= 0 ==> rows == Ok::<u64, Error>(count as u64),
            count < 0 ==> (rows matches Err(Error::ODBCAPIError { source }) && source@
                == missing_count_text()),
    {
        if count >= 0 {
            Ok(count as u64)
        } else {
            Err(Error::ODBCAPIError { source: String::from_str("the driver reported no row count") })
        }
    }

    /// What a call of the driver becomes: its answer, or the driver error
    /// with the driver's own text.
    pub fn called<R>(outcome: Result<R, String>) -> (answer: Result<R, Error>)
        ensures
            outcome matches Ok(given) ==> answer == Ok::<R, Error>(given),
            outcome matches Err(source) ==> answer == Err::<R, Error>(
                Error::ODBCAPIError { source },
            ),
    {
        match outcome {
            Ok(given) => Ok(given),
            Err(source) => Err(Error::ODBCAPIError { source }),
        }
    }

    /// What opening a result set for reading becomes: the reader, or the
    /// decoding error with the reader's own text.
    pub fn read<R>(outcome: Result<R, String>) -> (reader: Result<R, Error>)
        ensures
            outcome matches Ok(opened) ==> reader == Ok::<R, Error>(opened),
            outcome matches Err(source) ==> reader == Err::<R, Error>(
                Error::ArrowODBCError { source },
            ),
    {
        match outcome {
            Ok(opened) => Ok(opened),
            Err(source) => Err(Error::ArrowODBCError { source }),
        }
    }
}

} // verus!
