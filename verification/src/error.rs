//! The closed set of failures that an operation can end in.

use vstd::prelude::*;
use vstd::std_specs::convert::FromSpecImpl;
use vstd::string::StringExecFns;

verus! {

/// Why an operation yielded no resource.
///
/// An error ends the operation that produced it: it is handed to the caller
/// as it is, and nothing in this crate retries, swallows or rewrites one.
#[derive(Debug)]
pub enum Error {
    /// The transport itself failed: no connection, a bad status, a broken
    /// protocol exchange.
    Fetch(String),
    /// A payload could not be encoded or decoded: client and server disagree
    /// on the shape of the resource.
    SerDe(String),
    /// A value was expected and none was there.
    NotFound(String),
    /// The backend or the transport denied access.
    Authorization(String),
}

/// The absence of a value that was expected.
#[derive(Clone, Copy, Debug)]
pub struct NoneError;

/// The message of the `NotFound` that stands for an absent value.
pub open spec fn absent_message() -> Seq<char> {
    "Expected a value, found None"@
}

impl Error {
    /// The human-readable message that the error carries.
    pub open spec fn message(self) -> Seq<char> {
        match self {
            Error::Fetch(text) => text@,
            Error::SerDe(text) => text@,
            Error::NotFound(text) => text@,
            Error::Authorization(text) => text@,
        }
    }

    /// Whether this is the `NotFound` that an absent value turns into.
    pub open spec fn is_absence(self) -> bool {
        self is NotFound && self.message() == absent_message()
    }
}

impl From<NoneError> for Error {
    /// An absent value is `NotFound`, with the message [`absent_message`].
    fn from(_absent: NoneError) -> (error: Error)
        ensures
            error.is_absence(),
    {
        Error::NotFound(String::from_str("Expected a value, found None"))
    }
}

impl FromSpecImpl<NoneError> for Error {
    /// Two strings with the same text are not known to be the same value, so
    /// the conversion is described by the `ensures` of `from`, over the text.
    open spec fn obeys_from_spec() -> bool {
        false
    }

    open spec fn from_spec(_absent: NoneError) -> Error {
        arbitrary()
    }
}

/// Unwraps a value that has to be there: `Some(v)` is `Ok(v)`, and `None` is
/// the `NotFound` of [`NoneError`].
///
/// With `?` behind the call, a function that returns `Result<_, Error>` leaves
/// early on an absent value.
pub fn found<T>(value: Option<T>) -> (outcome: Result<T, Error>)
    ensures
        value matches Some(present) ==> outcome == Ok::<T, Error>(present),
        value is None ==> outcome is Err && outcome->Err_0.is_absence(),
{
    match value {
        Some(present) => Ok(present),
        None => Err(Error::from(NoneError)),
    }
}

} // verus!
