use vstd::prelude::*;
use vstd::pervasive::unreached;
use crate::net::net_error::NetError;

verus! {

#[verifier::external_type_specification]
#[verifier::external_body]
pub struct ExIoError(std::io::Error);

#[verifier::external_type_specification]
#[verifier::external_body]
pub struct ExDbError(tokio_rusqlite::Error);

#[verifier::external_type_specification]
#[verifier::external_body]
pub struct ExJoinError(tokio::task::JoinError);

/// Everything that can go wrong in the crawler.
#[derive(Debug)]
pub enum IcepickError {
    /// A value was not of the expected kind.
    XNotTypeY(String),
    /// Any other failure, described in words.
    GenericError(String),
    /// A network failure.
    NetError(NetError),
    /// An I/O failure.
    IoError(std::io::Error),
    /// A database failure.
    DBError(tokio_rusqlite::Error),
    /// A background task could not be joined.
    JoinError(tokio::task::JoinError),
    /// A text was not a URL.
    UrlParseError(url::ParseError),
}

/// The result of the crawler's fallible operations.
pub type Result<T> = core::result::Result<T, IcepickError>;

impl From<reqwest::Error> for IcepickError {
    /// An HTTP client error is a network error.
    fn from(value: reqwest::Error) -> (r: Self)
        ensures
            r == IcepickError::NetError(NetError::ReqwestError(value)),
    {
        IcepickError::NetError(NetError::ReqwestError(value))
    }
}

impl vstd::std_specs::convert::FromSpecImpl<reqwest::Error> for IcepickError {
    open spec fn obeys_from_spec() -> bool {
        true
    }

    open spec fn from_spec(v: reqwest::Error) -> IcepickError {
        IcepickError::NetError(NetError::ReqwestError(v))
    }
}

/// Unwrapping a result whose failure ends the program with an explanation.
pub trait Explain<T>: Sized {
    /// Whether the value holds a success, the only case in which
    /// [`Explain::explain`] returns.
    spec fn explains_to_value(&self) -> bool;

    /// The success value.
    fn explain(self) -> T
        requires
            self.explains_to_value(),
    ;
}

impl<T> Explain<T> for Result<T> {
    open spec fn explains_to_value(&self) -> bool {
        self is Ok
    }

    /// The value inside `Ok`. (On an `Err` the program prints the error and
    /// exits with status 1, which the application does before it calls
    /// this.)
    fn explain(self) -> (r: T)
        ensures
            self == Ok::<T, IcepickError>(r),
    {
        match self {
            Ok(ok) => ok,
            Err(_) => unreached(),
        }
    }
}

} // verus!
