//! The errors of the radio facade.

use crate::error::Error as FsApiError;
use vstd::prelude::*;
use vstd::std_specs::convert::FromSpecImpl;

verus! {

/// What a user of the radio can be told went wrong.
#[derive(Debug, Clone, Copy, PartialEq, Eq, Structural)]
pub enum Error {
    /// The pin is wrong.
    Auth,
    /// Something went wrong on this side.
    Oops,
    /// The server took too long to respond.
    Timeout,
    /// A setter was given a value that it does not take.
    InvalidValue,
    /// An error without further information.
    Empty,
    /// A lock could not be had.
    Lock,
}

impl Error {
    /// The error that an error of the protocol client becomes.
    pub open spec fn of_client(error: FsApiError) -> Error {
        match error {
            FsApiError::WrongPin => Error::Auth,
            FsApiError::Timeout => Error::Timeout,
            FsApiError::Fail => Error::InvalidValue,
            _ => Error::Oops,
        }
    }

    /// The text that describes the error.
    pub open spec fn message(self) -> Seq<char> {
        match self {
            Error::Auth => "Auth"@,
            Error::Timeout => "Timeout"@,
            Error::Oops => "Oops"@,
            Error::InvalidValue => "Invalid value"@,
            Error::Lock => "Could not get a lock"@,
            Error::Empty => ""@,
        }
    }

    /// The text that describes the error.
    pub fn to_string(&self) -> (text: String)
        ensures
            text@ == self.message(),
    {
        match self {
            Error::Auth => "Auth".to_string(),
            Error::Timeout => "Timeout".to_string(),
            Error::Oops => "Oops".to_string(),
            Error::InvalidValue => "Invalid value".to_string(),
            Error::Lock => "Could not get a lock".to_string(),
            Error::Empty => "".to_string(),
        }
    }
}

impl From<FsApiError> for Error {
    /// A wrong pin, a timeout and a refusal by the device keep their
    /// meaning; everything else is a mistake on this side.
    fn from(error: FsApiError) -> (mapped: Error) {
        match error {
            FsApiError::WrongPin => Error::Auth,
            FsApiError::Timeout => Error::Timeout,
            FsApiError::Fail => Error::InvalidValue,
            _ => Error::Oops,
        }
    }
}

impl FromSpecImpl<FsApiError> for Error {
    open spec fn obeys_from_spec() -> bool {
        true
    }

    open spec fn from_spec(error: FsApiError) -> Error {
        Error::of_client(error)
    }
}

} // verus!
