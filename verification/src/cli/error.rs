//! The errors of the command line.

use crate::error::Error as FsApiError;
use vstd::prelude::*;
use vstd::std_specs::convert::FromSpecImpl;
use vstd::string::StringExecFns;

verus! {

/// What the user of the command line can be told went wrong.
#[derive(Debug, PartialEq, Eq)]
pub enum Error {
    /// There is no configuration, for the reason given.
    NoConfig(String),
    /// The configuration cannot be read, for the reason given.
    InvalidConfig(String),
    InvalidPin,
    InvalidCommand,
    Internal,
}

impl Error {
    /// The error that an error of the protocol client becomes.
    pub open spec fn of_client(error: FsApiError) -> Error {
        match error {
            FsApiError::WrongPin => Error::InvalidPin,
            _ => Error::Internal,
        }
    }

    /// The text that describes the error.
    pub open spec fn message(self) -> Seq<char> {
        match self {
            Error::NoConfig(reason) => "No config file was found: "@ + reason@,
            Error::InvalidConfig(reason) => "Invalid config file: "@ + reason@,
            Error::InvalidPin => "Provided pin is invalid"@,
            Error::Internal => "Internal error"@,
            Error::InvalidCommand => "Invalid command provided"@,
        }
    }

    /// The text that describes the error.
    pub fn to_string(&self) -> (text: String)
        ensures
            text@ == self.message(),
    {
        match self {
            Error::NoConfig(reason) => {
                let mut text = "No config file was found: ".to_string();
                text.append(reason.as_str());
                text
            },
            Error::InvalidConfig(reason) => {
                let mut text = "Invalid config file: ".to_string();
                text.append(reason.as_str());
                text
            },
            Error::InvalidPin => "Provided pin is invalid".to_string(),
            Error::Internal => "Internal error".to_string(),
            Error::InvalidCommand => "Invalid command provided".to_string(),
        }
    }
}

impl From<FsApiError> for Error {
    /// A wrong pin is told as such; everything else is internal.
    fn from(error: FsApiError) -> (mapped: Error) {
        match error {
            FsApiError::WrongPin => Error::InvalidPin,
            _ => Error::Internal,
        }
    }
}

impl FromSpecImpl<FsApiError> for Error {
    open spec fn obeys_from_spec() -> bool {
        true
    }

    open spec fn from_spec(error: FsApiError) -> Error {
        Error::of_client(error)
    }
}

} // verus!
