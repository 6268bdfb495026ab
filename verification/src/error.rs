//! The errors of the protocol client.

use vstd::prelude::*;
use vstd::std_specs::convert::FromSpecImpl;
use vstd::string::StringExecFns;

verus! {

/// What a caller of the four verbs can be told went wrong.
#[derive(Debug, Clone, Copy, PartialEq, Eq, Structural)]
pub enum Error {
    /// The device refused the pin (HTTP 403).
    WrongPin,
    /// The response carries a status that the operation does not expect.
    InvalidStatus,
    /// The device answered `FS_FAIL`: as a rule the action is not available
    /// in the current mode.
    Fail,
    /// The response carries the wrong kind of data, or none where some is due.
    InvalidData,
    /// The response could not be decoded, or the transport failed.
    InternalError,
    /// The server took too long to respond.
    Timeout,
}

/// Why a response frame could not be decoded.
#[derive(Debug, PartialEq, Eq)]
pub enum InternalError {
    /// No start tag where a value element is due.
    MalformedValue,
    /// A value element whose tag names no known type.
    UnknownValueType,
    /// Text that is no decimal number of the width asked for.
    Number,
    /// Bytes that are no UTF-8.
    Utf8,
    /// The XML itself is malformed, or ends too early.
    Xml,
    /// No text where a session identifier is due.
    SessionId,
    /// The frame has no status element, or something other than an element
    /// follows the status.
    Response,
    /// The status text is none of the known ones.
    UnknownStatus,
    /// The element after the status is none of the known payloads.
    UnknownData,
    /// A record list that does not go on with a record or the list end.
    Item,
    /// A record that does not go on with a field or the record's end.
    Field,
    /// A notification batch that does not go on with a notification or the
    /// frame's end.
    Notify,
    /// A node attribute that names no known node.
    UnknownNode,
    /// An error without a variant of its own, with a description.
    Generic(String),
    /// An error without further information.
    Empty,
}

/// The mathematical value of an [`InternalError`].
pub enum Failure {
    MalformedValue,
    UnknownValueType,
    Number,
    Utf8,
    Xml,
    SessionId,
    Response,
    UnknownStatus,
    UnknownData,
    Item,
    Field,
    Notify,
    UnknownNode,
    Generic(Seq<char>),
    Empty,
}

impl View for InternalError {
    type V = Failure;

    open spec fn view(&self) -> Failure {
        match *self {
            InternalError::MalformedValue => Failure::MalformedValue,
            InternalError::UnknownValueType => Failure::UnknownValueType,
            InternalError::Number => Failure::Number,
            InternalError::Utf8 => Failure::Utf8,
            InternalError::Xml => Failure::Xml,
            InternalError::SessionId => Failure::SessionId,
            InternalError::Response => Failure::Response,
            InternalError::UnknownStatus => Failure::UnknownStatus,
            InternalError::UnknownData => Failure::UnknownData,
            InternalError::Item => Failure::Item,
            InternalError::Field => Failure::Field,
            InternalError::Notify => Failure::Notify,
            InternalError::UnknownNode => Failure::UnknownNode,
            InternalError::Generic(description) => Failure::Generic(description@),
            InternalError::Empty => Failure::Empty,
        }
    }
}

impl Failure {
    /// The text that describes the failure.
    pub open spec fn message(self) -> Seq<char> {
        match self {
            Failure::MalformedValue => "Error value: Incorrect value format"@,
            Failure::UnknownValueType => "Error value: Unknown option"@,
            Failure::Number => "Error: Not a number of the width asked for"@,
            Failure::Utf8 => "Error: Invalid UTF-8"@,
            Failure::Xml => "Error: Malformed XML"@,
            Failure::SessionId => "Error session id: Incorrect value format"@,
            Failure::Response => "Error response: Incorrect response format"@,
            Failure::UnknownStatus => "Error response: Unknown status"@,
            Failure::UnknownData => "Error response: Unknown data type"@,
            Failure::Item => "Error item: Invalid item format"@,
            Failure::Field => "Error field: Unexpected event"@,
            Failure::Notify => "Error notify: Invalid notify format"@,
            Failure::UnknownNode => "Error notify: Unknown node"@,
            Failure::Generic(description) => "Error: "@ + description,
            Failure::Empty => "Error"@,
        }
    }
}

impl InternalError {
    /// The text that describes the error.
    pub fn to_string(&self) -> (text: String)
        ensures
            text@ == self@.message(),
    {
        match self {
            InternalError::MalformedValue => "Error value: Incorrect value format".to_string(),
            InternalError::UnknownValueType => "Error value: Unknown option".to_string(),
            InternalError::Number => "Error: Not a number of the width asked for".to_string(),
            InternalError::Utf8 => "Error: Invalid UTF-8".to_string(),
            InternalError::Xml => "Error: Malformed XML".to_string(),
            InternalError::SessionId => "Error session id: Incorrect value format".to_string(),
            InternalError::Response => "Error response: Incorrect response format".to_string(),
            InternalError::UnknownStatus => "Error response: Unknown status".to_string(),
            InternalError::UnknownData => "Error response: Unknown data type".to_string(),
            InternalError::Item => "Error item: Invalid item format".to_string(),
            InternalError::Field => "Error field: Unexpected event".to_string(),
            InternalError::Notify => "Error notify: Invalid notify format".to_string(),
            InternalError::UnknownNode => "Error notify: Unknown node".to_string(),
            InternalError::Generic(description) => {
                let mut text = "Error: ".to_string();
                text.append(description.as_str());
                text
            },
            InternalError::Empty => "Error".to_string(),
        }
    }

    /// A generic error with the given description.
    pub fn new(msg: String) -> (error: InternalError)
        ensures
            error@ == Failure::Generic(msg@),
    {
        InternalError::Generic(msg)
    }
}

/// How the transport failed to fetch a response.
#[derive(Debug, Clone, Copy, PartialEq, Eq, Structural)]
pub enum TransportError {
    /// The server answered with this HTTP status, which is an error.
    Status(u16),
    /// The request timed out.
    Timeout,
    /// The connection failed, or anything else.
    Other,
}

/// The HTTP status with which the device refuses a wrong pin.
pub const FORBIDDEN: u16 = 403;

impl Error {
    /// The text that describes the error.
    pub open spec fn message(self) -> Seq<char> {
        match self {
            Error::WrongPin => "Looks like you got the pin wrong"@,
            Error::InvalidStatus => "An invalid status type was returned"@,
            Error::Fail => "That action is not possible (I think)"@,
            Error::InvalidData => "An invalid data type was returned"@,
            Error::InternalError => "Oops something went wrong"@,
            Error::Timeout => "Server took to long to respond"@,
        }
    }

    /// The text that describes the error.
    pub fn to_string(&self) -> (text: String)
        ensures
            text@ == self.message(),
    {
        match self {
            Error::WrongPin => "Looks like you got the pin wrong".to_string(),
            Error::InvalidStatus => "An invalid status type was returned".to_string(),
            Error::Fail => "That action is not possible (I think)".to_string(),
            Error::InvalidData => "An invalid data type was returned".to_string(),
            Error::InternalError => "Oops something went wrong".to_string(),
            Error::Timeout => "Server took to long to respond".to_string(),
        }
    }

    /// The error that a transport failure becomes.
    pub open spec fn of_transport(failure: TransportError) -> Error {
        match failure {
            TransportError::Status(code) => if code == FORBIDDEN {
                Error::WrongPin
            } else {
                Error::InternalError
            },
            TransportError::Timeout => Error::Timeout,
            TransportError::Other => Error::InternalError,
        }
    }
}

impl From<InternalError> for Error {
    /// Every decoding failure is an internal error to the caller.
    fn from(_failure: InternalError) -> (error: Error) {
        Error::InternalError
    }
}

impl FromSpecImpl<InternalError> for Error {
    open spec fn obeys_from_spec() -> bool {
        true
    }

    open spec fn from_spec(_failure: InternalError) -> Error {
        Error::InternalError
    }
}

impl From<TransportError> for Error {
    /// A refused pin is told apart from a timeout and from everything else.
    fn from(failure: TransportError) -> (error: Error) {
        match failure {
            TransportError::Status(code) => if code == FORBIDDEN {
                Error::WrongPin
            } else {
                Error::InternalError
            },
            TransportError::Timeout => Error::Timeout,
            TransportError::Other => Error::InternalError,
        }
    }
}

impl FromSpecImpl<TransportError> for Error {
    open spec fn obeys_from_spec() -> bool {
        true
    }

    open spec fn from_spec(failure: TransportError) -> Error {
        Error::of_transport(failure)
    }
}

impl From<Error> for InternalError {
    /// Nothing of the error is kept.
    fn from(_error: Error) -> (failure: InternalError) {
        InternalError::Empty
    }
}

impl FromSpecImpl<Error> for InternalError {
    open spec fn obeys_from_spec() -> bool {
        true
    }

    open spec fn from_spec(_error: Error) -> InternalError {
        InternalError::Empty
    }
}

} // verus!
