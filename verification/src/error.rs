//! The ways in which a call fails.
use vstd::prelude::*;
use crate::wire::DecodeError;

verus! {

/// Why the exchange with the service did not complete.
#[derive(Clone, Copy, Debug, PartialEq, Eq, Structural)]
pub enum ConnectionError {
    /// The endpoint refused the connection.
    Refused,
    /// The connection was reset or closed before the reply was complete.
    Reset,
    /// The exchange took longer than the caller allowed.
    Timeout,
    /// The secure channel could not be set up.
    Tls,
    /// Any other failure to complete the exchange.
    Interrupted,
}

/// Which rule of use the caller broke.
#[derive(Clone, Copy, Debug, PartialEq, Eq, Structural)]
pub enum Violation {
    /// The method needs a token and the client holds none.
    MissingToken,
    /// The arguments are not those that the method takes.
    BadArguments,
    /// An argument is too long or nested too deep to be written.
    Oversized,
}

/// Why a reply is no reply of the protocol.
#[derive(Clone, Copy, Debug, PartialEq, Eq, Structural)]
pub enum Malformed {
    /// The bytes are not one value of the wire format.
    Bytes(DecodeError),
    /// The value is neither the expected reply nor an error record.
    Shape,
}

/// Mathematical model of the error record of the service.
pub ghost struct Fault {
    pub error: bool,
    pub error_class: Seq<char>,
    pub error_string: Seq<char>,
    pub error_message: Seq<char>,
    pub error_backtrace: Seq<Seq<char>>,
}

/// The error record with which the service reports a failure of its own.
#[derive(Clone, Debug, PartialEq, Eq)]
pub struct MsfError {
    pub error: bool,
    pub error_class: String,
    pub error_string: String,
    pub error_message: String,
    pub error_backtrace: Vec<String>,
}

/// The texts of a list of strings, in order.
pub open spec fn texts_view(texts: Seq<String>) -> Seq<Seq<char>> {
    Seq::new(texts.len(), |i: int| texts[i]@)
}

impl View for MsfError {
    type V = Fault;

    open spec fn view(&self) -> Fault {
        Fault {
            error: self.error,
            error_class: self.error_class@,
            error_string: self.error_string@,
            error_message: self.error_message@,
            error_backtrace: texts_view(self.error_backtrace@),
        }
    }
}

/// Mathematical model of a failed call.
pub ghost enum Failure {
    ConnectionError(ConnectionError),
    InvalidState(Violation),
    ServerError(Fault),
    ProtocolError(Malformed),
}

/// A failed call.
#[derive(Clone, Debug, PartialEq, Eq)]
pub enum Error {
    /// The exchange with the service did not complete.
    ConnectionError(ConnectionError),
    /// The caller broke a rule of use; nothing was sent.
    InvalidState(Violation),
    /// The service understood the request and reported a failure.
    ServerError(MsfError),
    /// The reply is neither the expected one nor an error record.
    ProtocolError(Malformed),
}

impl View for Error {
    type V = Failure;

    open spec fn view(&self) -> Failure {
        match self {
            Error::ConnectionError(e) => Failure::ConnectionError(*e),
            Error::InvalidState(v) => Failure::InvalidState(*v),
            Error::ServerError(e) => Failure::ServerError(e@),
            Error::ProtocolError(m) => Failure::ProtocolError(*m),
        }
    }
}

} // verus!
