//! The failures that connection commands report to their caller.

use vstd::prelude::*;
use vstd::string::StringExecFns;

verus! {

/// The connection parameter that a validation failure is about.
#[derive(Clone, Copy, Debug, PartialEq, Eq, Structural)]
pub enum Field {
    DataBits,
    Parity,
    StopBits,
    Flow,
    Protocol,
}

/// Why a connection command failed.
#[derive(Debug, PartialEq, Eq)]
pub enum ConnError {
    /// A parameter was rejected before any resource was touched.
    Validation(Field),
    /// The operating system refused to open, connect or bind the transport.
    TransportOpen(String),
    /// No connection is registered under the given id.
    NotFound,
    /// The outbound queue is saturated or its worker is gone.
    QueueFullOrClosed,
    /// A read or write failed inside a running worker.
    FatalIo(String),
}

/// The text that describes a rejected parameter.
pub open spec fn field_message(field: Field) -> Seq<char> {
    match field {
        Field::DataBits => "invalid databits"@,
        Field::Parity => "invalid parity"@,
        Field::StopBits => "invalid stopbits"@,
        Field::Flow => "invalid flow"@,
        Field::Protocol => "unsupported protocol"@,
    }
}

/// The single descriptive message that a failure surfaces to the caller.
pub open spec fn error_message(error: ConnError) -> Seq<char> {
    match error {
        ConnError::Validation(field) => field_message(field),
        ConnError::TransportOpen(detail) => "transport open failed: "@ + detail@,
        ConnError::NotFound => "connection not found"@,
        ConnError::QueueFullOrClosed => "outbound queue full or closed"@,
        ConnError::FatalIo(detail) => "i/o failed: "@ + detail@,
    }
}

impl ConnError {
    /// The message shown for this failure.
    pub fn message(&self) -> (text: String)
        ensures
            text@ == error_message(*self),
    {
        match self {
            ConnError::Validation(field) => {
                match field {
                    Field::DataBits => String::from_str("invalid databits"),
                    Field::Parity => String::from_str("invalid parity"),
                    Field::StopBits => String::from_str("invalid stopbits"),
                    Field::Flow => String::from_str("invalid flow"),
                    Field::Protocol => String::from_str("unsupported protocol"),
                }
            },
            ConnError::TransportOpen(detail) => {
                let mut text = String::from_str("transport open failed: ");
                text.append(detail.as_str());
                text
            },
            ConnError::NotFound => String::from_str("connection not found"),
            ConnError::QueueFullOrClosed => String::from_str("outbound queue full or closed"),
            ConnError::FatalIo(detail) => {
                let mut text = String::from_str("i/o failed: ");
                text.append(detail.as_str());
                text
            },
        }
    }
}

} // verus!
