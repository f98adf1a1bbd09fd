//! Errors of the client library.
//!
//! The causes that come from transport, protocol decoding, storage or the
//! file system are carried as their rendered text.

use vstd::prelude::*;

use crate::text::{int_text, i64_to_chars, push_all, push_str, string_from_chars};

verus! {

/// An error of a client operation.
#[derive(Debug)]
pub enum Error {
    /// An HTTP transport failure, with its full cause chain.
    Http(String),
    /// A protobuf message could not be decoded.
    ProtobufDecode(String),
    /// The server answered with an error status.
    Server { status: u16, message: String, error_code: i32 },
    /// An MLS operation failed.
    Mls(String),
    /// A local I/O operation failed.
    Io(String),
    /// The configuration could not be read or written.
    Config(String),
    /// A UUID could not be decoded.
    InvalidUuid(String),
    /// Another instance of the client holds the data directory.
    InstanceAlreadyRunning,
    /// Any other failure, described by its message.
    Other(String),
}

/// The result type of client operations.
pub type Result<T> = std::result::Result<T, Error>;

/// The human-readable text of an error.
pub open spec fn error_message_spec(e: Error) -> Seq<char> {
    match e {
        Error::Http(m) => "HTTP error: "@ + m@,
        Error::ProtobufDecode(m) => "protobuf decode error: "@ + m@,
        Error::Server { status, message, error_code } => "server error ("@ + int_text(
            status as int,
        ) + "/"@ + int_text(error_code as int) + "): "@ + message@,
        Error::Mls(m) => "MLS error: "@ + m@,
        Error::Io(m) => "I/O error: "@ + m@,
        Error::Config(m) => "config error: "@ + m@,
        Error::InvalidUuid(m) => "invalid UUID: "@ + m@,
        Error::InstanceAlreadyRunning => "another conclave instance is already running"@,
        Error::Other(m) => m@,
    }
}

impl Error {
    /// Whether this error is an HTTP 401 Unauthorized response from the server.
    pub fn is_unauthorized(&self) -> (r: bool)
        ensures
            r == (match *self {
                Error::Server { status, .. } => status == 401,
                _ => false,
            }),
    {
        match self {
            Error::Server { status, .. } => *status == 401,
            _ => false,
        }
    }

    /// The human-readable text of the error.
    pub fn message(&self) -> (r: String)
        ensures
            r@ == error_message_spec(*self),
    {
        let mut out: Vec<char> = Vec::new();
        match self {
            Error::Http(m) => {
                push_str(&mut out, "HTTP error: ");
                push_str(&mut out, m.as_str());
            },
            Error::ProtobufDecode(m) => {
                push_str(&mut out, "protobuf decode error: ");
                push_str(&mut out, m.as_str());
            },
            Error::Server { status, message, error_code } => {
                push_str(&mut out, "server error (");
                let s = i64_to_chars(*status as i64);
                push_all(&mut out, s.as_slice());
                push_str(&mut out, "/");
                let c = i64_to_chars(*error_code as i64);
                push_all(&mut out, c.as_slice());
                push_str(&mut out, "): ");
                push_str(&mut out, message.as_str());
            },
            Error::Mls(m) => {
                push_str(&mut out, "MLS error: ");
                push_str(&mut out, m.as_str());
            },
            Error::Io(m) => {
                push_str(&mut out, "I/O error: ");
                push_str(&mut out, m.as_str());
            },
            Error::Config(m) => {
                push_str(&mut out, "config error: ");
                push_str(&mut out, m.as_str());
            },
            Error::InvalidUuid(m) => {
                push_str(&mut out, "invalid UUID: ");
                push_str(&mut out, m.as_str());
            },
            Error::InstanceAlreadyRunning => {
                push_str(&mut out, "another conclave instance is already running");
            },
            Error::Other(m) => {
                push_str(&mut out, m.as_str());
            },
        }
        string_from_chars(out.as_slice())
    }
}

} // verus!
