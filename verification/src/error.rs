//! Error types of the crate.

use vstd::prelude::*;
use vstd::string::StringExecFns;

verus! {

/// What went wrong on the byte stream, by category.
#[derive(Debug, Clone, Copy, PartialEq, Eq, Structural)]
pub enum IoErrorKind {
    NotFound,
    PermissionDenied,
    ConnectionRefused,
    ConnectionReset,
    ConnectionAborted,
    NotConnected,
    AddrInUse,
    AddrNotAvailable,
    BrokenPipe,
    AlreadyExists,
    WouldBlock,
    InvalidInput,
    InvalidData,
    /// The stream gave no byte within its read timeout.
    TimedOut,
    WriteZero,
    Interrupted,
    Unsupported,
    UnexpectedEof,
    OutOfMemory,
    Other,
}

/// Categories of errors that can occur when interacting with Z-Wave.
#[derive(Debug, Clone, Copy, PartialEq, Eq, Structural)]
pub enum ErrorKind {
    /// The controller is not available.
    NoController,
    /// A parameter was incorrect.
    InvalidInput,
    /// The bytes received break the Z-Wave serial protocol.
    UnknownZWave,
    /// This functionality is not implemented.
    NotImplemented,
    /// The byte stream failed.
    Io(IoErrorKind),
}

impl ErrorKind {
    /// The stream error category that stands for this kind.
    pub open spec fn io_kind(self) -> IoErrorKind {
        match self {
            ErrorKind::NoController => IoErrorKind::NotFound,
            ErrorKind::InvalidInput => IoErrorKind::InvalidInput,
            ErrorKind::UnknownZWave => IoErrorKind::InvalidData,
            ErrorKind::NotImplemented => IoErrorKind::Other,
            ErrorKind::Io(kind) => kind,
        }
    }

    /// Maps the kind to a stream error category.
    pub fn to_io_kind(self) -> (kind: IoErrorKind)
        ensures
            kind == self.io_kind(),
    {
        match self {
            ErrorKind::NoController => IoErrorKind::NotFound,
            ErrorKind::InvalidInput => IoErrorKind::InvalidInput,
            ErrorKind::UnknownZWave => IoErrorKind::InvalidData,
            ErrorKind::NotImplemented => IoErrorKind::Other,
            ErrorKind::Io(kind) => kind,
        }
    }
}

/// An error of a Z-Wave operation: a kind and a text for people.
#[derive(Debug, PartialEq, Eq)]
pub struct Error {
    kind: ErrorKind,
    description: String,
}

impl Clone for Error {
    fn clone(&self) -> (copy: Error)
        ensures
            copy.kind() == self.kind(),
            copy.message() == self.message(),
    {
        Error { kind: self.kind, description: self.description.clone() }
    }
}

impl Error {
    /// The kind of the error.
    pub closed spec fn spec_kind(&self) -> ErrorKind {
        self.kind
    }

    /// The text of the error.
    pub closed spec fn message(&self) -> Seq<char> {
        self.description@
    }

    /// Creates an error of the given kind with the given text.
    pub fn new(kind: ErrorKind, description: &str) -> (e: Error)
        ensures
            e.kind() == kind,
            e.message() == description@,
    {
        Error { kind, description: String::from_str(description) }
    }

    /// Returns the kind of this error.
    #[verifier::when_used_as_spec(spec_kind)]
    pub fn kind(&self) -> (kind: ErrorKind)
        ensures
            kind == self.kind(),
    {
        self.kind
    }

    /// Returns the text of this error.
    pub fn description(&self) -> (text: &str)
        ensures
            text@ == self.message(),
    {
        self.description.as_str()
    }

    /// The error that stands for a failure of the byte stream.
    pub fn from_io(kind: IoErrorKind, description: &str) -> (e: Error)
        ensures
            e.kind() == ErrorKind::Io(kind),
            e.message() == description@,
    {
        Error::new(ErrorKind::Io(kind), description)
    }
}

} // verus!
