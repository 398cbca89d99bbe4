//! The one error type every failing step of the registration flow converts
//! into, carrying a kind that names the failing step.

use vstd::prelude::*;

verus! {

/// What went wrong, by protocol step.
#[derive(Debug, Clone, PartialEq)]
pub enum ErrorKind {
    /// A request came back with a non-success status, or did not come back
    /// at all; carries the status and the body where they are available.
    TransportError { status: Option<u16>, body: Option<String> },
    /// A body that should have been JSON was not.
    SerializationError,
    /// The signing key could not produce a signature.
    SigningError,
    /// The key store could not activate or return a key.
    KeyStoreError,
    /// A challenge or terminal credential was missing or malformed.
    InvalidTpmToken,
    /// The poll scheduler's timer failed between two ticks.
    TimerError,
    /// The service accepted the unsigned register attempt, which the
    /// protocol forbids: it must challenge.
    Unexpected,
    /// Polling ended with no terminal result, or the terminal result did
    /// not carry a device id and a hub.
    NotAssigned,
}

/// Ghost image of an [`ErrorKind`], with strings as character sequences.
pub enum ErrorKindV {
    TransportError { status: Option<u16>, body: Option<Seq<char>> },
    SerializationError,
    SigningError,
    KeyStoreError,
    InvalidTpmToken,
    TimerError,
    Unexpected,
    NotAssigned,
}

impl View for ErrorKind {
    type V = ErrorKindV;

    open spec fn view(&self) -> ErrorKindV {
        match self {
            ErrorKind::TransportError { status, body } => ErrorKindV::TransportError {
                status: *status,
                body: match body {
                    Some(b) => Some(b@),
                    None => None,
                },
            },
            ErrorKind::SerializationError => ErrorKindV::SerializationError,
            ErrorKind::SigningError => ErrorKindV::SigningError,
            ErrorKind::KeyStoreError => ErrorKindV::KeyStoreError,
            ErrorKind::InvalidTpmToken => ErrorKindV::InvalidTpmToken,
            ErrorKind::TimerError => ErrorKindV::TimerError,
            ErrorKind::Unexpected => ErrorKindV::Unexpected,
            ErrorKind::NotAssigned => ErrorKindV::NotAssigned,
        }
    }
}

/// What a signing key reports when it cannot produce a signature.
#[derive(Debug, Clone, Copy, PartialEq, Eq)]
pub struct SigningFailure;

/// What a key store reports when it cannot activate or return a key.
#[derive(Debug, Clone, Copy, PartialEq, Eq)]
pub struct KeyStoreFailure;

/// The error type of the registration flow.
#[derive(Debug, Clone, PartialEq)]
pub struct Error {
    kind: ErrorKind,
}

impl View for Error {
    type V = ErrorKindV;

    closed spec fn view(&self) -> ErrorKindV {
        self.kind@
    }
}

impl Error {
    pub fn new(kind: ErrorKind) -> (r: Self)
        ensures
            r@ == kind@,
    {
        Error { kind }
    }

    pub fn kind(&self) -> (r: &ErrorKind)
        ensures
            r@ == self@,
    {
        &self.kind
    }
}

} // verus!
