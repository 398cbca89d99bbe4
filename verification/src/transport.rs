//! The transport and scheduling collaborators the flow drives.
//!
//! The transport issues the two wire requests of the protocol and hands
//! back either a parsed operation status or a failure; when a token source
//! is passed, the transport computes a fresh token from it for the request's
//! authorization. The timer waits out the interval between two polls. The
//! traits carry no promises: the flow's contracts state what holds whatever
//! an implementation returns.

use vstd::prelude::*;

use crate::model::DeviceRegistration;
use crate::model::RegistrationOperationStatus;
use crate::token::DpsTokenSource;
use crate::token::SignKey;

verus! {

/// Why a request did not come back with a success status.
#[derive(Debug, Clone, PartialEq)]
pub enum TransportFailure {
    /// The service answered with a non-success status; carries the status
    /// and the response body.
    Status(u16, String),
    /// No response was obtained at all; carries a description.
    Connection(String),
}

/// Ghost image of a [`TransportFailure`].
pub enum TransportFailureV {
    Status(u16, Seq<char>),
    Connection(Seq<char>),
}

impl View for TransportFailure {
    type V = TransportFailureV;

    open spec fn view(&self) -> TransportFailureV {
        match self {
            TransportFailure::Status(status, body) => TransportFailureV::Status(*status, body@),
            TransportFailure::Connection(message) => TransportFailureV::Connection(message@),
        }
    }
}

/// An HTTP-shaped client bound to one provisioning service.
pub trait Transport<K: SignKey + Clone>: Sized {
    /// `PUT {scope}/registrations/{id}/register` with the registration
    /// payload; signed with a token from `token_source` when one is given.
    fn put_register(
        &mut self,
        scope_id: &str,
        registration_id: &str,
        registration: &DeviceRegistration,
        token_source: Option<&DpsTokenSource<K>>,
    ) -> Result<Option<RegistrationOperationStatus>, TransportFailure>;

    /// `GET {scope}/registrations/{id}/operations/{operation}`, signed with
    /// a token from `token_source`.
    fn get_status(
        &mut self,
        scope_id: &str,
        registration_id: &str,
        operation_id: &str,
        token_source: &DpsTokenSource<K>,
    ) -> Result<Option<RegistrationOperationStatus>, TransportFailure>;
}

/// The fixed-interval timer the poll loop ticks on.
pub trait PollTimer: Sized {
    /// Wait one interval; `false` reports a scheduler failure, which aborts
    /// the poll.
    fn wait_tick(&mut self, interval_secs: u64) -> bool;
}

} // verus!
