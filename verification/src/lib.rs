//! Client-side core of a zero-touch device provisioning protocol.
//!
//! A device holding TPM attestation material registers with a provisioning
//! service: an unsigned register attempt is expected to be challenged (HTTP
//! 401) with a derived key, the attempt is reissued signed with that key, and
//! the service is then polled at a fixed interval, a bounded number of times,
//! until it assigns the device to a hub. The terminal result carries the
//! final credential, which is activated in the key store before the device
//! identity and hub address are returned.
//!
//! The protocol decisions live here, verified; the collaborators the
//! specification treats as external (the HTTP transport, the signing key
//! store, the tick timer) are traits that the surrounding program implements.

use vstd::prelude::*;

pub mod b64;
pub mod encode;
pub mod error;
pub mod json;
pub mod keystore;
pub mod model;
pub mod registration;
pub mod strutil;
pub mod token;
pub mod transport;

verus! {

/// Interval, in seconds, between two assignment-status polls.
pub const DPS_ASSIGNMENT_RETRY_INTERVAL_SECS: u64 = 10;

/// Seconds to wait in all for the service to assign the device to a hub.
pub const DPS_ASSIGNMENT_TIMEOUT_SECS: u64 = 120;

} // verus!
