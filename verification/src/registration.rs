//! The registration orchestrator: unsigned attempt, challenge, signed
//! reissue, bounded polling, terminal handling.
//!
//! The flow is a state machine over what the collaborators return. The
//! unsigned register attempt must be challenged with 401 — success is a
//! protocol violation; the challenge body yields a derived key that is
//! activated and used to sign the reissued attempt; the returned operation
//! is then polled at a fixed interval, a bounded number of times, until a
//! result that is not skippable arrives; the terminal result's credential
//! is activated before the device id and hub are handed back.

use vstd::prelude::*;

use crate::b64::b64_decode;
use crate::b64::b64_decode_of;
use crate::b64::b64_encode;
use crate::error::Error;
use crate::error::ErrorKind;
use crate::error::ErrorKindV;
use crate::json::auth_key_of;
use crate::json::challenge_auth_key;
use crate::json::json_parses;
use crate::keystore::KeyIdentity;
use crate::keystore::KeyStore;
use crate::model::DeviceRegistration;
use crate::model::DeviceRegistrationResult;
use crate::model::DeviceRegistrationResultV;
use crate::model::RegistrationOperationStatus;
use crate::model::RegistrationOperationStatusV;
use crate::model::TpmAttestation;
use crate::strutil::chars_eq_ignore_ascii_case;
use crate::strutil::str_eq_ignore_ascii_case;
use crate::token::DpsTokenSource;
use crate::token::SignKey;
use crate::transport::PollTimer;
use crate::transport::Transport;
use crate::transport::TransportFailure;
use crate::transport::TransportFailureV;

verus! {

/// The ghost image of an `Option` of viewable values.
pub open spec fn opt_view<T: View>(o: Option<T>) -> Option<T::V> {
    match o {
        Some(v) => Some(v@),
        None => None,
    }
}

/// The error an unanswered or refused request surfaces as.
pub open spec fn transport_error_kind(t: TransportFailureV) -> ErrorKindV {
    match t {
        TransportFailureV::Status(status, body) => ErrorKindV::TransportError {
            status: Some(status),
            body: Some(body),
        },
        TransportFailureV::Connection(_) => ErrorKindV::TransportError {
            status: None,
            body: None,
        },
    }
}

fn transport_error(t: TransportFailure) -> (r: Error)
    ensures
        r@ == transport_error_kind(t@),
        r@ is TransportError,
{
    match t {
        TransportFailure::Status(status, body) => Error::new(
            ErrorKind::TransportError { status: Some(status), body: Some(body) },
        ),
        TransportFailure::Connection(_) => Error::new(
            ErrorKind::TransportError { status: None, body: None },
        ),
    }
}

/// Is a poll answer one to discard and poll past? An absent result is; so
/// is one whose status is `assigning` in any mix of case; any other result
/// ends the poll.
pub open spec fn spec_skippable(r: Option<DeviceRegistrationResultV>) -> bool {
    match r {
        None => true,
        Some(v) => chars_eq_ignore_ascii_case(v.status, "assigning"@),
    }
}

/// The skippable predicate, case by case: an absent result is skipped; a
/// status equal to `assigning` up to ASCII case is skipped; a present
/// result with any other status is terminal.
pub proof fn lemma_skippable_cases(r: Option<DeviceRegistrationResultV>)
    ensures
        r is None ==> spec_skippable(r),
        (r matches Some(v) && chars_eq_ignore_ascii_case(v.status, "assigning"@)) ==>
            spec_skippable(r),
        (r matches Some(v) && !chars_eq_ignore_ascii_case(v.status, "assigning"@)) ==>
            !spec_skippable(r),
{
}

/// Decide whether a poll answer is skippable.
pub fn is_skippable_result(registration_result: &Option<DeviceRegistrationResult>) -> (r: Result<
    bool,
    Error,
>)
    ensures
        r matches Ok(b) && b == spec_skippable(opt_view(*registration_result)),
{
    match registration_result {
        Some(res) => Ok(str_eq_ignore_ascii_case(res.status().as_str(), "assigning")),
        None => Ok(true),
    }
}

/// The terminal result a poll answer embeds, if any.
pub open spec fn spec_registration_state(op: Option<RegistrationOperationStatusV>) -> Option<
    DeviceRegistrationResultV,
> {
    match op {
        None => None,
        Some(s) => s.registration_state,
    }
}

fn extract_registration_state(op: Option<RegistrationOperationStatus>) -> (r: Option<
    DeviceRegistrationResult,
>)
    ensures
        opt_view(r) == spec_registration_state(opt_view(op)),
{
    match op {
        None => None,
        Some(s) => s.registration_state,
    }
}

/// What one request observed: the service's parsed answer, or the failure.
pub type ResponseV = Result<Option<RegistrationOperationStatusV>, TransportFailureV>;

/// Did this probe's answer allow the poll to go on?
pub open spec fn probe_skippable(p: ResponseV) -> bool {
    p matches Ok(op) && spec_skippable(spec_registration_state(op))
}

/// Does `res` report exactly what the probe observed: the embedded terminal
/// result on an answer, the transport error on a failure?
pub open spec fn probe_result_matches(
    res: Result<Option<DeviceRegistrationResult>, Error>,
    probe: ResponseV,
) -> bool {
    match probe {
        Ok(op) => res matches Ok(d) && opt_view(d) == spec_registration_state(op),
        Err(tf) => res matches Err(e) && e@ == transport_error_kind(tf),
    }
}

/// What one poll run observed: every status probe made, in order, and the
/// timer's answer before every tick after the first.
pub struct PollTraceV {
    pub probes: Seq<ResponseV>,
    pub ticks: Seq<bool>,
}

/// What the challenge round observed: the unsigned attempt's outcome, and
/// the signed reissue's, when one was made.
pub struct AuthTraceV {
    pub unsigned: ResponseV,
    pub signed: Option<ResponseV>,
}

/// What one whole registration run observed: the challenge round's two
/// attempts, then the status probes and the timer's answers.
pub struct RegisterTraceV {
    pub unsigned: ResponseV,
    pub signed: Option<ResponseV>,
    pub probes: Seq<ResponseV>,
    pub ticks: Seq<bool>,
}

/// How many status probes a run may make: the assignment timeout divided
/// by the poll interval, plus one.
pub open spec fn spec_retry_count() -> int {
    crate::DPS_ASSIGNMENT_TIMEOUT_SECS as int / crate::DPS_ASSIGNMENT_RETRY_INTERVAL_SECS as int
        + 1
}

/// Decode a base64 credential carried by a challenge or terminal result; a
/// malformed value is a protocol error.
pub fn decode_challenge_key(key_str: &str) -> (r: Result<Vec<u8>, Error>)
    ensures
        r matches Ok(b) ==> b64_decode_of(key_str@) == Some(b@),
        r matches Err(e) ==> e@ is InvalidTpmToken && b64_decode_of(key_str@) is None,
        r is Ok <==> b64_decode_of(key_str@) is Some,
{
    match b64_decode(key_str) {
        Some(b) => Ok(b),
        None => Err(Error::new(ErrorKind::InvalidTpmToken)),
    }
}

/// The device id and hub of a terminal result; either missing means the
/// device was not assigned.
pub fn get_device_info(registration_result: &DeviceRegistrationResult) -> (r: Result<
    (String, String),
    Error,
>)
    ensures
        match (registration_result@.device_id, registration_result@.assigned_hub) {
            (Some(d), Some(h)) => r matches Ok(p) && p.0@ == d && p.1@ == h,
            _ => r matches Err(e) && e@ is NotAssigned,
        },
{
    let device_id = match registration_result.device_id() {
        Some(d) => d.clone(),
        None => {
            return Err(Error::new(ErrorKind::NotAssigned));
        },
    };
    let assigned_hub = match registration_result.assigned_hub() {
        Some(h) => h.clone(),
        None => {
            return Err(Error::new(ErrorKind::NotAssigned));
        },
    };
    Ok((device_id, assigned_hub))
}

/// A terminal result that assigned the device: it names `device_id` and
/// `hub`, and carries a final credential whose base64 decodes to `kb`.
pub open spec fn spec_assigned(
    rv: DeviceRegistrationResultV,
    device_id: Seq<char>,
    hub: Seq<char>,
    kb: Seq<u8>,
) -> bool {
    &&& rv.device_id == Some(device_id)
    &&& rv.assigned_hub == Some(hub)
    &&& rv.tpm matches Some(t) && t.authentication_key matches Some(ak) && b64_decode_of(ak)
        == Some(kb)
}

/// The registration orchestrator: one identity, its attestation material,
/// and the collaborators the flow drives.
pub struct DpsClient<K: SignKey + Clone, A: KeyStore<K>, T: Transport<K>, Tm: PollTimer> {
    pub transport: T,
    pub timer: Tm,
    pub scope_id: String,
    pub registration_id: String,
    pub tpm_ek: Vec<u8>,
    pub tpm_srk: Vec<u8>,
    pub key_store: A,
    pub key_kind: core::marker::PhantomData<K>,
}

impl<K: SignKey + Clone, A: KeyStore<K>, T: Transport<K>, Tm: PollTimer> DpsClient<K, A, T, Tm> {
    pub fn new(
        transport: T,
        timer: Tm,
        scope_id: String,
        registration_id: String,
        tpm_ek: Vec<u8>,
        tpm_srk: Vec<u8>,
        key_store: A,
    ) -> (r: Result<Self, Error>)
        ensures
            r matches Ok(c) && c.scope_id@ == scope_id@ && c.registration_id@ == registration_id@
                && c.tpm_ek@ == tpm_ek@ && c.tpm_srk@ == tpm_srk@ && c.transport == transport
                && c.timer == timer && c.key_store == key_store,
    {
        Ok(
            DpsClient {
                transport,
                timer,
                scope_id,
                registration_id,
                tpm_ek,
                tpm_srk,
                key_store,
                key_kind: core::marker::PhantomData,
            },
        )
    }

    /// Turn a 401 challenge body into a signing key: parse the JSON, decode
    /// the `authenticationKey`, activate it under the device's primary slot
    /// and hand back a key on that slot.
    pub fn get_tpm_challenge_key(body: &str, key_store: &mut A) -> (r: Result<K, Error>)
        ensures
            !json_parses(body@) ==> (r matches Err(e) && e@ is SerializationError),
            r matches Err(e) ==> (e@ is SerializationError || e@ is InvalidTpmToken
                || e@ is KeyStoreError),
            match auth_key_of(body@) {
                None => r matches Err(e) && e@ is SerializationError && final(key_store).keys()
                    == old(key_store).keys(),
                Some(None) => r matches Err(e) && e@ is InvalidTpmToken && final(key_store).keys()
                    == old(key_store).keys(),
                Some(Some(ak)) => match b64_decode_of(ak) {
                    None => r matches Err(e) && e@ is InvalidTpmToken && final(key_store).keys()
                        == old(key_store).keys(),
                    Some(kb) => {
                        &&& (r matches Ok(k) ==> k.material() == kb && final(key_store).keys()
                            == old(key_store).keys().insert("primary"@, kb))
                        &&& (r matches Err(e) ==> e@ is KeyStoreError && final(key_store).keys()
                            == old(key_store).keys())
                    },
                },
            },
    {
        let key_str = match challenge_auth_key(body) {
            None => {
                return Err(Error::new(ErrorKind::SerializationError));
            },
            Some(None) => {
                return Err(Error::new(ErrorKind::InvalidTpmToken));
            },
            Some(Some(s)) => s,
        };
        let key_bytes = match decode_challenge_key(key_str.as_str()) {
            Ok(b) => b,
            Err(e) => {
                return Err(e);
            },
        };
        match key_store.activate_identity_key(KeyIdentity::Device, "primary", key_bytes) {
            Ok(_) => (),
            Err(_) => {
                return Err(Error::new(ErrorKind::KeyStoreError));
            },
        }
        match key_store.get(&KeyIdentity::Device, "primary") {
            Ok(k) => Ok(k),
            Err(_) => Err(Error::new(ErrorKind::KeyStoreError)),
        }
    }

    /// Reissue the register attempt signed with the challenge key and hand
    /// back the operation the service opened. The ghost result records what
    /// the transport answered, and the returned value reports exactly that.
    pub fn get_operation_id(
        transport: &mut T,
        scope_id: &str,
        registration_id: &str,
        registration: &DeviceRegistration,
        key: K,
    ) -> (r: (Result<Option<RegistrationOperationStatus>, Error>, Ghost<ResponseV>))
        ensures
            match r.1@ {
                Ok(op) => r.0 matches Ok(o) && opt_view(o) == op,
                Err(tf) => r.0 matches Err(e) && e@ == transport_error_kind(tf),
            },
            r.0 matches Err(e) ==> e@ is TransportError,
    {
        let token_source = DpsTokenSource::new(scope_id.to_owned(), registration_id.to_owned(), key);
        match transport.put_register(scope_id, registration_id, registration, Some(&token_source)) {
            Ok(op) => {
                let ghost observed: ResponseV = Ok(opt_view(op));
                (Ok(op), Ghost(observed))
            },
            Err(tf) => {
                let ghost observed: ResponseV = Err(tf@);
                (Err(transport_error(tf)), Ghost(observed))
            },
        }
    }

    /// One signed status probe; the ghost result records what the transport
    /// answered, and the returned value reports exactly that.
    pub fn get_operation_status(
        transport: &mut T,
        scope_id: &str,
        registration_id: &str,
        operation_id: &str,
        key: K,
    ) -> (r: (Result<Option<DeviceRegistrationResult>, Error>, Ghost<ResponseV>))
        ensures
            probe_result_matches(r.0, r.1@),
    {
        let token_source = DpsTokenSource::new(scope_id.to_owned(), registration_id.to_owned(), key);
        match transport.get_status(scope_id, registration_id, operation_id, &token_source) {
            Ok(op) => {
                let ghost probe: ResponseV = Ok(opt_view(op));
                let state = extract_registration_state(op);
                (Ok(state), Ghost(probe))
            },
            Err(tf) => {
                let ghost probe: ResponseV = Err(tf@);
                (Err(transport_error(tf)), Ghost(probe))
            },
        }
    }

    /// Poll for the terminal result: at most `retry_count` probes, one
    /// interval apart, each discarded while skippable. The ghost trace
    /// records every probe made and every timer answer, so the contract
    /// pins the poll's shape: every probe before the last was skippable;
    /// an exhausted poll made exactly `retry_count` probes, one per tick,
    /// and ends with no result; a terminal result stops the poll at once;
    /// a failed probe aborts with the matching transport error; and the
    /// poll ends in `TimerError` exactly when the timer's last answer was
    /// a failure.
    pub fn get_device_registration_result(
        transport: &mut T,
        timer: &mut Tm,
        scope_id: &str,
        registration_id: &str,
        operation_id: &str,
        key: K,
        retry_count: u64,
    ) -> (r: (Result<Option<DeviceRegistrationResult>, Error>, Ghost<PollTraceV>))
        ensures
            r.1@.probes.len() <= retry_count,
            forall|j: int|
                0 <= j < r.1@.probes.len() - 1 ==> probe_skippable(#[trigger] r.1@.probes[j]),
            forall|j: int| 0 <= j < r.1@.ticks.len() - 1 ==> r.1@.ticks[j] == true,
            (match r.0 {
                Err(e) => e@ is TimerError,
                _ => false,
            }) <==> (r.1@.ticks.len() >= 1 && r.1@.ticks.last() == false),
            !(r.1@.ticks.len() >= 1 && r.1@.ticks.last() == false) ==> r.1@.ticks.len() == (
            if r.1@.probes.len() == 0 {
                0int
            } else {
                r.1@.probes.len() - 1
            }),
            match r.0 {
                Ok(None) => r.1@.probes.len() == retry_count && (forall|j: int|
                    0 <= j < r.1@.probes.len() ==> probe_skippable(#[trigger] r.1@.probes[j])),
                Ok(Some(res)) => r.1@.probes.len() >= 1 && !spec_skippable(Some(res@)) && (
                r.1@.probes.last() matches Ok(op) && spec_registration_state(op) == Some(res@)),
                Err(e) => if e@ is TimerError {
                    r.1@.probes.len() == r.1@.ticks.len() && r.1@.probes.len() < retry_count && (
                    forall|j: int|
                        0 <= j < r.1@.probes.len() ==> probe_skippable(#[trigger] r.1@.probes[j]))
                } else {
                    r.1@.probes.len() >= 1 && (r.1@.probes.last() matches Err(tf) && e@
                        == transport_error_kind(tf))
                },
            },
    {
        let token_source = DpsTokenSource::new(
            scope_id.to_owned(),
            registration_id.to_owned(),
            key,
        );
        let ghost mut probes: Seq<ResponseV> = Seq::empty();
        let ghost mut ticks: Seq<bool> = Seq::empty();
        let mut i: u64 = 0;
        while i < retry_count
            invariant
                i <= retry_count,
                probes.len() == i,
                forall|j: int| 0 <= j < probes.len() ==> probe_skippable(#[trigger] probes[j]),
                ticks.len() == (if i == 0 {
                    0int
                } else {
                    i as int - 1
                }),
                forall|j: int| 0 <= j < ticks.len() ==> ticks[j] == true,
            decreases retry_count - i,
        {
            if i > 0 {
                let elapsed = timer.wait_tick(crate::DPS_ASSIGNMENT_RETRY_INTERVAL_SECS);
                proof {
                    ticks = ticks.push(elapsed);
                }
                if !elapsed {
                    return (
                        Err(Error::new(ErrorKind::TimerError)),
                        Ghost(PollTraceV { probes, ticks }),
                    );
                }
            }
            match transport.get_status(
                scope_id,
                registration_id,
                operation_id,
                &token_source,
            ) {
                Err(tf) => {
                    proof {
                        probes = probes.push(Err(tf@));
                    }
                    return (Err(transport_error(tf)), Ghost(PollTraceV { probes, ticks }));
                },
                Ok(op) => {
                    proof {
                        probes = probes.push(Ok(opt_view(op)));
                    }
                    let state = extract_registration_state(op);
                    let skippable = match is_skippable_result(&state) {
                        Ok(b) => b,
                        Err(e) => {
                            return (Err(e), Ghost(PollTraceV { probes, ticks }));
                        },
                    };
                    if !skippable {
                        match state {
                            Some(d) => {
                                return (Ok(Some(d)), Ghost(PollTraceV { probes, ticks }));
                            },
                            None => {
                                // an absent result is always skippable, so
                                // this branch cannot be reached
                                proof {
                                    assert(false);
                                }
                                return (Ok(None), Ghost(PollTraceV { probes, ticks }));
                            },
                        }
                    }
                },
            }
            i = i + 1;
        }
        (Ok(None), Ghost(PollTraceV { probes, ticks }))
    }

    /// The unsigned register attempt and the challenge round: the service
    /// must answer 401 with a challenge; the challenge key is activated and
    /// the attempt reissued signed with it. On any other answer the flow
    /// aborts; a plain success is the protocol violation `Unexpected`. The
    /// ghost trace records the unsigned attempt's outcome and the signed
    /// reissue's, when one was made, and the contract pins each branch to
    /// them: no reissue without a decodable challenge, the key store
    /// untouched on every refused branch, and the reissue's answer relayed
    /// as the result.
    pub fn register_with_auth(
        transport: &mut T,
        scope_id: String,
        registration_id: String,
        tpm_ek: &Vec<u8>,
        tpm_srk: &Vec<u8>,
        key_store: &mut A,
    ) -> (r: (Result<Option<RegistrationOperationStatus>, Error>, Ghost<AuthTraceV>))
        ensures
            r.0 is Ok ==> (exists|kb: Seq<u8>|
                final(key_store).keys() == old(key_store).keys().insert("primary"@, kb)),
            r.0 matches Err(e) ==> (e@ is Unexpected || e@ is TransportError
                || e@ is SerializationError || e@ is InvalidTpmToken || e@ is KeyStoreError),
            r.0 is Ok ==> r.1@.signed is Some,
            match r.1@.unsigned {
                Ok(_) => r.0 matches Err(e) && e@ is Unexpected && r.1@.signed is None
                    && final(key_store).keys() == old(key_store).keys(),
                Err(TransportFailureV::Status(status, body)) => if status == 401 {
                    &&& (!json_parses(body) ==> (r.0 matches Err(e) && e@ is SerializationError))
                    &&& match auth_key_of(body) {
                        None => r.0 matches Err(e) && e@ is SerializationError && r.1@.signed
                            is None && final(key_store).keys() == old(key_store).keys(),
                        Some(None) => r.0 matches Err(e) && e@ is InvalidTpmToken && r.1@.signed
                            is None && final(key_store).keys() == old(key_store).keys(),
                        Some(Some(ak)) => match b64_decode_of(ak) {
                            None => r.0 matches Err(e) && e@ is InvalidTpmToken && r.1@.signed
                                is None && final(key_store).keys() == old(key_store).keys(),
                            Some(kb) => {
                                &&& (r.1@.signed is None ==> (r.0 matches Err(e)
                                    && e@ is KeyStoreError && final(key_store).keys()
                                    == old(key_store).keys()))
                                &&& match r.1@.signed {
                                    Some(sr) => {
                                        &&& final(key_store).keys()
                                            == old(key_store).keys().insert("primary"@, kb)
                                        &&& match sr {
                                            Ok(op) => r.0 matches Ok(o) && opt_view(o) == op,
                                            Err(tf) => r.0 matches Err(e) && e@
                                                == transport_error_kind(tf),
                                        }
                                    },
                                    None => true,
                                }
                            },
                        },
                    }
                } else {
                    r.0 matches Err(e) && e@ == (ErrorKindV::TransportError {
                        status: Some(status),
                        body: Some(body),
                    }) && r.1@.signed is None && final(key_store).keys() == old(key_store).keys()
                },
                Err(TransportFailureV::Connection(_)) => r.0 matches Err(e) && e@ == (
                ErrorKindV::TransportError { status: None, body: None }) && r.1@.signed is None
                    && final(key_store).keys() == old(key_store).keys(),
            },
    {
        let attestation = TpmAttestation::new(b64_encode(tpm_ek)).with_storage_root_key(
            b64_encode(tpm_srk),
        );
        let registration = DeviceRegistration::new().with_registration_id(
            registration_id.clone(),
        ).with_tpm(attestation);
        let first = transport.put_register(
            scope_id.as_str(),
            registration_id.as_str(),
            &registration,
            None,
        );
        let ghost observed: ResponseV = match &first {
            Ok(op) => Ok(opt_view(*op)),
            Err(tf) => Err(tf@),
        };
        let ghost mut signed: Option<ResponseV> = None;
        let result = match first {
            Ok(_) => Err(Error::new(ErrorKind::Unexpected)),
            Err(TransportFailure::Status(status, body)) => {
                if status == 401 {
                    match Self::get_tpm_challenge_key(body.as_str(), key_store) {
                        Ok(key) => {
                            let (reissue, reissue_observed) = Self::get_operation_id(
                                transport,
                                scope_id.as_str(),
                                registration_id.as_str(),
                                &registration,
                                key,
                            );
                            proof {
                                signed = Some(reissue_observed@);
                            }
                            reissue
                        },
                        Err(e) => Err(e),
                    }
                } else {
                    Err(transport_error(TransportFailure::Status(status, body)))
                }
            },
            Err(tf) => Err(transport_error(tf)),
        };
        (result, Ghost(AuthTraceV { unsigned: observed, signed }))
    }

    /// Activate the terminal credential and extract the device identity.
    /// The activation comes first: when the identity is handed back, the
    /// primary slot already holds the final key.
    fn finalize_registration(key_store: &mut A, result: DeviceRegistrationResult) -> (r: Result<
        (String, String),
        Error,
    >)
        ensures
            r matches Ok(p) ==> (exists|kb: Seq<u8>|
                spec_assigned(result@, p.0@, p.1@, kb) && final(key_store).keys() == old(
                    key_store,
                ).keys().insert("primary"@, kb)),
            r matches Err(e) ==> (e@ is NotAssigned || e@ is InvalidTpmToken
                || e@ is KeyStoreError),
            result@.tpm is None ==> (r matches Err(e) && e@ is NotAssigned),
            match result@.tpm {
                Some(t) => match t.authentication_key {
                    Some(ak) => match b64_decode_of(ak) {
                        Some(kb) => match (result@.device_id, result@.assigned_hub) {
                            (Some(d), Some(h)) => (r matches Ok(p) && p.0@ == d && p.1@ == h) || (
                            r matches Err(e) && e@ is KeyStoreError),
                            _ => r matches Err(e) && (e@ is NotAssigned || e@ is KeyStoreError),
                        },
                        None => r matches Err(e) && e@ is InvalidTpmToken,
                    },
                    None => r matches Err(e) && e@ is NotAssigned,
                },
                None => true,
            },
    {
        let tpm = match result.tpm() {
            Some(t) => t,
            None => {
                return Err(Error::new(ErrorKind::NotAssigned));
            },
        };
        let auth_key = match tpm.authentication_key() {
            Some(s) => s,
            None => {
                return Err(Error::new(ErrorKind::NotAssigned));
            },
        };
        let key_bytes = match decode_challenge_key(auth_key.as_str()) {
            Ok(b) => b,
            Err(e) => {
                return Err(e);
            },
        };
        match key_store.activate_identity_key(KeyIdentity::Device, "primary", key_bytes) {
            Ok(_) => (),
            Err(_) => {
                return Err(Error::new(ErrorKind::KeyStoreError));
            },
        }
        get_device_info(&result)
    }

    /// The whole flow: register, be challenged, reissue signed, poll until
    /// assigned, activate the final credential, and hand back the device id
    /// and hub. The ghost trace records everything the run observed — both
    /// register attempts, every probe, every timer answer — and the
    /// contract pins the result to it: the returned pair is read off the
    /// last probe's terminal result, whose credential the primary key slot
    /// then holds; polling never begins before the signed attempt opened
    /// an operation; and each error kind arises only from the recorded
    /// outcome that the protocol maps to it.
    pub fn register(&mut self) -> (r: (Result<(String, String), Error>, Ghost<RegisterTraceV>))
        ensures
            final(self).scope_id == old(self).scope_id,
            final(self).registration_id == old(self).registration_id,
            final(self).tpm_ek == old(self).tpm_ek,
            final(self).tpm_srk == old(self).tpm_srk,
            r.1@.probes.len() <= spec_retry_count(),
            forall|j: int|
                0 <= j < r.1@.probes.len() - 1 ==> probe_skippable(#[trigger] r.1@.probes[j]),
            r.1@.probes.len() >= 1 ==> (r.1@.signed matches Some(sr) && sr matches Ok(op0)
                && op0 is Some),
            r.1@.signed is Some ==> (r.1@.unsigned matches Err(TransportFailureV::Status(st, b))
                && st == 401 && (auth_key_of(b) matches Some(Some(ak))
                && b64_decode_of(ak) is Some)),
            (match r.1@.unsigned {
                Ok(_) => true,
                _ => false,
            }) ==> (r.0 matches Err(e) && e@ is Unexpected),
            (r.1@.ticks.len() >= 1 && r.1@.ticks.last() == false) <==> (match r.0 {
                Err(e) => e@ is TimerError,
                _ => false,
            }),
            (r.1@.probes.len() == spec_retry_count() && (forall|j: int|
                0 <= j < r.1@.probes.len() ==> probe_skippable(#[trigger] r.1@.probes[j]))) ==> (
            r.0 matches Err(e) && e@ is NotAssigned),
            match r.1@.signed {
                Some(sr4) => match sr4 {
                    Ok(op3) => op3 is None ==> (r.0 matches Err(e4) && (e4@ is NotAssigned
                        || e4@ is KeyStoreError)),
                    Err(_) => true,
                },
                None => true,
            },
            r.1@.probes.len() >= 1 ==> match r.1@.probes.last() {
                Ok(op4) => match spec_registration_state(op4) {
                    Some(rv3) => !spec_skippable(Some(rv3)) ==> match rv3.tpm {
                        None => r.0 matches Err(e5) && e5@ is NotAssigned,
                        Some(tm3) => match tm3.authentication_key {
                            None => r.0 matches Err(e5) && e5@ is NotAssigned,
                            Some(ak3) => match b64_decode_of(ak3) {
                                None => r.0 matches Err(e5) && e5@ is InvalidTpmToken,
                                Some(_) => match (rv3.device_id, rv3.assigned_hub) {
                                    (Some(_), Some(_)) => r.0 is Ok || (r.0 matches Err(e5)
                                        && e5@ is KeyStoreError),
                                    _ => r.0 matches Err(e5) && (e5@ is NotAssigned
                                        || e5@ is KeyStoreError),
                                },
                            },
                        },
                    },
                    None => true,
                },
                Err(_) => true,
            },
            match r.0 {
                Ok(p) => {
                    &&& r.1@.probes.len() >= 1
                    &&& (r.1@.probes.last() matches Ok(op) && spec_registration_state(op)
                        matches Some(rv) && {
                        &&& !spec_skippable(Some(rv))
                        &&& rv.device_id == Some(p.0@)
                        &&& rv.assigned_hub == Some(p.1@)
                        &&& (rv.tpm matches Some(tm) && tm.authentication_key matches Some(ak2)
                            && b64_decode_of(ak2) matches Some(kb)
                            && final(self).key_store.keys().contains_pair("primary"@, kb))
                    })
                },
                Err(e) => {
                    &&& (e@ is Unexpected || e@ is TransportError || e@ is SerializationError
                        || e@ is InvalidTpmToken || e@ is KeyStoreError || e@ is TimerError
                        || e@ is NotAssigned)
                    &&& (e@ is Unexpected ==> r.1@.unsigned is Ok)
                    &&& (e@ is NotAssigned ==> {
                        ||| (r.1@.signed matches Some(sr2) && sr2 matches Ok(op1) && op1 is None)
                        ||| (r.1@.probes.len() == spec_retry_count() && (forall|j: int|
                            0 <= j < r.1@.probes.len() ==> probe_skippable(
                                #[trigger] r.1@.probes[j],
                            )))
                        ||| (r.1@.probes.len() >= 1 && (r.1@.probes.last() matches Ok(op2)
                            && spec_registration_state(op2) matches Some(rv2) && (rv2.tpm is None
                            || (rv2.tpm matches Some(tm2) && (tm2.authentication_key is None
                            || rv2.device_id is None || rv2.assigned_hub is None)))))
                    })
                    &&& (e@ is TransportError ==> {
                        ||| (match r.1@.unsigned {
                            Err(tf) => e@ == transport_error_kind(tf),
                            Ok(_) => false,
                        })
                        ||| (r.1@.signed matches Some(sr3) && sr3 matches Err(tf2) && e@
                            == transport_error_kind(tf2))
                        ||| (r.1@.probes.len() >= 1 && (r.1@.probes.last() matches Err(tf3) && e@
                            == transport_error_kind(tf3)))
                    })
                },
            },
    {
        let (auth_result, challenge_trace) = Self::register_with_auth(
            &mut self.transport,
            self.scope_id.clone(),
            self.registration_id.clone(),
            &self.tpm_ek,
            &self.tpm_srk,
            &mut self.key_store,
        );
        let ghost mut trace = RegisterTraceV {
            unsigned: challenge_trace@.unsigned,
            signed: challenge_trace@.signed,
            probes: Seq::empty(),
            ticks: Seq::empty(),
        };
        let op_status = match auth_result {
            Ok(o) => o,
            Err(e) => {
                return (Err(e), Ghost(trace));
            },
        };
        let key = match self.key_store.get(&KeyIdentity::Device, "primary") {
            Ok(k) => k,
            Err(_) => {
                return (Err(Error::new(ErrorKind::KeyStoreError)), Ghost(trace));
            },
        };
        let op = match op_status {
            Some(s) => s,
            None => {
                return (Err(Error::new(ErrorKind::NotAssigned)), Ghost(trace));
            },
        };
        let retry_count = crate::DPS_ASSIGNMENT_TIMEOUT_SECS
            / crate::DPS_ASSIGNMENT_RETRY_INTERVAL_SECS + 1;
        let (poll_result, poll_trace) = Self::get_device_registration_result(
            &mut self.transport,
            &mut self.timer,
            self.scope_id.as_str(),
            self.registration_id.as_str(),
            op.operation_id().as_str(),
            key,
            retry_count,
        );
        proof {
            trace = RegisterTraceV { probes: poll_trace@.probes, ticks: poll_trace@.ticks, ..trace };
        }
        let result = match poll_result {
            Ok(r2) => r2,
            Err(e) => {
                return (Err(e), Ghost(trace));
            },
        };
        match result {
            None => (Err(Error::new(ErrorKind::NotAssigned)), Ghost(trace)),
            Some(d) => {
                let finished = Self::finalize_registration(&mut self.key_store, d);
                (finished, Ghost(trace))
            },
        }
    }
}

} // verus!

