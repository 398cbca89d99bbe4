//! The data model of the provisioning wire format: what a register attempt
//! carries up, and what the service's challenge, operation status and
//! terminal result carry back. Each type has a ghost image over character
//! sequences that the contracts speak of.

use vstd::prelude::*;

verus! {

/// Device-side proof material: endorsement key and storage root key, both
/// already base64-encoded for the wire.
#[derive(Debug, Clone, PartialEq)]
pub struct TpmAttestation {
    pub endorsement_key: String,
    pub storage_root_key: Option<String>,
}

/// Ghost image of a [`TpmAttestation`].
pub struct TpmAttestationV {
    pub endorsement_key: Seq<char>,
    pub storage_root_key: Option<Seq<char>>,
}

impl View for TpmAttestation {
    type V = TpmAttestationV;

    open spec fn view(&self) -> TpmAttestationV {
        TpmAttestationV {
            endorsement_key: self.endorsement_key@,
            storage_root_key: match &self.storage_root_key {
                Some(s) => Some(s@),
                None => None,
            },
        }
    }
}

impl TpmAttestation {
    pub fn new(endorsement_key: String) -> (r: Self)
        ensures
            r@.endorsement_key == endorsement_key@,
            r@.storage_root_key is None,
    {
        TpmAttestation { endorsement_key, storage_root_key: None }
    }

    pub fn with_storage_root_key(self, storage_root_key: String) -> (r: Self)
        ensures
            r@.endorsement_key == self@.endorsement_key,
            r@.storage_root_key == Some(storage_root_key@),
    {
        TpmAttestation { storage_root_key: Some(storage_root_key), ..self }
    }
}

/// The register request payload, identical across the unsigned and the
/// signed attempt.
#[derive(Debug, Clone, PartialEq)]
pub struct DeviceRegistration {
    pub registration_id: Option<String>,
    pub tpm: Option<TpmAttestation>,
}

/// Ghost image of a [`DeviceRegistration`].
pub struct DeviceRegistrationV {
    pub registration_id: Option<Seq<char>>,
    pub tpm: Option<TpmAttestationV>,
}

impl View for DeviceRegistration {
    type V = DeviceRegistrationV;

    open spec fn view(&self) -> DeviceRegistrationV {
        DeviceRegistrationV {
            registration_id: match &self.registration_id {
                Some(s) => Some(s@),
                None => None,
            },
            tpm: match &self.tpm {
                Some(t) => Some(t@),
                None => None,
            },
        }
    }
}

impl DeviceRegistration {
    pub fn new() -> (r: Self)
        ensures
            r@.registration_id is None,
            r@.tpm is None,
    {
        DeviceRegistration { registration_id: None, tpm: None }
    }

    pub fn with_registration_id(self, registration_id: String) -> (r: Self)
        ensures
            r@.registration_id == Some(registration_id@),
            r@.tpm == self@.tpm,
    {
        DeviceRegistration { registration_id: Some(registration_id), ..self }
    }

    pub fn with_tpm(self, tpm: TpmAttestation) -> (r: Self)
        ensures
            r@.registration_id == self@.registration_id,
            r@.tpm == Some(tpm@),
    {
        DeviceRegistration { tpm: Some(tpm), ..self }
    }

    pub fn registration_id(&self) -> (r: Option<&String>)
        ensures
            match r {
                Some(s) => self@.registration_id == Some(s@),
                None => self@.registration_id is None,
            },
    {
        self.registration_id.as_ref()
    }

    pub fn tpm(&self) -> (r: Option<&TpmAttestation>)
        ensures
            match r {
                Some(t) => self@.tpm == Some(t@),
                None => self@.tpm is None,
            },
    {
        self.tpm.as_ref()
    }
}

/// Body of the service's 401 challenge: the derived key the device must
/// re-authenticate with, base64-encoded.
#[derive(Debug, Clone, PartialEq)]
pub struct TpmRegistrationResult {
    pub authentication_key: Option<String>,
}

/// Ghost image of a [`TpmRegistrationResult`].
pub struct TpmRegistrationResultV {
    pub authentication_key: Option<Seq<char>>,
}

impl View for TpmRegistrationResult {
    type V = TpmRegistrationResultV;

    open spec fn view(&self) -> TpmRegistrationResultV {
        TpmRegistrationResultV {
            authentication_key: match &self.authentication_key {
                Some(s) => Some(s@),
                None => None,
            },
        }
    }
}

impl TpmRegistrationResult {
    pub fn new() -> (r: Self)
        ensures
            r@.authentication_key is None,
    {
        TpmRegistrationResult { authentication_key: None }
    }

    pub fn set_authentication_key(&mut self, key: String)
        ensures
            final(self)@.authentication_key == Some(key@),
    {
        self.authentication_key = Some(key);
    }

    pub fn authentication_key(&self) -> (r: Option<&String>)
        ensures
            match r {
                Some(s) => self@.authentication_key == Some(s@),
                None => self@.authentication_key is None,
            },
    {
        self.authentication_key.as_ref()
    }
}

/// The terminal outcome of registration: the assignment, the device
/// identity, and the final credential.
#[derive(Debug, Clone, PartialEq)]
pub struct DeviceRegistrationResult {
    pub registration_id: String,
    pub status: String,
    pub device_id: Option<String>,
    pub assigned_hub: Option<String>,
    pub tpm: Option<TpmRegistrationResult>,
}

/// Ghost image of a [`DeviceRegistrationResult`].
pub struct DeviceRegistrationResultV {
    pub registration_id: Seq<char>,
    pub status: Seq<char>,
    pub device_id: Option<Seq<char>>,
    pub assigned_hub: Option<Seq<char>>,
    pub tpm: Option<TpmRegistrationResultV>,
}

impl View for DeviceRegistrationResult {
    type V = DeviceRegistrationResultV;

    open spec fn view(&self) -> DeviceRegistrationResultV {
        DeviceRegistrationResultV {
            registration_id: self.registration_id@,
            status: self.status@,
            device_id: match &self.device_id {
                Some(s) => Some(s@),
                None => None,
            },
            assigned_hub: match &self.assigned_hub {
                Some(s) => Some(s@),
                None => None,
            },
            tpm: match &self.tpm {
                Some(t) => Some(t@),
                None => None,
            },
        }
    }
}

impl DeviceRegistrationResult {
    pub fn new(registration_id: String, status: String) -> (r: Self)
        ensures
            r@.registration_id == registration_id@,
            r@.status == status@,
            r@.device_id is None,
            r@.assigned_hub is None,
            r@.tpm is None,
    {
        DeviceRegistrationResult {
            registration_id,
            status,
            device_id: None,
            assigned_hub: None,
            tpm: None,
        }
    }

    pub fn with_device_id(self, device_id: String) -> (r: Self)
        ensures
            r@ == (DeviceRegistrationResultV { device_id: Some(device_id@), ..self@ }),
    {
        DeviceRegistrationResult { device_id: Some(device_id), ..self }
    }

    pub fn with_assigned_hub(self, assigned_hub: String) -> (r: Self)
        ensures
            r@ == (DeviceRegistrationResultV { assigned_hub: Some(assigned_hub@), ..self@ }),
    {
        DeviceRegistrationResult { assigned_hub: Some(assigned_hub), ..self }
    }

    pub fn with_tpm(self, tpm: TpmRegistrationResult) -> (r: Self)
        ensures
            r@ == (DeviceRegistrationResultV { tpm: Some(tpm@), ..self@ }),
    {
        DeviceRegistrationResult { tpm: Some(tpm), ..self }
    }

    pub fn registration_id(&self) -> (r: &String)
        ensures
            r@ == self@.registration_id,
    {
        &self.registration_id
    }

    pub fn status(&self) -> (r: &String)
        ensures
            r@ == self@.status,
    {
        &self.status
    }

    pub fn device_id(&self) -> (r: Option<&String>)
        ensures
            match r {
                Some(s) => self@.device_id == Some(s@),
                None => self@.device_id is None,
            },
    {
        self.device_id.as_ref()
    }

    pub fn assigned_hub(&self) -> (r: Option<&String>)
        ensures
            match r {
                Some(s) => self@.assigned_hub == Some(s@),
                None => self@.assigned_hub is None,
            },
    {
        self.assigned_hub.as_ref()
    }

    pub fn tpm(&self) -> (r: Option<&TpmRegistrationResult>)
        ensures
            match r {
                Some(t) => self@.tpm == Some(t@),
                None => self@.tpm is None,
            },
    {
        self.tpm.as_ref()
    }
}

/// The service's answer to the signed register attempt and to every poll:
/// the asynchronous operation's id, its status, and, once assignment has
/// happened, the embedded terminal result.
#[derive(Debug, Clone, PartialEq)]
pub struct RegistrationOperationStatus {
    pub operation_id: String,
    pub status: Option<String>,
    pub registration_state: Option<DeviceRegistrationResult>,
}

/// Ghost image of a [`RegistrationOperationStatus`].
pub struct RegistrationOperationStatusV {
    pub operation_id: Seq<char>,
    pub status: Option<Seq<char>>,
    pub registration_state: Option<DeviceRegistrationResultV>,
}

impl View for RegistrationOperationStatus {
    type V = RegistrationOperationStatusV;

    open spec fn view(&self) -> RegistrationOperationStatusV {
        RegistrationOperationStatusV {
            operation_id: self.operation_id@,
            status: match &self.status {
                Some(s) => Some(s@),
                None => None,
            },
            registration_state: match &self.registration_state {
                Some(s) => Some(s@),
                None => None,
            },
        }
    }
}

impl RegistrationOperationStatus {
    pub fn new(operation_id: String) -> (r: Self)
        ensures
            r@.operation_id == operation_id@,
            r@.status is None,
            r@.registration_state is None,
    {
        RegistrationOperationStatus { operation_id, status: None, registration_state: None }
    }

    pub fn with_status(self, status: String) -> (r: Self)
        ensures
            r@ == (RegistrationOperationStatusV { status: Some(status@), ..self@ }),
    {
        RegistrationOperationStatus { status: Some(status), ..self }
    }

    pub fn with_registration_state(self, registration_state: DeviceRegistrationResult) -> (r: Self)
        ensures
            r@ == (RegistrationOperationStatusV {
                registration_state: Some(registration_state@),
                ..self@
            }),
    {
        RegistrationOperationStatus { registration_state: Some(registration_state), ..self }
    }

    pub fn operation_id(&self) -> (r: &String)
        ensures
            r@ == self@.operation_id,
    {
        &self.operation_id
    }

    pub fn status(&self) -> (r: Option<&String>)
        ensures
            match r {
                Some(s) => self@.status == Some(s@),
                None => self@.status is None,
            },
    {
        self.status.as_ref()
    }

    pub fn registration_state(&self) -> (r: Option<&DeviceRegistrationResult>)
        ensures
            match r {
                Some(s) => self@.registration_state == Some(s@),
                None => self@.registration_state is None,
            },
    {
        self.registration_state.as_ref()
    }
}

} // verus!
