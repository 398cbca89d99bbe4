//! The registration flow, driven end to end against scripted collaborators.

use dps::error::{ErrorKind, KeyStoreFailure, SigningFailure};
use dps::keystore::{KeyIdentity, KeyStore};
use dps::model::{DeviceRegistration, DeviceRegistrationResult, RegistrationOperationStatus, TpmRegistrationResult};
use dps::registration::{get_device_info, is_skippable_result, DpsClient};
use dps::token::{DpsTokenSource, SignKey};
use dps::transport::{PollTimer, Transport, TransportFailure};

#[derive(Clone)]
struct MemoryKey {
    bytes: Vec<u8>,
}

impl SignKey for MemoryKey {
    fn sign(&self, data: &[u8]) -> Result<Vec<u8>, SigningFailure> {
        let mut v = self.bytes.clone();
        v.extend_from_slice(data);
        Ok(v)
    }
}

#[derive(Clone)]
struct MemoryKeyStore {
    slots: Vec<(String, Vec<u8>)>,
}

impl MemoryKeyStore {
    fn new() -> Self {
        MemoryKeyStore { slots: Vec::new() }
    }

    fn bytes_of(&self, name: &str) -> Option<Vec<u8>> {
        self.slots.iter().find(|(n, _)| n == name).map(|(_, b)| b.clone())
    }
}

impl KeyStore<MemoryKey> for MemoryKeyStore {
    fn activate_identity_key(
        &mut self,
        _identity: KeyIdentity,
        key_name: &str,
        key: Vec<u8>,
    ) -> Result<(), KeyStoreFailure> {
        self.slots.retain(|(n, _)| n != key_name);
        self.slots.push((key_name.to_string(), key));
        Ok(())
    }

    fn get(&self, _identity: &KeyIdentity, key_name: &str) -> Result<MemoryKey, KeyStoreFailure> {
        match self.bytes_of(key_name) {
            Some(bytes) => Ok(MemoryKey { bytes }),
            None => Err(KeyStoreFailure),
        }
    }
}

/// A store whose activation always fails.
#[derive(Clone)]
struct BrokenKeyStore;

impl KeyStore<MemoryKey> for BrokenKeyStore {
    fn activate_identity_key(
        &mut self,
        _identity: KeyIdentity,
        _key_name: &str,
        _key: Vec<u8>,
    ) -> Result<(), KeyStoreFailure> {
        Err(KeyStoreFailure)
    }

    fn get(&self, _identity: &KeyIdentity, _key_name: &str) -> Result<MemoryKey, KeyStoreFailure> {
        Err(KeyStoreFailure)
    }
}

type Scripted = Result<Option<RegistrationOperationStatus>, TransportFailure>;

struct MockTransport {
    put_responses: Vec<Scripted>,
    get_responses: Vec<Scripted>,
    puts: usize,
    gets: usize,
    put_tokens: Vec<Option<String>>,
    scopes_seen: Vec<String>,
    registration_ids_seen: Vec<String>,
    operation_ids_seen: Vec<String>,
}

impl MockTransport {
    fn new(put_responses: Vec<Scripted>, get_responses: Vec<Scripted>) -> Self {
        MockTransport {
            put_responses,
            get_responses,
            puts: 0,
            gets: 0,
            put_tokens: Vec::new(),
            scopes_seen: Vec::new(),
            registration_ids_seen: Vec::new(),
            operation_ids_seen: Vec::new(),
        }
    }
}

impl Transport<MemoryKey> for MockTransport {
    fn put_register(
        &mut self,
        scope_id: &str,
        registration_id: &str,
        registration: &DeviceRegistration,
        token_source: Option<&DpsTokenSource<MemoryKey>>,
    ) -> Scripted {
        assert!(registration.registration_id().is_some());
        assert!(registration.tpm().is_some());
        self.scopes_seen.push(scope_id.to_string());
        self.registration_ids_seen.push(registration_id.to_string());
        self.put_tokens.push(token_source.map(|ts| ts.get(1_000_000).0.unwrap()));
        let response = self.put_responses.remove(0);
        self.puts += 1;
        response
    }

    fn get_status(
        &mut self,
        scope_id: &str,
        registration_id: &str,
        operation_id: &str,
        token_source: &DpsTokenSource<MemoryKey>,
    ) -> Scripted {
        self.scopes_seen.push(scope_id.to_string());
        self.registration_ids_seen.push(registration_id.to_string());
        self.operation_ids_seen.push(operation_id.to_string());
        let _token = token_source.get(1_000_000).0.unwrap();
        let response = self.get_responses.remove(0);
        self.gets += 1;
        response
    }
}

struct MockTimer {
    ticks: usize,
    fail_on_tick: Option<usize>,
}

impl MockTimer {
    fn new() -> Self {
        MockTimer { ticks: 0, fail_on_tick: None }
    }

    fn failing_on(tick: usize) -> Self {
        MockTimer { ticks: 0, fail_on_tick: Some(tick) }
    }
}

impl PollTimer for MockTimer {
    fn wait_tick(&mut self, _interval_secs: u64) -> bool {
        self.ticks += 1;
        match self.fail_on_tick {
            Some(n) => self.ticks < n,
            None => true,
        }
    }
}

type Client = DpsClient<MemoryKey, MemoryKeyStore, MockTransport, MockTimer>;

fn challenge_body(key: &str) -> String {
    format!("{{\"authenticationKey\":\"{}\"}}", key)
}

fn vanilla_status(operation_id: &str) -> Scripted {
    Ok(Some(RegistrationOperationStatus::new(operation_id.to_string())))
}

fn bytes(s: &str) -> Vec<u8> {
    s.as_bytes().to_vec()
}

#[test]
fn server_register_with_auth_success() {
    let mut transport = MockTransport::new(
        vec![
            Err(TransportFailure::Status(401, challenge_body(&base64::encode("key")))),
            Ok(Some(
                RegistrationOperationStatus::new("something".to_string())
                    .with_status("assigning".to_string()),
            )),
        ],
        vec![],
    );
    let mut key_store = MemoryKeyStore::new();
    let (result, _) = Client::register_with_auth(
        &mut transport,
        "scope".to_string(),
        "reg".to_string(),
        &bytes("ek"),
        &bytes("srk"),
        &mut key_store,
    );
    match result.unwrap() {
        Some(op) => {
            assert_eq!(op.operation_id().as_str(), "something");
            assert_eq!(op.status().unwrap().as_str(), "assigning");
        }
        None => panic!("Unexpected"),
    }
    // the unsigned attempt carried no token, the reissue carried one
    assert_eq!(transport.put_tokens.len(), 2);
    assert!(transport.put_tokens[0].is_none());
    assert!(transport.put_tokens[1].is_some());
    // the challenge key was base64-decoded before activation
    assert_eq!(key_store.bytes_of("primary").unwrap(), bytes("key"));
}

#[test]
fn server_register_gets_404_fails() {
    let transport = MockTransport::new(
        vec![Err(TransportFailure::Status(404, String::new()))],
        vec![],
    );
    let mut dps = Client::new(
        transport,
        MockTimer::new(),
        "scope".to_string(),
        "test".to_string(),
        bytes("ek"),
        bytes("srk"),
        MemoryKeyStore::new(),
    )
    .unwrap();
    match dps.register().0 {
        Ok(_) => panic!("Excepted err got success"),
        Err(err) => {
            if !matches!(err.kind(), ErrorKind::TransportError { .. }) {
                panic!("Wrong error kind. Expected `Http` found {:?}", err);
            }
        }
    }
    // no second attempt was made
    assert_eq!(dps.transport.puts, 1);
}

#[test]
fn server_register_with_auth_gets_404_fails() {
    let transport = MockTransport::new(
        vec![
            Err(TransportFailure::Status(401, challenge_body("key"))),
            Err(TransportFailure::Status(404, String::new())),
        ],
        vec![],
    );
    let mut dps = Client::new(
        transport,
        MockTimer::new(),
        "scope".to_string(),
        "test".to_string(),
        bytes("ek"),
        bytes("srk"),
        MemoryKeyStore::new(),
    )
    .unwrap();
    match dps.register().0 {
        Ok(_) => panic!("Excepted err got success"),
        Err(err) => {
            if !matches!(err.kind(), ErrorKind::TransportError { .. }) {
                panic!("Wrong error kind. Expected `Http` found {:?}", err);
            }
        }
    }
    assert_eq!(dps.transport.puts, 2);
}

#[test]
fn get_device_registration_result_success() {
    let mut transport = MockTransport::new(
        vec![],
        vec![
            vanilla_status("operation"),
            Ok(Some(
                RegistrationOperationStatus::new("operation".to_string())
                    .with_registration_state(DeviceRegistrationResult::new(
                        "reg".to_string(),
                        "doesn't matter".to_string(),
                    )),
            )),
            Err(TransportFailure::Connection("not reached".to_string())),
        ],
    );
    let mut timer = MockTimer::new();
    let key = MemoryKey { bytes: bytes("key") };
    let (result, _) = Client::get_device_registration_result(
        &mut transport,
        &mut timer,
        "scope_id",
        "reg",
        "operation",
        key,
        3,
    );
    match result.unwrap() {
        Some(r) => assert_eq!(r.registration_id().as_str(), "reg"),
        None => panic!("Expected registration id"),
    }
    // the first non-skippable result stopped the poll: two probes, not three
    assert_eq!(transport.gets, 2);
}

#[test]
fn get_device_registration_result_on_all_attempts_returns_none() {
    let mut transport = MockTransport::new(
        vec![],
        vec![
            vanilla_status("operation"),
            vanilla_status("operation"),
            vanilla_status("operation"),
        ],
    );
    let mut timer = MockTimer::new();
    let key = MemoryKey { bytes: bytes("key") };
    let (result, _) = Client::get_device_registration_result(
        &mut transport,
        &mut timer,
        "scope_id",
        "reg",
        "operation",
        key,
        3,
    );
    match result.unwrap() {
        Some(_) => panic!("Shouldn't have passed because every attempt failed"),
        None => assert_eq!(true, true),
    }
    // the budget was used exactly: three probes, no fourth
    assert_eq!(transport.gets, 3);
    assert_eq!(timer.ticks, 2);
}

#[test]
fn get_operation_status_success() {
    let mut transport = MockTransport::new(
        vec![],
        vec![Ok(Some(
            RegistrationOperationStatus::new("operation".to_string()).with_registration_state(
                DeviceRegistrationResult::new("reg".to_string(), "doesn't matter".to_string()),
            ),
        ))],
    );
    let key = MemoryKey { bytes: bytes("key") };
    let (result, _) =
        Client::get_operation_status(&mut transport, "scope_id", "reg", "operation", key);
    match result.unwrap() {
        Some(op) => assert_eq!(op.registration_id().as_str(), "reg"),
        None => panic!("Unexpected"),
    }
    assert_eq!(transport.operation_ids_seen, vec!["operation".to_string()]);
    assert_eq!(transport.scopes_seen, vec!["scope_id".to_string()]);
}

#[test]
fn get_operation_status_gets_404_fails() {
    let mut transport = MockTransport::new(
        vec![],
        vec![Err(TransportFailure::Status(404, String::new()))],
    );
    let key = MemoryKey { bytes: bytes("key") };
    let (result, _) =
        Client::get_operation_status(&mut transport, "scope_id", "reg", "operation", key);
    match result {
        Ok(_) => panic!("Excepted err got success"),
        Err(err) => {
            if !matches!(err.kind(), ErrorKind::TransportError { .. }) {
                panic!("Wrong error kind. Expected `Http` found {:?}", err);
            }
        }
    }
}

#[test]
fn get_device_info_success() {
    assert_eq!(
        get_device_info(
            &DeviceRegistrationResult::new("reg".to_string(), "assigned".to_string())
                .with_device_id("device".to_string())
                .with_assigned_hub("hub".to_string())
        )
        .unwrap(),
        ("device".to_string(), "hub".to_string())
    )
}

#[test]
fn get_device_info_missing_fields_not_assigned() {
    let no_device = DeviceRegistrationResult::new("reg".to_string(), "assigned".to_string())
        .with_assigned_hub("hub".to_string());
    assert!(matches!(
        get_device_info(&no_device).unwrap_err().kind(),
        ErrorKind::NotAssigned
    ));
    let no_hub = DeviceRegistrationResult::new("reg".to_string(), "assigned".to_string())
        .with_device_id("device".to_string());
    assert!(matches!(
        get_device_info(&no_hub).unwrap_err().kind(),
        ErrorKind::NotAssigned
    ));
}

#[test]
fn skippable_predicate_cases() {
    assert_eq!(is_skippable_result(&None).unwrap(), true);
    let with_status = |status: &str| {
        Some(DeviceRegistrationResult::new("reg".to_string(), status.to_string()))
    };
    assert_eq!(is_skippable_result(&with_status("assigning")).unwrap(), true);
    assert_eq!(is_skippable_result(&with_status("ASSIGNING")).unwrap(), true);
    assert_eq!(is_skippable_result(&with_status("AsSiGnInG")).unwrap(), true);
    assert_eq!(is_skippable_result(&with_status("assigned")).unwrap(), false);
    assert_eq!(is_skippable_result(&with_status("failed")).unwrap(), false);
    assert_eq!(is_skippable_result(&with_status("")).unwrap(), false);
}

fn full_happy_transport() -> MockTransport {
    let terminal = RegistrationOperationStatus::new("something".to_string())
        .with_registration_state({
            let mut tpm = TpmRegistrationResult::new();
            tpm.set_authentication_key(base64::encode("finalkey"));
            DeviceRegistrationResult::new("reg".to_string(), "assigned".to_string())
                .with_device_id("device".to_string())
                .with_assigned_hub("hub".to_string())
                .with_tpm(tpm)
        });
    MockTransport::new(
        vec![
            Err(TransportFailure::Status(401, challenge_body(&base64::encode("key")))),
            Ok(Some(
                RegistrationOperationStatus::new("something".to_string())
                    .with_status("assigning".to_string()),
            )),
        ],
        vec![Ok(Some(terminal))],
    )
}

#[test]
fn register_full_happy_path() {
    let mut dps = Client::new(
        full_happy_transport(),
        MockTimer::new(),
        "scope".to_string(),
        "reg".to_string(),
        bytes("ek"),
        bytes("srk"),
        MemoryKeyStore::new(),
    )
    .unwrap();
    let (device, hub) = dps.register().0.unwrap();
    assert_eq!(device, "device");
    assert_eq!(hub, "hub");
    assert_eq!(dps.transport.puts, 2);
    assert_eq!(dps.transport.gets, 1);
    // the final credential, decoded, superseded the challenge key
    assert_eq!(dps.key_store.bytes_of("primary").unwrap(), bytes("finalkey"));
}

#[test]
fn register_challenge_body_missing_key_fails() {
    let transport = MockTransport::new(
        vec![Err(TransportFailure::Status(401, "{}".to_string()))],
        vec![],
    );
    let mut dps = Client::new(
        transport,
        MockTimer::new(),
        "scope".to_string(),
        "reg".to_string(),
        bytes("ek"),
        bytes("srk"),
        MemoryKeyStore::new(),
    )
    .unwrap();
    let err = dps.register().0.unwrap_err();
    assert!(matches!(err.kind(), ErrorKind::InvalidTpmToken));
    // no reissue was attempted
    assert_eq!(dps.transport.puts, 1);
}

#[test]
fn register_challenge_body_not_json_fails() {
    let transport = MockTransport::new(
        vec![Err(TransportFailure::Status(401, "not json".to_string()))],
        vec![],
    );
    let mut dps = Client::new(
        transport,
        MockTimer::new(),
        "scope".to_string(),
        "reg".to_string(),
        bytes("ek"),
        bytes("srk"),
        MemoryKeyStore::new(),
    )
    .unwrap();
    let err = dps.register().0.unwrap_err();
    assert!(matches!(err.kind(), ErrorKind::SerializationError));
}

#[test]
fn register_challenge_key_null_fails_as_invalid_token() {
    let transport = MockTransport::new(
        vec![Err(TransportFailure::Status(401, "{\"authenticationKey\":null}".to_string()))],
        vec![],
    );
    let mut dps = Client::new(
        transport,
        MockTimer::new(),
        "scope".to_string(),
        "reg".to_string(),
        bytes("ek"),
        bytes("srk"),
        MemoryKeyStore::new(),
    )
    .unwrap();
    let err = dps.register().0.unwrap_err();
    assert!(matches!(err.kind(), ErrorKind::InvalidTpmToken));
    assert_eq!(dps.transport.puts, 1);
    assert!(dps.key_store.bytes_of("primary").is_none());
}

#[test]
fn register_challenge_key_non_string_fails_as_serialization_error() {
    let transport = MockTransport::new(
        vec![Err(TransportFailure::Status(401, "{\"authenticationKey\":5}".to_string()))],
        vec![],
    );
    let mut dps = Client::new(
        transport,
        MockTimer::new(),
        "scope".to_string(),
        "reg".to_string(),
        bytes("ek"),
        bytes("srk"),
        MemoryKeyStore::new(),
    )
    .unwrap();
    let err = dps.register().0.unwrap_err();
    assert!(matches!(err.kind(), ErrorKind::SerializationError));
    assert_eq!(dps.transport.puts, 1);
}

#[test]
fn register_challenge_key_bad_base64_fails_as_invalid_token() {
    let transport = MockTransport::new(
        vec![Err(TransportFailure::Status(401, challenge_body("!!!")))],
        vec![],
    );
    let mut dps = Client::new(
        transport,
        MockTimer::new(),
        "scope".to_string(),
        "reg".to_string(),
        bytes("ek"),
        bytes("srk"),
        MemoryKeyStore::new(),
    )
    .unwrap();
    let err = dps.register().0.unwrap_err();
    assert!(matches!(err.kind(), ErrorKind::InvalidTpmToken));
    assert_eq!(dps.transport.puts, 1);
    assert!(dps.key_store.bytes_of("primary").is_none());
}

#[test]
fn register_unsigned_success_is_protocol_violation() {
    let transport = MockTransport::new(vec![vanilla_status("op")], vec![]);
    let mut dps = Client::new(
        transport,
        MockTimer::new(),
        "scope".to_string(),
        "reg".to_string(),
        bytes("ek"),
        bytes("srk"),
        MemoryKeyStore::new(),
    )
    .unwrap();
    let err = dps.register().0.unwrap_err();
    assert!(matches!(err.kind(), ErrorKind::Unexpected));
}

#[test]
fn register_poll_transport_failure_aborts() {
    let mut get_responses = vec![vanilla_status("something")];
    get_responses.push(Err(TransportFailure::Status(500, "boom".to_string())));
    get_responses.push(vanilla_status("something"));
    let transport = MockTransport::new(
        vec![
            Err(TransportFailure::Status(401, challenge_body(&base64::encode("key")))),
            Ok(Some(RegistrationOperationStatus::new("something".to_string()))),
        ],
        get_responses,
    );
    let mut dps = Client::new(
        transport,
        MockTimer::new(),
        "scope".to_string(),
        "reg".to_string(),
        bytes("ek"),
        bytes("srk"),
        MemoryKeyStore::new(),
    )
    .unwrap();
    let err = dps.register().0.unwrap_err();
    match err.kind() {
        ErrorKind::TransportError { status, body } => {
            assert_eq!(*status, Some(500));
            assert_eq!(body.as_deref(), Some("boom"));
        }
        other => panic!("wrong kind {:?}", other),
    }
    // the failing probe ended the poll at once
    assert_eq!(dps.transport.gets, 2);
}

#[test]
fn register_poll_timer_failure_aborts() {
    let transport = MockTransport::new(
        vec![
            Err(TransportFailure::Status(401, challenge_body(&base64::encode("key")))),
            Ok(Some(RegistrationOperationStatus::new("something".to_string()))),
        ],
        vec![vanilla_status("something")],
    );
    let mut dps = Client::new(
        transport,
        MockTimer::failing_on(1),
        "scope".to_string(),
        "reg".to_string(),
        bytes("ek"),
        bytes("srk"),
        MemoryKeyStore::new(),
    )
    .unwrap();
    let err = dps.register().0.unwrap_err();
    assert!(matches!(err.kind(), ErrorKind::TimerError));
    assert_eq!(dps.transport.gets, 1);
}

#[test]
fn register_poll_exhaustion_is_not_assigned() {
    let mut get_responses = Vec::new();
    for _ in 0..13 {
        get_responses.push(vanilla_status("something"));
    }
    let transport = MockTransport::new(
        vec![
            Err(TransportFailure::Status(401, challenge_body(&base64::encode("key")))),
            Ok(Some(RegistrationOperationStatus::new("something".to_string()))),
        ],
        get_responses,
    );
    let mut dps = Client::new(
        transport,
        MockTimer::new(),
        "scope".to_string(),
        "reg".to_string(),
        bytes("ek"),
        bytes("srk"),
        MemoryKeyStore::new(),
    )
    .unwrap();
    let err = dps.register().0.unwrap_err();
    assert!(matches!(err.kind(), ErrorKind::NotAssigned));
    // ceil(120 / 10) + 1 probes, then the poll gave up
    assert_eq!(dps.transport.gets, 13);
    assert_eq!(dps.timer.ticks, 12);
}

#[test]
fn register_terminal_without_credential_is_not_assigned() {
    let terminal = RegistrationOperationStatus::new("something".to_string())
        .with_registration_state(
            DeviceRegistrationResult::new("reg".to_string(), "assigned".to_string())
                .with_device_id("device".to_string())
                .with_assigned_hub("hub".to_string()),
        );
    let transport = MockTransport::new(
        vec![
            Err(TransportFailure::Status(401, challenge_body(&base64::encode("key")))),
            Ok(Some(RegistrationOperationStatus::new("something".to_string()))),
        ],
        vec![Ok(Some(terminal))],
    );
    let mut dps = Client::new(
        transport,
        MockTimer::new(),
        "scope".to_string(),
        "reg".to_string(),
        bytes("ek"),
        bytes("srk"),
        MemoryKeyStore::new(),
    )
    .unwrap();
    let err = dps.register().0.unwrap_err();
    assert!(matches!(err.kind(), ErrorKind::NotAssigned));
}

#[test]
fn register_key_store_failure_surfaces_as_key_store_error() {
    let mut transport = MockTransport::new(
        vec![Err(TransportFailure::Status(401, challenge_body(&base64::encode("key"))))],
        vec![],
    );
    let mut key_store = BrokenKeyStore;
    let (result, _) = DpsClient::<MemoryKey, BrokenKeyStore, MockTransport, MockTimer>::register_with_auth(
        &mut transport,
        "scope".to_string(),
        "reg".to_string(),
        &bytes("ek"),
        &bytes("srk"),
        &mut key_store,
    );
    assert!(matches!(result.unwrap_err().kind(), ErrorKind::KeyStoreError));
    assert_eq!(transport.puts, 1);
}

#[test]
fn register_challenge_key_with_extra_fields_still_found() {
    let body = format!(
        "{{\"other\":[1,2],\"authenticationKey\":\"{}\"}}",
        base64::encode("key")
    );
    let mut transport = MockTransport::new(
        vec![
            Err(TransportFailure::Status(401, body)),
            Ok(Some(RegistrationOperationStatus::new("op".to_string()))),
        ],
        vec![],
    );
    let mut key_store = MemoryKeyStore::new();
    let (result, _) = Client::register_with_auth(
        &mut transport,
        "scope".to_string(),
        "reg".to_string(),
        &bytes("ek"),
        &bytes("srk"),
        &mut key_store,
    );
    assert!(result.is_ok());
    assert_eq!(key_store.bytes_of("primary").unwrap(), bytes("key"));
}
