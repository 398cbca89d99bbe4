//! Token generation, held against the reference URL encoders.

use dps::error::{ErrorKind, SigningFailure};
use dps::token::{DpsTokenSource, SignKey};

#[derive(Clone)]
struct MemoryKey {
    bytes: Vec<u8>,
}

impl SignKey for MemoryKey {
    fn sign(&self, data: &[u8]) -> Result<Vec<u8>, SigningFailure> {
        let mut v = self.bytes.clone();
        v.extend_from_slice(data);
        Ok(v)
    }
}

#[derive(Clone)]
struct BrokenKey;

impl SignKey for BrokenKey {
    fn sign(&self, _data: &[u8]) -> Result<Vec<u8>, SigningFailure> {
        Err(SigningFailure)
    }
}

/// The token built the reference way: percent-encode the lowercased
/// audience with the path-segment set plus `=`, sign
/// `"{resourceUri}\n{expiry}"`, and assemble the pairs with a
/// form-urlencoded serializer.
fn reference_token(key: &MemoryKey, scope_id: &str, registration_id: &str, expiry: i64) -> String {
    let audience = format!("{}/registrations/{}", scope_id, registration_id).to_lowercase();
    let resource_uri = percent_encoding::percent_encode(
        audience.as_bytes(),
        percent_encoding::PATH_SEGMENT_ENCODE_SET,
    )
    .to_string()
    .replace('=', "%3D");
    let expiry = expiry.to_string();
    let sig_data = format!("{}\n{}", &resource_uri, expiry);
    let signature = base64::encode(&key.sign(sig_data.as_bytes()).unwrap());
    form_urlencoded::Serializer::new(format!("sr={}", resource_uri))
        .append_pair("sig", &signature)
        .append_pair("se", &expiry)
        .append_pair("skn", "registration")
        .finish()
}

#[test]
fn token_matches_reference_encoders() {
    let key = MemoryKey { bytes: b"secret".to_vec() };
    let cases: Vec<(&str, &str, i64)> = vec![
        ("scope", "reg", 1),
        ("MyScope", "Reg-01", 1_234_567_890),
        ("A Scope=Zero/One", "r?e{g}#x", 0),
        ("scope", "reg", -42),
        ("0123456789", "registration", 9_999_999_999),
    ];
    for (scope, reg, expiry) in cases {
        let source = DpsTokenSource::new(scope.to_string(), reg.to_string(), key.clone());
        let token = source.get(expiry).0.unwrap();
        let expected = reference_token(&key, scope, reg, expiry);
        assert_eq!(token, expected, "scope {:?} reg {:?} expiry {}", scope, reg, expiry);
    }
}

#[test]
fn token_generation_is_deterministic() {
    let key = MemoryKey { bytes: b"secret".to_vec() };
    let source = DpsTokenSource::new("Scope".to_string(), "Reg".to_string(), key.clone());
    let again = DpsTokenSource::new("Scope".to_string(), "Reg".to_string(), key);
    let first = source.get(777).0.unwrap();
    let second = source.get(777).0.unwrap();
    let third = again.get(777).0.unwrap();
    assert_eq!(first, second);
    assert_eq!(first, third);
}

#[test]
fn token_lowercases_audience() {
    let key = MemoryKey { bytes: b"k".to_vec() };
    let upper = DpsTokenSource::new("SCOPE".to_string(), "REG".to_string(), key.clone());
    let lower = DpsTokenSource::new("scope".to_string(), "reg".to_string(), key);
    assert_eq!(upper.get(5).0.unwrap(), lower.get(5).0.unwrap());
    assert!(upper.get(5).0.unwrap().starts_with("sr=scope%2Fregistrations%2Freg&sig="));
}

#[test]
fn token_uses_only_allowed_characters() {
    let key = MemoryKey { bytes: b"\x00\x01\xFEbinary".to_vec() };
    let source = DpsTokenSource::new(
        "A Scope=Zero/One \u{00E9}".to_string(),
        "r?e{g}#x".to_string(),
        key,
    );
    let token = source.get(123).0.unwrap();
    let escaped = |b: u8| -> bool {
        b < 0x20
            || b > 0x7E
            || matches!(b, b' ' | b'"' | b'#' | b'<' | b'>' | b'`' | b'?' | b'{' | b'}' | b'%' | b'/' | b'=')
    };
    for b in token.bytes() {
        assert!(
            !escaped(b) || b == b'%' || b == b'=',
            "byte {:#x} escaped the token's character set",
            b
        );
    }
}

#[test]
fn token_signing_failure_surfaces_as_signing_error() {
    let source = DpsTokenSource::new("scope".to_string(), "reg".to_string(), BrokenKey);
    let err = source.get(1).0.unwrap_err();
    assert!(matches!(err.kind(), ErrorKind::SigningError));
}
