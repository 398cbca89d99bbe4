//! The byte encoders, held byte by byte against the reference crates.

use dps::encode::{form_urlencode, i64_to_decimal, percent_encode_audience};
use dps::registration::decode_challenge_key;
use dps::strutil::str_eq_ignore_ascii_case;

#[test]
fn percent_encoding_matches_reference_set() {
    for b in 0..=255u8 {
        let ours = String::from_utf8(percent_encode_audience(&vec![b])).unwrap();
        let expected = if b == b'=' {
            "%3D".to_string()
        } else {
            percent_encoding::percent_encode(
                &[b],
                percent_encoding::PATH_SEGMENT_ENCODE_SET,
            )
            .to_string()
        };
        assert_eq!(ours, expected, "byte {:#x}", b);
    }
}

#[test]
fn form_urlencoding_matches_reference() {
    for b in 0..=255u8 {
        let ours = String::from_utf8(form_urlencode(&vec![b])).unwrap();
        let expected: String = form_urlencoded::byte_serialize(&[b]).collect();
        assert_eq!(ours, expected, "byte {:#x}", b);
    }
    let mixed = b"a b*c-d.e_f/g=h&i%j\xFF".to_vec();
    let ours = String::from_utf8(form_urlencode(&mixed)).unwrap();
    let expected: String = form_urlencoded::byte_serialize(&mixed).collect();
    assert_eq!(ours, expected);
}

#[test]
fn decimal_rendering_matches_to_string() {
    let cases: Vec<i64> = vec![
        0,
        7,
        10,
        1_234_567_890,
        -1,
        -42,
        i64::MAX,
        i64::MIN,
    ];
    for n in cases {
        let ours = String::from_utf8(i64_to_decimal(n)).unwrap();
        assert_eq!(ours, n.to_string(), "value {}", n);
    }
}

#[test]
fn case_insensitive_comparison_matches_std() {
    let cases: Vec<(&str, &str)> = vec![
        ("assigning", "ASSIGNING"),
        ("assigning", "AsSiGnInG"),
        ("assigning", "assigned"),
        ("", ""),
        ("a", ""),
        ("Straße", "STRASSE"),
        ("Straße", "STRAßE"),
        ("mixed123", "MIXED123"),
    ];
    for (a, b) in cases {
        assert_eq!(
            str_eq_ignore_ascii_case(a, b),
            a.eq_ignore_ascii_case(b),
            "{:?} vs {:?}",
            a,
            b
        );
    }
}

#[test]
fn challenge_key_decoding_round_trips() {
    let encoded = base64::encode("a raw key");
    let decoded = decode_challenge_key(&encoded).unwrap();
    assert_eq!(decoded, b"a raw key".to_vec());
    // tolerates absent padding, as the wire sometimes carries it
    assert_eq!(decode_challenge_key("key").unwrap().len(), 2);
    assert!(decode_challenge_key("!!!").is_err());
}
