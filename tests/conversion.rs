use base64::engine::general_purpose;
use base64::Engine;
use cbd::bridge::{decode, encode, json2cbor, try_cbor2json};
use cbd::error::ErrorKind;
use cbd::sniff::{base64_encode, resolve_binary, try_base64_decode};

const JSON_IN: &str = r#"[{"key1":"value1","key2":"value2"},{"foo":"bar"},true,false,0,1.0]"#;

#[test]
fn test_cbor2json() {
    let cbor = vec![161, 97, 107, 97, 118];
    let json = try_cbor2json(&cbor).unwrap();
    assert_eq!(json, r#"{"k":"v"}"#);
}

#[test]
fn test_json2cbor() {
    let json = r#"{"k":"v"}"#;
    let cbor = json2cbor(json).unwrap();
    assert_eq!(cbor, vec![161, 97, 107, 97, 118]);
}

#[test]
fn test_decode_cbor() {
    let cbor = json2cbor(JSON_IN).unwrap();
    let json = decode(&cbor).unwrap();
    assert_eq!(json, JSON_IN);
}

#[test]
fn test_decode_base64_standard() {
    let base64 = general_purpose::STANDARD.encode(json2cbor(JSON_IN).unwrap());
    let bytes = base64.as_bytes().to_vec();
    let json_out = decode(&bytes).unwrap();
    assert_eq!(JSON_IN, json_out);
}

#[test]
fn test_decode_base64_standard_no_pad() {
    let base64 = general_purpose::STANDARD_NO_PAD.encode(json2cbor(JSON_IN).unwrap());
    let bytes = base64.as_bytes().to_vec();
    let json_out = decode(&bytes).unwrap();
    assert_eq!(JSON_IN, json_out);
}

#[test]
fn test_decode_base64_url_safe() {
    let base64 = general_purpose::URL_SAFE.encode(json2cbor(JSON_IN).unwrap());
    let bytes = base64.as_bytes().to_vec();
    let json_out = decode(&bytes).unwrap();
    assert_eq!(JSON_IN, json_out);
}

#[test]
fn test_decode_base64_url_safe_no_pad() {
    let base64 = general_purpose::URL_SAFE_NO_PAD.encode(json2cbor(JSON_IN).unwrap());
    let bytes = base64.as_bytes().to_vec();
    let json_out = decode(&bytes).unwrap();
    assert_eq!(JSON_IN, json_out);
}

#[test]
fn encode_without_base64_gives_cbor() {
    assert_eq!(encode(r#"{"k":"v"}"#, false).unwrap(), vec![161, 97, 107, 97, 118]);
}

#[test]
fn encode_ignores_surrounding_white_space() {
    let plain = encode(r#"{"k":"v"}"#, false).unwrap();
    assert_eq!(encode("{\"k\":\"v\"}\n", false).unwrap(), plain);
    assert_eq!(encode("  {\"k\":\"v\"} \t\r\n", false).unwrap(), plain);
    assert_eq!(encode("{\"k\":\"v\"}\n", true).unwrap(), encode(r#"{"k":"v"}"#, true).unwrap());
}

#[test]
fn encode_with_base64_gives_url_safe_text() {
    let out = encode(r#"{"k":"v"}"#, true).unwrap();
    assert_eq!(out, b"oWFrYXY".to_vec());
    assert_eq!(decode(&out).unwrap(), r#"{"k":"v"}"#);
}

#[test]
fn text_round_trip_keeps_scenario_text() {
    let cbor = encode(JSON_IN, false).unwrap();
    assert_eq!(decode(&cbor).unwrap(), JSON_IN);
    let wrapped = encode(JSON_IN, true).unwrap();
    assert_eq!(decode(&wrapped).unwrap(), JSON_IN);
}

#[test]
fn binary_round_trip_keeps_bytes() {
    let cases: Vec<Vec<u8>> = vec![
        vec![161, 97, 107, 97, 118],
        vec![0x83, 0x01, 0x20, 0xf6],
        vec![0x1b, 0xff, 0xff, 0xff, 0xff, 0xff, 0xff, 0xff, 0xff],
    ];
    for cbor in cases {
        let text = decode(&cbor).unwrap();
        assert_eq!(encode(&text, false).unwrap(), cbor);
    }
}

#[test]
fn large_integer_renders_as_bare_numeral() {
    let cbor = vec![0x1b, 0xff, 0xff, 0xff, 0xff, 0xff, 0xff, 0xff, 0xff];
    assert_eq!(decode(&cbor).unwrap(), "18446744073709551615");
}

#[test]
fn scalar_map_key_is_coerced_to_text() {
    let cbor = vec![0xa1, 0x05, 0x61, 0x76];
    assert_eq!(decode(&cbor).unwrap(), r#"{"5":"v"}"#);
}

#[test]
fn array_map_key_is_unrepresentable() {
    let cbor = vec![0xa1, 0x81, 0x01, 0x01];
    let err = decode(&cbor).unwrap_err();
    assert_eq!(err.kind(), ErrorKind::UnrepresentableValue);
    assert_eq!(err.describe(), "Failed to encode JSON");
    assert!(err.cause().is_some());
}

#[test]
fn empty_input_is_binary_malformed() {
    let err = decode(&Vec::new()).unwrap_err();
    assert_eq!(err.kind(), ErrorKind::BinaryMalformed);
    assert_eq!(err.describe(), "Failed to decode CBOR");
    assert!(err.cause().is_some());
}

#[test]
fn truncated_cbor_is_binary_malformed() {
    let err = try_cbor2json(&vec![161, 97, 107, 97]).unwrap_err();
    assert_eq!(err.kind(), ErrorKind::BinaryMalformed);
}

#[test]
fn malformed_json_is_text_malformed() {
    for text in [r#"{"k":"#, "[1,]", r#""open"#, ""] {
        let err = json2cbor(text).unwrap_err();
        assert_eq!(err.kind(), ErrorKind::TextMalformed);
        assert_eq!(err.describe(), "Failed to decode JSON");
        assert_eq!(encode(text, false).unwrap_err().kind(), ErrorKind::TextMalformed);
    }
}

#[test]
fn duplicate_json_key_keeps_last() {
    assert_eq!(json2cbor(r#"{"k":"x","k":"v"}"#).unwrap(), vec![161, 97, 107, 97, 118]);
}

#[test]
fn json_number_kinds() {
    assert_eq!(json2cbor("0").unwrap(), vec![0x00]);
    assert_eq!(json2cbor("-1").unwrap(), vec![0x20]);
    assert_eq!(decode(&json2cbor("1.5").unwrap()).unwrap(), "1.5");
    assert_eq!(decode(&json2cbor("1e2").unwrap()).unwrap(), "100.0");
}

#[test]
fn non_utf8_input_is_kept_as_binary() {
    let raw = vec![0xff, 0xa1, 0x00];
    assert_eq!(resolve_binary(&raw), raw);
    let err = try_base64_decode(&raw).unwrap_err();
    assert_eq!(err.kind(), ErrorKind::Utf8Invalid);
    assert_eq!(err.describe(), "Failed to decode input as utf8");
    assert!(err.cause().is_some());
}

#[test]
fn text_that_is_not_base64_is_kept_as_binary() {
    let raw = b"{not base64}".to_vec();
    assert_eq!(resolve_binary(&raw), raw);
    let err = try_base64_decode(&raw).unwrap_err();
    assert_eq!(err.kind(), ErrorKind::Base64Invalid);
    assert_eq!(err.describe(), "Failed to decode base64");
    assert!(err.cause().is_none());
}

#[test]
fn every_variant_is_detected() {
    let samples: Vec<Vec<u8>> = vec![vec![], vec![0], vec![0xfb], vec![0xfb, 0xff], vec![1, 2, 3, 4, 5]];
    for b in samples {
        let texts = [
            general_purpose::URL_SAFE_NO_PAD.encode(&b),
            general_purpose::STANDARD.encode(&b),
            general_purpose::URL_SAFE.encode(&b),
            general_purpose::STANDARD_NO_PAD.encode(&b),
        ];
        for t in texts {
            assert_eq!(resolve_binary(&t.as_bytes().to_vec()), b);
            let mut with_newline = t.as_bytes().to_vec();
            with_newline.push(b'\n');
            assert_eq!(resolve_binary(&with_newline), b);
        }
    }
}

#[test]
fn first_variant_wins_on_ambiguous_text() {
    // "-w" decodes only under the URL-safe alphabet, "+w" only under the standard one.
    assert_eq!(resolve_binary(&b"-w".to_vec()), vec![0xfb]);
    assert_eq!(resolve_binary(&b"+w".to_vec()), vec![0xfb]);
    assert_eq!(try_base64_decode(&b"+w==".to_vec()).unwrap(), vec![0xfb]);
}

#[test]
fn base64_encode_is_url_safe_without_padding() {
    assert_eq!(base64_encode(&[0xfb]), "-w");
    assert_eq!(base64_encode(&[161, 97, 107, 97, 118]), "oWFrYXY");
    assert_eq!(base64_encode(&[]), "");
    let b = vec![0xfb, 0xff, 0x00, 0x10];
    assert_eq!(resolve_binary(&base64_encode(&b).as_bytes().to_vec()), b);
}

#[test]
fn decoding_is_deterministic() {
    let input = general_purpose::STANDARD.encode(json2cbor(JSON_IN).unwrap()).into_bytes();
    assert_eq!(decode(&input).unwrap(), decode(&input).unwrap());
    assert_eq!(encode(JSON_IN, true).unwrap(), encode(JSON_IN, true).unwrap());
}

#[test]
fn json_key_order_is_kept() {
    let text = r#"{"b":1,"a":2,"c":{"z":null,"y":[]}}"#;
    let cbor = json2cbor(text).unwrap();
    assert_eq!(&cbor[..7], &[0xa3, 0x61, 0x62, 0x01, 0x61, 0x61, 0x02]);
    assert_eq!(decode(&cbor).unwrap(), text);
}

#[test]
fn base64_encode_length_and_alphabet() {
    for n in 0..10usize {
        let b: Vec<u8> = (0..n).map(|i| (i as u8).wrapping_mul(97).wrapping_add(250)).collect();
        let t = base64_encode(&b);
        assert_eq!(t.len(), (4 * n + 2) / 3);
        assert!(!t.contains('='));
        assert!(t.chars().all(|c| c.is_ascii_alphanumeric() || c == '-' || c == '_'));
    }
}

#[test]
fn failures_carry_causes() {
    assert!(json2cbor("[1,]").unwrap_err().cause().is_some());
    assert!(encode("nope", true).unwrap_err().cause().is_some());
    assert!(try_cbor2json(&vec![0x61]).unwrap_err().cause().is_some());
    assert!(try_cbor2json(&vec![0x1c]).unwrap_err().cause().is_some());
    assert!(try_base64_decode(&vec![0xff, 0xfe]).unwrap_err().cause().is_some());
    assert!(try_base64_decode(&b"@@@".to_vec()).unwrap_err().cause().is_none());
}
