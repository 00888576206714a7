use crate::error::{CbdError, ErrorKind};
use crate::sniff::{base64_encode, base64_encoded, resolve_binary, resolved};
use crate::text::{lemma_trailing_white_space_ignored, is_white_space, trim_of, trimmed};
use vstd::prelude::*;
use vstd::string::StrSliceExecFns;
use vstd::utf8::encode_utf8;

verus! {

#[verifier::external_type_specification]
#[verifier::external_body]
pub struct ExCborValue(ciborium::Value);

#[verifier::external_type_specification]
#[verifier::external_body]
pub struct ExJsonValue(serde_json::Value);

/// The CBOR item that ciborium reads from the start of `b`, if it reads one.
pub uninterp spec fn cbor_item(b: Seq<u8>) -> Option<ciborium::Value>;

/// The JSON text that serde_json writes for the CBOR value `v`, if it can.
pub uninterp spec fn json_rendering(v: ciborium::Value) -> Option<Seq<char>>;

/// The JSON value that serde_json parses from `s`, if `s` is JSON.
pub uninterp spec fn json_item(s: Seq<char>) -> Option<serde_json::Value>;

/// The CBOR bytes that ciborium writes for the JSON value `v`.
pub uninterp spec fn cbor_encoding(v: serde_json::Value) -> Seq<u8>;

/// Relies on `ciborium::from_reader` into `ciborium::Value`: one item read from
/// the front of `b`; the empty input has none (the reader hits its end).
#[verifier::external_body]
fn read_cbor(b: &[u8]) -> (r: Result<ciborium::Value, String>)
    ensures
        match r {
            Ok(v) => cbor_item(b@) == Some(v),
            Err(_) => cbor_item(b@) is None,
        },
        b@.len() == 0 ==> r is Err,
{
    ciborium::from_reader(b).map_err(|e| e.to_string())
}

/// Relies on `serde_json::to_string` of a `ciborium::Value`; it fails where a
/// map key has no string form.
#[verifier::external_body]
fn write_json(v: &ciborium::Value) -> (r: Result<String, String>)
    ensures
        match r {
            Ok(t) => json_rendering(*v) == Some(t@),
            Err(_) => json_rendering(*v) is None,
        },
{
    serde_json::to_string(v).map_err(|e| e.to_string())
}

/// Relies on `serde_json::from_str` into `serde_json::Value`.
#[verifier::external_body]
fn read_json(s: &str) -> (r: Result<serde_json::Value, String>)
    ensures
        match r {
            Ok(v) => json_item(s@) == Some(v),
            Err(_) => json_item(s@) is None,
        },
{
    serde_json::from_str(s).map_err(|e| e.to_string())
}

/// Relies on `ciborium::into_writer` of a `serde_json::Value` into a `Vec`.
/// It cannot fail there: the serializer fails only when its writer does or on
/// a tag, and a `serde_json::Value` has no tags while a `Vec` accepts every
/// write. A `Vec` never holds more than `isize::MAX` bytes.
#[verifier::external_body]
fn write_cbor(v: &serde_json::Value) -> (r: Vec<u8>)
    ensures
        r@ == cbor_encoding(*v),
        r@.len() <= isize::MAX,
{
    let mut out = Vec::new();
    ciborium::into_writer(v, &mut out).expect("writing into a Vec does not fail");
    out
}

/// What converting the CBOR bytes `b` to JSON text gives.
pub open spec fn cbor_to_json(b: Seq<u8>) -> Result<Seq<char>, ErrorKind> {
    match cbor_item(b) {
        None => Err(ErrorKind::BinaryMalformed),
        Some(v) => match json_rendering(v) {
            Some(t) => Ok(t),
            None => Err(ErrorKind::UnrepresentableValue),
        },
    }
}

/// What decoding `input` (base64 text or raw CBOR) to JSON text gives.
pub open spec fn decoded(input: Seq<u8>) -> Result<Seq<char>, ErrorKind> {
    cbor_to_json(resolved(input))
}

/// What converting the JSON text `s` to CBOR bytes gives.
pub open spec fn json_to_cbor(s: Seq<char>) -> Result<Seq<u8>, ErrorKind> {
    match json_item(s) {
        None => Err(ErrorKind::TextMalformed),
        Some(v) => Ok(cbor_encoding(v)),
    }
}

/// What encoding the text `text` gives: the CBOR of its trimmed form, as the
/// UTF-8 bytes of its URL-safe unpadded base64 text where `base64` is set.
pub open spec fn encoded(text: Seq<char>, base64: bool) -> Result<Seq<u8>, ErrorKind> {
    match json_to_cbor(trimmed(text)) {
        Err(k) => Err(k),
        Ok(c) => Ok(
            if base64 {
                encode_utf8(base64_encoded(c))
            } else {
                c
            },
        ),
    }
}

/// Converts one CBOR item to JSON text.
pub fn try_cbor2json(cbor: &Vec<u8>) -> (r: Result<String, CbdError>)
    ensures
        match r {
            Ok(t) => cbor_to_json(cbor@) == Ok::<Seq<char>, ErrorKind>(t@),
            Err(e) => cbor_to_json(cbor@) == Err::<Seq<char>, ErrorKind>(e.kind) && e.cause is Some,
        },
        cbor@.len() == 0 ==> r is Err && r->Err_0.kind == ErrorKind::BinaryMalformed,
{
    let value = match read_cbor(cbor.as_slice()) {
        Ok(v) => v,
        Err(cause) => {
            return Err(CbdError::new(ErrorKind::BinaryMalformed, Some(cause)));
        },
    };
    match write_json(&value) {
        Ok(t) => Ok(t),
        Err(cause) => Err(CbdError::new(ErrorKind::UnrepresentableValue, Some(cause))),
    }
}

/// Decodes `input` to JSON text: base64-wrapped CBOR first, then raw CBOR.
pub fn decode(input: &Vec<u8>) -> (r: Result<String, CbdError>)
    ensures
        match r {
            Ok(t) => decoded(input@) == Ok::<Seq<char>, ErrorKind>(t@),
            Err(e) => decoded(input@) == Err::<Seq<char>, ErrorKind>(e.kind) && e.cause is Some,
        },
        input@.len() == 0 ==> r is Err && r->Err_0.kind == ErrorKind::BinaryMalformed,
{
    let cbor = resolve_binary(input);
    try_cbor2json(&cbor)
}

/// Converts JSON text to CBOR bytes.
pub fn json2cbor(json: &str) -> (r: Result<Vec<u8>, CbdError>)
    ensures
        match r {
            Ok(c) => json_to_cbor(json@) == Ok::<Seq<u8>, ErrorKind>(c@) && c@.len() <= isize::MAX,
            Err(e) => json_to_cbor(json@) == Err::<Seq<u8>, ErrorKind>(e.kind) && e.cause is Some,
        },
{
    match read_json(json) {
        Ok(v) => Ok(write_cbor(&v)),
        Err(cause) => Err(CbdError::new(ErrorKind::TextMalformed, Some(cause))),
    }
}

/// Encodes JSON text, trimmed of surrounding white space, to CBOR bytes, or
/// to the bytes of their URL-safe unpadded base64 text where `base64` is set.
pub fn encode(text: &str, base64: bool) -> (r: Result<Vec<u8>, CbdError>)
    ensures
        match r {
            Ok(b) => encoded(text@, base64) == Ok::<Seq<u8>, ErrorKind>(b@),
            Err(e) => encoded(text@, base64) == Err::<Seq<u8>, ErrorKind>(e.kind) && e.cause is Some,
        },
{
    let cbor = json2cbor(trim_of(text))?;
    if base64 {
        let wrapped = base64_encode(cbor.as_slice());
        Ok(wrapped.as_str().as_bytes_vec())
    } else {
        Ok(cbor)
    }
}

/// White space after the text does not change what encoding gives.
pub proof fn lemma_trailing_white_space_encodes_alike(t: Seq<char>, w: Seq<char>, base64: bool)
    requires
        forall|i: int| 0 <= i < w.len() ==> is_white_space(#[trigger] w[i]),
    ensures
        encoded(t + w, base64) == encoded(t, base64),
{
    lemma_trailing_white_space_ignored(t, w);
}

/// Both conversions are functions of their input alone: equal inputs give
/// equal results.
pub proof fn lemma_conversions_deterministic(
    a: Seq<u8>,
    b: Seq<u8>,
    s: Seq<char>,
    t: Seq<char>,
    base64: bool,
)
    requires
        a == b,
        s == t,
    ensures
        decoded(a) == decoded(b),
        encoded(s, base64) == encoded(t, base64),
{
}

} // verus!
