use crate::error::{CbdError, ErrorKind};
use crate::text::{trim_end_of, trimmed_end, utf8_of, is_white_space, lemma_trimmed_end_keeps};
use base64::engine::general_purpose;
use base64::Engine;
use vstd::prelude::*;
use vstd::slice::slice_to_vec;
use vstd::utf8::{decode_utf8, encode_utf8, encode_utf8_decode_utf8, encode_utf8_valid_utf8, valid_utf8};

verus! {

/// The base64 alphabet and padding conventions that detection tries.
#[derive(Clone, Copy, Debug, PartialEq, Eq, Structural)]
pub enum Base64Variant {
    /// URL-safe alphabet, no padding.
    UrlSafeNoPad,
    /// Standard alphabet, with padding.
    Standard,
    /// URL-safe alphabet, with padding.
    UrlSafe,
    /// Standard alphabet, no padding.
    StandardNoPad,
}

/// What the base64 engine for `v` decodes `text` to, if it accepts it.
pub uninterp spec fn base64_decoded(v: Base64Variant, text: Seq<char>) -> Option<Seq<u8>>;

/// What the URL-safe, unpadded base64 engine encodes `b` as.
pub uninterp spec fn base64_encoded(b: Seq<u8>) -> Seq<char>;

/// A symbol of the URL-safe base64 alphabet.
pub open spec fn is_url_safe_symbol(c: char) -> bool {
    ('A' <= c && c <= 'Z') || ('a' <= c && c <= 'z') || ('0' <= c && c <= '9') || c == '-'
        || c == '_'
}

/// Relies on `Engine::decode` of base64's four general-purpose engines: the
/// bytes that `text` encodes under the variant, or an error; the empty text
/// decodes to no bytes.
#[verifier::external_body]
fn decode_variant(v: Base64Variant, text: &str) -> (r: Option<Vec<u8>>)
    ensures
        match r {
            Some(b) => base64_decoded(v, text@) == Some(b@),
            None => base64_decoded(v, text@) is None,
        },
        text@.len() == 0 ==> r is Some && r->Some_0@.len() == 0,
{
    match v {
        Base64Variant::UrlSafeNoPad => general_purpose::URL_SAFE_NO_PAD.decode(text).ok(),
        Base64Variant::Standard => general_purpose::STANDARD.decode(text).ok(),
        Base64Variant::UrlSafe => general_purpose::URL_SAFE.decode(text).ok(),
        Base64Variant::StandardNoPad => general_purpose::STANDARD_NO_PAD.decode(text).ok(),
    }
}

/// Relies on `Engine::encode` of base64's `URL_SAFE_NO_PAD` engine: the text
/// uses the URL-safe alphabet only, has the unpadded length `encoded_len` gives
/// (four symbols per three bytes, two or three for a last partial group), and
/// decodes back to `b` under that engine.
#[verifier::external_body]
fn encode_url_safe_no_pad(b: &[u8]) -> (r: String)
    requires
        b@.len() <= isize::MAX,
    ensures
        r@ == base64_encoded(b@),
        r@.len() == (4 * b@.len() + 2) / 3,
        forall|i: int| 0 <= i < r@.len() ==> is_url_safe_symbol(#[trigger] r@[i]),
        base64_decoded(Base64Variant::UrlSafeNoPad, r@) == Some(b@),
{
    general_purpose::URL_SAFE_NO_PAD.encode(b)
}

/// The bytes of the first variant, in priority order, that decodes `text`.
pub open spec fn first_decoding(text: Seq<char>) -> Option<Seq<u8>> {
    if base64_decoded(Base64Variant::UrlSafeNoPad, text) is Some {
        base64_decoded(Base64Variant::UrlSafeNoPad, text)
    } else if base64_decoded(Base64Variant::Standard, text) is Some {
        base64_decoded(Base64Variant::Standard, text)
    } else if base64_decoded(Base64Variant::UrlSafe, text) is Some {
        base64_decoded(Base64Variant::UrlSafe, text)
    } else {
        base64_decoded(Base64Variant::StandardNoPad, text)
    }
}

/// The CBOR payload of `input` read as base64 text, if it is such text.
pub open spec fn base64_payload(input: Seq<u8>) -> Option<Seq<u8>> {
    if valid_utf8(input) {
        first_decoding(trimmed_end(decode_utf8(input)))
    } else {
        None
    }
}

/// The binary bytes that `input` stands for: its base64 payload, else itself.
pub open spec fn resolved(input: Seq<u8>) -> Seq<u8> {
    match base64_payload(input) {
        Some(b) => b,
        None => input,
    }
}

/// Reads `input` as base64 text, trying the variants in priority order.
pub fn try_base64_decode(input: &Vec<u8>) -> (r: Result<Vec<u8>, CbdError>)
    ensures
        match r {
            Ok(b) => base64_payload(input@) == Some(b@),
            Err(e) => {
                &&& base64_payload(input@) is None
                &&& e.kind == (if valid_utf8(input@) {
                    ErrorKind::Base64Invalid
                } else {
                    ErrorKind::Utf8Invalid
                })
                &&& (e.cause is Some <==> e.kind == ErrorKind::Utf8Invalid)
            },
        },
        input@.len() == 0 ==> r is Ok && r->Ok_0@.len() == 0,
{
    let text = match utf8_of(input.as_slice()) {
        Ok(t) => trim_end_of(t),
        Err(cause) => {
            return Err(CbdError::new(ErrorKind::Utf8Invalid, Some(cause)));
        },
    };
    if let Some(b) = decode_variant(Base64Variant::UrlSafeNoPad, text) {
        return Ok(b);
    }
    if let Some(b) = decode_variant(Base64Variant::Standard, text) {
        return Ok(b);
    }
    if let Some(b) = decode_variant(Base64Variant::UrlSafe, text) {
        return Ok(b);
    }
    if let Some(b) = decode_variant(Base64Variant::StandardNoPad, text) {
        return Ok(b);
    }
    Err(CbdError::new(ErrorKind::Base64Invalid, None))
}

/// The binary bytes that `input` stands for. Never fails: input that is not
/// base64 text is taken as raw binary.
pub fn resolve_binary(input: &Vec<u8>) -> (r: Vec<u8>)
    ensures
        r@ == resolved(input@),
        input@.len() == 0 ==> r@.len() == 0,
{
    match try_base64_decode(input) {
        Ok(b) => b,
        Err(_) => input.clone(),
    }
}

/// Encodes `input` as URL-safe base64 without padding; detection reads the
/// UTF-8 bytes of the result back as `input`.
pub fn base64_encode(input: &[u8]) -> (r: String)
    requires
        input@.len() <= isize::MAX,
    ensures
        r@ == base64_encoded(input@),
        r@.len() == (4 * input@.len() + 2) / 3,
        forall|i: int| 0 <= i < r@.len() ==> is_url_safe_symbol(#[trigger] r@[i]),
        !r@.contains('='),
        resolved(encode_utf8(r@)) == input@,
{
    let r = encode_url_safe_no_pad(input);
    proof {
        if r@.contains('=') {
            let i = choose|i: int| 0 <= i < r@.len() && r@[i] == '=';
            assert(is_url_safe_symbol(r@[i]));
        }
        lemma_url_safe_text_resolves(r@, input@);
    }
    r
}

proof fn lemma_url_safe_text_resolves(t: Seq<char>, b: Seq<u8>)
    requires
        forall|i: int| 0 <= i < t.len() ==> is_url_safe_symbol(#[trigger] t[i]),
        base64_decoded(Base64Variant::UrlSafeNoPad, t) == Some(b),
    ensures
        resolved(encode_utf8(t)) == b,
{
    encode_utf8_valid_utf8(t);
    encode_utf8_decode_utf8(t);
    if t.len() > 0 {
        assert(is_url_safe_symbol(t[t.len() - 1]));
        assert(!is_white_space(t.last()));
    }
    lemma_trimmed_end_keeps(t);
}

/// Bytes that are not UTF-8 text are taken as binary, unchanged.
pub proof fn lemma_non_utf8_input_kept(input: Seq<u8>)
    requires
        !valid_utf8(input),
    ensures
        resolved(input) == input,
{
}

} // verus!
