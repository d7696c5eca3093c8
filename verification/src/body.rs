//! Reading a body: bytes to text, and text that is a JSON document.

use vstd::prelude::*;
use vstd::string::StringSliceAdditionalSpecFns;
use vstd::utf8::*;

verus! {

/// The error of `core::str::from_utf8`, carried through unread.
#[verifier::external_type_specification]
#[verifier::external_body]
pub struct ExUtf8Error(core::str::Utf8Error);

/// A JSON document as `serde_json` holds it, carried through unread.
#[verifier::external_type_specification]
#[verifier::external_body]
pub struct ExJsonValue(serde_json::Value);

/// The error of `serde_json::from_str`, carried through unread.
#[verifier::external_type_specification]
#[verifier::external_body]
pub struct ExJsonError(serde_json::Error);

/// Whether `serde_json::from_str` accepts `text` as one JSON document.
pub uninterp spec fn parses_as_json(text: Seq<char>) -> bool;

/// `core::str::from_utf8` succeeds exactly on well-formed UTF-8, and the
/// string slice it returns is made of the bytes it was given.
pub assume_specification[ core::str::from_utf8 ](bytes: &[u8]) -> (r: Result<
    &str,
    core::str::Utf8Error,
>)
    ensures
        match r {
            Ok(text) => valid_utf8(bytes@) && text.spec_bytes() == bytes@,
            Err(_) => !valid_utf8(bytes@),
        },
;

/// `serde_json::from_str`, asked for a `serde_json::Value`: whether it
/// returns a document or an error depends on the text alone.
#[verifier::external_body]
fn parse_json(text: &str) -> (r: Result<serde_json::Value, serde_json::Error>)
    ensures
        r.is_ok() == parses_as_json(text@),
{
    serde_json::from_str(text)
}

/// The text that `bytes` spell, where they are well-formed UTF-8.
pub open spec fn text_of(bytes: Seq<u8>) -> Option<Seq<char>> {
    if valid_utf8(bytes) {
        Some(decode_utf8(bytes))
    } else {
        None
    }
}

/// Decodes a body, or says that it is no text.
pub fn decode(bytes: &[u8]) -> (text: Option<String>)
    ensures
        text.deep_view() == text_of(bytes@),
{
    match core::str::from_utf8(bytes) {
        Ok(text) => {
            proof {
                encode_utf8_decode_utf8(text@);
            }
            Some(String::from_str(text))
        },
        Err(_) => None,
    }
}

/// Whether `text` is one well-formed JSON document.
pub fn is_json(text: &str) -> (yes: bool)
    ensures
        yes == parses_as_json(text@),
{
    match parse_json(text) {
        Ok(_) => true,
        Err(_) => false,
    }
}

/// The JSON document that `bytes` spell, as text: the bytes read as UTF-8,
/// where they are well-formed UTF-8 and that text is one JSON document.
pub open spec fn json_text_of(bytes: Seq<u8>) -> Option<Seq<char>> {
    match text_of(bytes) {
        Some(text) if parses_as_json(text) => Some(text),
        _ => None,
    }
}

/// Reads a body that must be a JSON document. The text comes back as it
/// stands in the body, byte for byte.
pub fn json_text(bytes: &[u8]) -> (text: Option<String>)
    ensures
        text.deep_view() == json_text_of(bytes@),
{
    match decode(bytes) {
        Some(text) => {
            if is_json(text.as_str()) {
                Some(text)
            } else {
                None
            }
        },
        None => None,
    }
}

} // verus!
