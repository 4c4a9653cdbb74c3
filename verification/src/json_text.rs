//! Whether fuzzed bytes are JSON text that serde_json reads as a value.

use vstd::prelude::*;
use vstd::string::StringSliceAdditionalSpecFns;
use vstd::utf8::{decode_utf8, encode_utf8_decode_utf8, valid_utf8};

verus! {

/// Whether `serde_json::from_str::<serde_json::Value>` returns `Ok` for a
/// string with these characters. The result depends on the text alone.
pub uninterp spec fn json_value_accepts(text: Seq<char>) -> bool;

/// Whether `serde_json::from_str::<Vec<serde_json::Value>>` returns `Ok`
/// for a string with these characters. The result depends on the text
/// alone.
pub uninterp spec fn json_array_accepts(text: Seq<char>) -> bool;

/// Whether `serde_json::from_str::<HashMap<String, serde_json::Value>>`
/// returns `Ok` for a string with these characters. The result depends on
/// the text alone.
pub uninterp spec fn json_object_accepts(text: Seq<char>) -> bool;

/// Calls `std::str::from_utf8` and keeps the string on success. std
/// documents that the call succeeds exactly when the bytes are valid UTF-8
/// and that the string it returns is made of those same bytes.
#[verifier::external_body]
fn utf8_text(bytes: &[u8]) -> (text: Option<&str>)
    ensures
        text is Some <==> valid_utf8(bytes@),
        text matches Some(t) ==> t.spec_bytes() == bytes@,
{
    std::str::from_utf8(bytes).ok()
}

/// Calls `serde_json::from_str::<serde_json::Value>` on the text and
/// reports whether it returned `Ok`; the value itself is dropped. The
/// contract names the outcome ([`json_value_accepts`]) and says nothing of
/// which texts serde_json accepts.
#[verifier::external_body]
fn parses_as_json_value(text: &str) -> (ok: bool)
    ensures
        ok == json_value_accepts(text@),
{
    serde_json::from_str::<serde_json::Value>(text).is_ok()
}

/// Calls `serde_json::from_str::<Vec<serde_json::Value>>` on the text and
/// reports whether it returned `Ok`; the array itself is dropped. The
/// contract names the outcome ([`json_array_accepts`]) and says nothing of
/// which texts serde_json accepts.
#[verifier::external_body]
fn parses_as_json_array(text: &str) -> (ok: bool)
    ensures
        ok == json_array_accepts(text@),
{
    serde_json::from_str::<Vec<serde_json::Value>>(text).is_ok()
}

/// Calls `serde_json::from_str::<HashMap<String, serde_json::Value>>` on
/// the text and reports whether it returned `Ok`; the map itself is
/// dropped. The contract names the outcome ([`json_object_accepts`]) and
/// says nothing of which texts serde_json accepts.
#[verifier::external_body]
fn parses_as_json_object(text: &str) -> (ok: bool)
    ensures
        ok == json_object_accepts(text@),
{
    serde_json::from_str::<std::collections::HashMap<String, serde_json::Value>>(text).is_ok()
}

/// `None` when the bytes are not UTF-8; otherwise whether serde_json reads
/// the text they encode as a JSON value.
pub open spec fn json_text_probe(raw: Seq<u8>) -> Option<bool> {
    if valid_utf8(raw) {
        Some(json_value_accepts(decode_utf8(raw)))
    } else {
        None
    }
}

/// Decode fuzzed bytes as UTF-8 and, when that succeeds, try to read the
/// text as a JSON value.
pub fn probe_json_text(raw: &[u8]) -> (res: Option<bool>)
    ensures
        res == json_text_probe(raw@),
        res is None <==> !valid_utf8(raw@),
        res is Some ==> res->0 == json_value_accepts(decode_utf8(raw@)),
{
    match utf8_text(raw) {
        Some(text) => {
            proof {
                encode_utf8_decode_utf8(text@);
            }
            Some(parses_as_json_value(text))
        },
        None => None,
    }
}

/// How serde_json reads one text: as any JSON value, as an array of
/// values, and as an object with string keys.
#[derive(Clone, Copy, Debug, PartialEq, Eq, Structural)]
pub struct JsonReadings {
    pub value: bool,
    pub array: bool,
    pub object: bool,
}

/// `None` when the bytes are not UTF-8; otherwise how serde_json reads the
/// text they encode.
pub open spec fn json_readings(raw: Seq<u8>) -> Option<JsonReadings> {
    if valid_utf8(raw) {
        let text = decode_utf8(raw);
        Some(
            JsonReadings {
                value: json_value_accepts(text),
                array: json_array_accepts(text),
                object: json_object_accepts(text),
            },
        )
    } else {
        None
    }
}

/// Decode fuzzed bytes as UTF-8 and, when that succeeds, try to read the
/// text as a JSON value, as an array of values and as an object.
pub fn probe_json_readings(raw: &[u8]) -> (res: Option<JsonReadings>)
    ensures
        res == json_readings(raw@),
        res is None <==> !valid_utf8(raw@),
        res is Some ==> res->0.value == json_value_accepts(decode_utf8(raw@)) && res->0.array
            == json_array_accepts(decode_utf8(raw@)) && res->0.object == json_object_accepts(
            decode_utf8(raw@),
        ),
{
    match utf8_text(raw) {
        Some(text) => {
            proof {
                encode_utf8_decode_utf8(text@);
            }
            Some(
                JsonReadings {
                    value: parses_as_json_value(text),
                    array: parses_as_json_array(text),
                    object: parses_as_json_object(text),
                },
            )
        },
        None => None,
    }
}

} // verus!
