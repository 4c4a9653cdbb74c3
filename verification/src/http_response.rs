//! The response target: the status it builds responses with, the body size
//! limit, and when it tries to read the body as JSON.

use vstd::prelude::*;
use vstd::utf8::{decode_utf8, valid_utf8};

use crate::json_text::{json_text_probe, json_value_accepts, probe_json_text};

verus! {

/// The lowest status code the target builds a response with.
pub const MIN_STATUS: u16 = 100;

/// The highest status code the target builds a response with.
pub const MAX_STATUS: u16 = 599;

/// Bodies longer than this many bytes are not used.
pub const MAX_RESPONSE_BODY_BYTES: usize = 1_000_000;

/// The fuzzed status moved into `MIN_STATUS..=MAX_STATUS`.
pub open spec fn clamped_status(status: u16) -> u16 {
    if status < MIN_STATUS {
        MIN_STATUS
    } else if status > MAX_STATUS {
        MAX_STATUS
    } else {
        status
    }
}

/// Clamp the fuzzed status code to the range of HTTP status codes.
pub fn response_status(status: u16) -> (s: u16)
    ensures
        s == clamped_status(status),
        MIN_STATUS <= s <= MAX_STATUS,
        MIN_STATUS <= status <= MAX_STATUS ==> s == status,
        status < MIN_STATUS ==> s == MIN_STATUS,
        status > MAX_STATUS ==> s == MAX_STATUS,
{
    if status < MIN_STATUS {
        MIN_STATUS
    } else if status > MAX_STATUS {
        MAX_STATUS
    } else {
        status
    }
}

/// Every clamped status is a valid HTTP status, a status that is already
/// valid is kept, and clamping twice is clamping once.
pub proof fn lemma_clamped_status(status: u16)
    ensures
        MIN_STATUS <= clamped_status(status) <= MAX_STATUS,
        MIN_STATUS <= status <= MAX_STATUS ==> clamped_status(status) == status,
        clamped_status(clamped_status(status)) == clamped_status(status),
{
}

/// Whether a fuzzed body is small enough to be used.
pub fn response_body_within_limit(body: &[u8]) -> (ok: bool)
    ensures
        ok == (body@.len() <= MAX_RESPONSE_BODY_BYTES),
{
    body.len() <= MAX_RESPONSE_BODY_BYTES
}

/// `None` for an empty body; otherwise what [`probe_json_text`] reports.
pub open spec fn json_body_probe(body: Seq<u8>) -> Option<bool> {
    if body.len() == 0 {
        None
    } else {
        json_text_probe(body)
    }
}

/// The verdict on a body is the verdict on all of its bytes: no verdict for
/// an empty or non-UTF-8 body, and otherwise whether serde_json reads the
/// whole decoded body as a JSON value.
pub proof fn lemma_json_body_probe(body: Seq<u8>)
    ensures
        json_body_probe(body) is None <==> (body.len() == 0 || !valid_utf8(body)),
        json_body_probe(body) is Some ==> json_body_probe(body)->0 == json_value_accepts(
            decode_utf8(body),
        ),
{
}

/// Try to read a non-empty, UTF-8 body as a JSON value.
pub fn probe_json_body(body: &[u8]) -> (res: Option<bool>)
    ensures
        res == json_body_probe(body@),
        res is None <==> (body@.len() == 0 || !valid_utf8(body@)),
        res is Some ==> res->0 == json_value_accepts(decode_utf8(body@)),
{
    proof {
        lemma_json_body_probe(body@);
    }
    if body.len() == 0 {
        None
    } else {
        probe_json_text(body)
    }
}

} // verus!
