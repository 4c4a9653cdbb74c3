//! The URL target's request line: a `GET` of the fuzzed URI followed by the
//! blank line that ends a request head.

use vstd::prelude::*;
use vstd::string::StringSliceAdditionalSpecFns;

use crate::request_line::{prepend_request_line, request_line_bytes, CR, LF};
use crate::text::{get_bytes, lemma_literal_bytes};

verus! {

/// `GET {uri} HTTP/1.1\r\n\r\n`: the request line for the fuzzed URI and
/// an empty line after it.
pub fn uri_request_head(uri: &str) -> (head: Vec<u8>)
    requires
        uri.len() + 19 <= usize::MAX,
    ensures
        head@ == request_line_bytes(get_bytes(), uri.spec_bytes(), 1) + seq![CR, LF],
        head@ == seq![0x47u8, 0x45, 0x54, 0x20] + uri.spec_bytes() + seq![
            0x20u8,
            0x48,
            0x54,
            0x54,
            0x50,
            0x2f,
            0x31,
            0x2e,
            0x31,
            0x0d,
            0x0a,
            0x0d,
            0x0a,
        ],
{
    proof {
        lemma_literal_bytes();
    }
    let blank_line: [u8; 2] = [CR, LF];
    let head = prepend_request_line("GET", uri, 1, blank_line.as_slice());
    assert(blank_line@ == seq![CR, LF]);
    assert(head@ =~= seq![0x47u8, 0x45, 0x54, 0x20] + uri.spec_bytes() + seq![
        0x20u8,
        0x48,
        0x54,
        0x54,
        0x50,
        0x2f,
        0x31,
        0x2e,
        0x31,
        0x0d,
        0x0a,
        0x0d,
        0x0a,
    ]);
    head
}

} // verus!
