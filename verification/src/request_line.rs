//! Synthesis of raw HTTP/1.x request lines.

use vstd::prelude::*;
use vstd::string::StringSliceAdditionalSpecFns;

verus! {

/// ASCII space, the separator between request-line fields.
pub const SP: u8 = 0x20;

/// ASCII carriage return.
pub const CR: u8 = 0x0d;

/// ASCII line feed.
pub const LF: u8 = 0x0a;

/// ASCII `'0'`.
pub const DIGIT_ZERO: u8 = 0x30;

/// The bytes of `" HTTP/1."`: the separator before the protocol version and
/// the version up to its minor digit.
pub open spec fn http1_version_prefix() -> Seq<u8> {
    seq![SP, 0x48, 0x54, 0x54, 0x50, 0x2f, 0x31, 0x2e]
}

/// The ASCII digit that stands for `version_digit % 10`.
pub open spec fn minor_version_byte(version_digit: u8) -> u8 {
    (DIGIT_ZERO + version_digit % 10) as u8
}

/// The request line `"{method} {target} HTTP/1.{version_digit % 10}\r\n"`
/// over the UTF-8 bytes of its method and target.
pub open spec fn request_line_bytes(method: Seq<u8>, target: Seq<u8>, version_digit: u8) -> Seq<u8> {
    method + seq![SP] + target + http1_version_prefix() + seq![minor_version_byte(version_digit)]
        + seq![CR, LF]
}

/// Build a raw HTTP/1.x request-line buffer:
/// `"{method} {target} HTTP/1.{version_digit % 10}\r\n"`.
///
/// Only the last decimal digit of `version_digit` is used, so the minor
/// version is always a single ASCII digit.
pub fn synth_request_line(method: &str, target: &str, version_digit: u8) -> (line: Vec<u8>)
    requires
        method.len() + target.len() + 16 <= usize::MAX,
    ensures
        line@ == request_line_bytes(method.spec_bytes(), target.spec_bytes(), version_digit),
        line@ == method.spec_bytes() + seq![0x20u8] + target.spec_bytes() + seq![
            0x20u8,
            0x48,
            0x54,
            0x54,
            0x50,
            0x2f,
            0x31,
            0x2e,
            (0x30 + version_digit % 10) as u8,
            0x0d,
            0x0a,
        ],
{
    let mut line: Vec<u8> = Vec::with_capacity(method.len() + target.len() + 16);
    line.extend_from_slice(method.as_bytes());
    line.push(SP);
    line.extend_from_slice(target.as_bytes());
    let version_prefix: [u8; 8] = [SP, 0x48, 0x54, 0x54, 0x50, 0x2f, 0x31, 0x2e];
    line.extend_from_slice(version_prefix.as_slice());
    line.push(DIGIT_ZERO + version_digit % 10);
    line.push(CR);
    line.push(LF);
    assert(line@ =~= request_line_bytes(method.spec_bytes(), target.spec_bytes(), version_digit));
    assert(line@ =~= method.spec_bytes() + seq![0x20u8] + target.spec_bytes() + seq![
        0x20u8,
        0x48,
        0x54,
        0x54,
        0x50,
        0x2f,
        0x31,
        0x2e,
        (0x30 + version_digit % 10) as u8,
        0x0d,
        0x0a,
    ]);
    line
}

/// The request line for `method`, `target` and `version_digit`, followed by
/// the bytes of `rest`: what the header and URL targets feed to the parsers
/// so that fuzzer bytes sit behind a plausible first line.
pub fn prepend_request_line(method: &str, target: &str, version_digit: u8, rest: &[u8]) -> (buf: Vec<u8>)
    requires
        method.len() + target.len() + 16 <= usize::MAX,
    ensures
        buf@ == request_line_bytes(method.spec_bytes(), target.spec_bytes(), version_digit) + rest@,
        buf@.subrange(0, buf@.len() - rest@.len()) == request_line_bytes(
            method.spec_bytes(),
            target.spec_bytes(),
            version_digit,
        ),
        buf@.subrange(buf@.len() - rest@.len(), buf@.len() as int) == rest@,
{
    let mut buf = synth_request_line(method, target, version_digit);
    buf.extend_from_slice(rest);
    let ghost line = request_line_bytes(method.spec_bytes(), target.spec_bytes(), version_digit);
    assert(buf@ =~= line + rest@);
    assert(buf@.subrange(0, buf@.len() - rest@.len()) =~= line);
    assert(buf@.subrange(buf@.len() - rest@.len(), buf@.len() as int) =~= rest@);
    buf
}

/// A request line is the method, a space, the target, `" HTTP/1."`, one
/// ASCII decimal digit and CRLF: it is twelve bytes longer than method and
/// target together, and method and target can be read back from it.
pub proof fn lemma_request_line_layout(method: Seq<u8>, target: Seq<u8>, version_digit: u8)
    ensures
        ({
            let line = request_line_bytes(method, target, version_digit);
            let m = method.len() as int;
            let t = target.len() as int;
            &&& line.len() == m + t + 12
            &&& line.subrange(0, m) == method
            &&& line[m] == SP
            &&& line.subrange(m + 1, m + 1 + t) == target
            &&& line.subrange(m + 1 + t, line.len() - 3) == http1_version_prefix()
            &&& DIGIT_ZERO <= line[line.len() - 3] <= DIGIT_ZERO + 9
            &&& line[line.len() - 3] == 0x30 + version_digit % 10
            &&& line[line.len() - 2] == CR
            &&& line[line.len() - 1] == LF
        }),
{
    let line = request_line_bytes(method, target, version_digit);
    let m = method.len() as int;
    let t = target.len() as int;
    assert(line.subrange(0, m) =~= method);
    assert(line.subrange(m + 1, m + 1 + t) =~= target);
    assert(line.subrange(m + 1 + t, line.len() - 3) =~= http1_version_prefix());
}

/// Only the last decimal digit of the version number matters: two version
/// numbers with the same last digit give the same request line.
pub proof fn lemma_request_line_version_mod_ten(
    method: Seq<u8>,
    target: Seq<u8>,
    v1: u8,
    v2: u8,
)
    requires
        v1 % 10 == v2 % 10,
    ensures
        request_line_bytes(method, target, v1) == request_line_bytes(method, target, v2),
{
}

} // verus!
