//! Input shaping for the header-parsing target: the method of the
//! synthesized request line and the newline-delimited chunks of the raw
//! buffer that are checked as header names.

use vstd::prelude::*;
use vstd::string::StringSliceAdditionalSpecFns;
use vstd::utf8::encode_utf8;

use crate::request_line::{prepend_request_line, request_line_bytes, LF};
use crate::text::{lemma_literal_bytes, utf8_len, SLASH};

verus! {

/// Methods longer than this many bytes are replaced by `"GET"` in the
/// synthesized request line.
pub const MAX_PROBE_METHOD_BYTES: usize = 16;

/// The method the header target puts in its synthesized request line: the
/// fuzzer's method when it is non-empty and at most
/// [`MAX_PROBE_METHOD_BYTES`] bytes long, else `"GET"`.
pub open spec fn probe_method_chars(method: &str) -> Seq<char> {
    if method@.len() == 0 || method.len() > MAX_PROBE_METHOD_BYTES {
        "GET"@
    } else {
        method@
    }
}

/// Pick the method of the synthesized request line, keeping it short and
/// non-empty so the line stays structurally parseable.
pub fn header_probe_method(method: &str) -> (chosen: &str)
    ensures
        chosen@ == probe_method_chars(method),
        0 < method.len() <= MAX_PROBE_METHOD_BYTES ==> chosen@ == method@,
        method@.len() == 0 || method.len() > MAX_PROBE_METHOD_BYTES ==> chosen@ == "GET"@,
{
    proof {
        lemma_probe_method_choice(method);
    }
    if method.is_empty() || method.len() > MAX_PROBE_METHOD_BYTES {
        "GET"
    } else {
        method
    }
}

/// A method of one to sixteen bytes is used as it is; only an empty method
/// or one longer than sixteen bytes is replaced by `"GET"`.
pub proof fn lemma_probe_method_choice(method: &str)
    ensures
        0 < method.len() <= MAX_PROBE_METHOD_BYTES ==> probe_method_chars(method) == method@,
        method.len() > MAX_PROBE_METHOD_BYTES ==> probe_method_chars(method) == "GET"@,
        method@.len() == 0 ==> probe_method_chars(method) == "GET"@,
{
    if method@.len() == 0 {
        assert(method.spec_bytes() == encode_utf8(method@));
        assert(encode_utf8(method@).len() == 0);
    }
}

/// The chosen method is never empty and never longer than
/// [`MAX_PROBE_METHOD_BYTES`] bytes, so the synthesized request line always
/// has a method of a plausible size.
pub proof fn lemma_probe_method_bounds(method: &str)
    ensures
        probe_method_chars(method).len() > 0,
        utf8_len(probe_method_chars(method)) <= MAX_PROBE_METHOD_BYTES,
{
    lemma_literal_bytes();
}

/// The buffer the header target parses with a fuzzed request line in front:
/// the line for [`header_probe_method`]`(method)`, target `"/"` and
/// `version_digit`, then the raw fuzzed bytes. With method `"GET"` and
/// version digit `1` this is the fixed request line the target also tries.
pub fn header_probe_buffer(method: &str, version_digit: u8, raw: &[u8]) -> (buf: Vec<u8>)
    ensures
        buf@ == request_line_bytes(encode_utf8(probe_method_chars(method)), seq![SLASH], version_digit)
            + raw@,
        0 < method.len() <= MAX_PROBE_METHOD_BYTES ==> buf@ == request_line_bytes(
            method.spec_bytes(),
            seq![SLASH],
            version_digit,
        ) + raw@,
{
    let chosen = header_probe_method(method);
    proof {
        lemma_literal_bytes();
    }
    prepend_request_line(chosen, "/", version_digit, raw)
}

/// The pieces of `bytes` between occurrences of `sep`, in order. `n`
/// separators give `n + 1` pieces; empty pieces are kept, so the empty
/// sequence gives one empty piece.
pub open spec fn split_on(bytes: Seq<u8>, sep: u8) -> Seq<Seq<u8>>
    decreases bytes.len(),
{
    if bytes.len() == 0 {
        seq![Seq::empty()]
    } else {
        let pieces = split_on(bytes.drop_last(), sep);
        if bytes.last() == sep {
            pieces.push(Seq::empty())
        } else {
            pieces.update(pieces.len() - 1, pieces.last().push(bytes.last()))
        }
    }
}

/// The pieces joined back together with `sep` between neighbours.
pub open spec fn join_with(pieces: Seq<Seq<u8>>, sep: u8) -> Seq<u8>
    decreases pieces.len(),
{
    if pieces.len() == 0 {
        Seq::empty()
    } else if pieces.len() == 1 {
        pieces[0]
    } else {
        join_with(pieces.drop_last(), sep) + seq![sep] + pieces.last()
    }
}

/// How many times `b` occurs in `bytes`.
pub open spec fn count_byte(bytes: Seq<u8>, b: u8) -> nat
    decreases bytes.len(),
{
    if bytes.len() == 0 {
        0
    } else {
        count_byte(bytes.drop_last(), b) + if bytes.last() == b { 1nat } else { 0nat }
    }
}

/// `split_on` always yields at least one piece.
proof fn lemma_split_on_nonempty(bytes: Seq<u8>, sep: u8)
    ensures
        split_on(bytes, sep).len() >= 1,
    decreases bytes.len(),
{
    if bytes.len() > 0 {
        lemma_split_on_nonempty(bytes.drop_last(), sep);
    }
}

/// The newline-delimited chunks of `buf`, as `buf.split(|&b| b == b'\n')`
/// yields them: every chunk, empty ones included, without its `'\n'`.
pub fn split_lines(buf: &[u8]) -> (lines: Vec<Vec<u8>>)
    ensures
        lines@.map_values(|l: Vec<u8>| l@) == split_on(buf@, LF),
        join_with(lines@.map_values(|l: Vec<u8>| l@), LF) == buf@,
        forall|i: int, j: int|
            0 <= i < lines@.len() && 0 <= j < lines@[i]@.len() ==> #[trigger] lines@[i]@[j] != LF,
        lines@.len() == count_byte(buf@, LF) + 1,
{
    let mut lines: Vec<Vec<u8>> = Vec::new();
    let mut current: Vec<u8> = Vec::new();
    let mut i: usize = 0;
    assert(buf@.take(0) =~= Seq::<u8>::empty());
    while i < buf.len()
        invariant
            i <= buf@.len(),
            lines@.map_values(|l: Vec<u8>| l@).push(current@) == split_on(buf@.take(i as int), LF),
        decreases buf@.len() - i,
    {
        let b = buf[i];
        let ghost before = buf@.take(i as int);
        proof {
            lemma_split_on_nonempty(before, LF);
        }
        assert(buf@.take(i + 1).drop_last() =~= before);
        if b == LF {
            let ghost old_lines = lines@.map_values(|l: Vec<u8>| l@);
            let mut finished: Vec<u8> = Vec::new();
            std::mem::swap(&mut finished, &mut current);
            lines.push(finished);
            assert(lines@.map_values(|l: Vec<u8>| l@) =~= old_lines.push(finished@));
        } else {
            let ghost old_lines = lines@.map_values(|l: Vec<u8>| l@);
            let ghost old_current = current@;
            current.push(b);
            assert(old_lines.push(current@) =~= old_lines.push(old_current).update(
                old_lines.len() as int,
                old_current.push(b),
            ));
        }
        i = i + 1;
    }
    assert(buf@.take(buf@.len() as int) =~= buf@);
    let ghost old_lines = lines@.map_values(|l: Vec<u8>| l@);
    lines.push(current);
    assert(lines@.map_values(|l: Vec<u8>| l@) =~= old_lines.push(current@));
    proof {
        lemma_split_join_roundtrip(buf@, LF);
        lemma_split_pieces_exclude_sep(buf@, LF);
        lemma_split_piece_count(buf@, LF);
        let views = lines@.map_values(|l: Vec<u8>| l@);
        assert forall|i: int, j: int|
            0 <= i < lines@.len() && 0 <= j < lines@[i]@.len() implies #[trigger] lines@[i]@[j]
            != LF by {
            assert(views[i] == lines@[i]@);
            assert(split_on(buf@, LF)[i][j] != LF);
        }
    }
    lines
}

/// Appending a byte to the last piece appends it to the joined text.
proof fn lemma_join_extend_last(pieces: Seq<Seq<u8>>, sep: u8, b: u8)
    requires
        pieces.len() >= 1,
    ensures
        join_with(pieces.update(pieces.len() - 1, pieces.last().push(b)), sep)
            == join_with(pieces, sep).push(b),
{
    let extended = pieces.update(pieces.len() - 1, pieces.last().push(b));
    if pieces.len() == 1 {
        assert(extended[0] == pieces[0].push(b));
    } else {
        assert(extended.drop_last() =~= pieces.drop_last());
        assert(join_with(extended, sep) =~= join_with(pieces, sep).push(b));
    }
}

/// Splitting loses nothing: joining the pieces with the separator gives the
/// original bytes back.
pub proof fn lemma_split_join_roundtrip(bytes: Seq<u8>, sep: u8)
    ensures
        join_with(split_on(bytes, sep), sep) == bytes,
    decreases bytes.len(),
{
    if bytes.len() == 0 {
        assert(join_with(split_on(bytes, sep), sep) =~= bytes);
    } else {
        let init = bytes.drop_last();
        let pieces = split_on(init, sep);
        lemma_split_join_roundtrip(init, sep);
        lemma_split_on_nonempty(init, sep);
        if bytes.last() == sep {
            let pushed = pieces.push(Seq::<u8>::empty());
            assert(pushed.drop_last() =~= pieces);
            assert(join_with(pushed, sep) =~= bytes);
        } else {
            lemma_join_extend_last(pieces, sep, bytes.last());
            assert(init.push(bytes.last()) =~= bytes);
        }
    }
}

/// No piece of a split contains the separator.
pub proof fn lemma_split_pieces_exclude_sep(bytes: Seq<u8>, sep: u8)
    ensures
        forall|i: int, j: int|
            0 <= i < split_on(bytes, sep).len() && 0 <= j < split_on(bytes, sep)[i].len()
                ==> #[trigger] split_on(bytes, sep)[i][j] != sep,
    decreases bytes.len(),
{
    if bytes.len() > 0 {
        lemma_split_pieces_exclude_sep(bytes.drop_last(), sep);
        lemma_split_on_nonempty(bytes.drop_last(), sep);
    }
}

/// There is one more piece than there are separators in the input.
pub proof fn lemma_split_piece_count(bytes: Seq<u8>, sep: u8)
    ensures
        split_on(bytes, sep).len() == count_byte(bytes, sep) + 1,
    decreases bytes.len(),
{
    if bytes.len() > 0 {
        lemma_split_piece_count(bytes.drop_last(), sep);
    }
}

} // verus!
