//! Small facts about text that the targets' decisions rest on.

use vstd::prelude::*;
use vstd::string::{is_ascii, StringSliceAdditionalSpecFns};
use vstd::utf8::encode_utf8;

verus! {

/// The length in bytes that `str::len` reports for text with these
/// characters: the length of their UTF-8 encoding.
pub open spec fn utf8_len(chars: Seq<char>) -> usize {
    encode_utf8(chars).len() as usize
}

/// Calls `str::starts_with` with a `char` pattern. std documents that the
/// call returns whether the pattern matches a prefix of the string; for a
/// single `char` that is whether the string is non-empty and its first
/// character is `c`.
#[verifier::external_body]
pub(crate) fn starts_with_char(s: &str, c: char) -> (b: bool)
    ensures
        b == (s@.len() > 0 && s@[0] == c),
{
    s.starts_with(c)
}

/// The bytes of `"GET"`.
pub open spec fn get_bytes() -> Seq<u8> {
    seq![0x47, 0x45, 0x54]
}

/// The byte of `'/'`.
pub const SLASH: u8 = 0x2f;

/// The literals of the synthesized request lines are ASCII, one byte per
/// character: `"GET"` is the three bytes `G E T` and `"/"` the one byte
/// `'/'`.
pub proof fn lemma_literal_bytes()
    ensures
        "GET".spec_bytes() == get_bytes(),
        "/".spec_bytes() == seq![SLASH],
        "GET".len() == 3,
        "/".len() == 1,
{
    reveal_strlit("GET");
    reveal_strlit("/");
    broadcast use vstd::string::is_ascii_spec_bytes;

    assert(is_ascii("GET"));
    assert(is_ascii("/"));
    assert("GET".spec_bytes() =~= get_bytes());
    assert("/".spec_bytes() =~= seq![SLASH]);
}

} // verus!
