//! Substring search on names and log lines.
//!
//! Text is compared by its UTF-8 bytes: a pattern is found in a text where
//! the bytes of the pattern stand, one after the other, among the bytes of
//! the text.

use vstd::prelude::*;
use vstd::string::StringSliceAdditionalSpecFns;
use vstd::utf8::encode_utf8;

verus! {

/// `part` stands in `text` as one contiguous run of characters.
pub open spec fn is_part_of(part: Seq<char>, text: Seq<char>) -> bool {
    exists|from: int, to: int|
        0 <= from <= to <= text.len() && part == #[trigger] text.subrange(from, to)
}

/// `text` without the white space at its two ends, as `str::trim` gives it.
pub uninterp spec fn trimmed(text: Seq<char>) -> Seq<char>;

/// `str::trim` of the standard library: the slice of `text` that is left
/// when leading and trailing white space is taken away. The result is a
/// contiguous part of `text`. Nothing is claimed here of what counts as
/// white space; which part it is is named `trimmed`.
#[verifier::external_body]
pub(crate) fn trim(text: &str) -> (inner: &str)
    ensures
        inner@ == trimmed(text@),
        is_part_of(inner@, text@),
{
    text.trim()
}

/// `needle` stands in `hay` at position `at`.
pub open spec fn occurs_at(hay: Seq<u8>, needle: Seq<u8>, at: int) -> bool {
    &&& 0 <= at
    &&& at + needle.len() <= hay.len()
    &&& hay.subrange(at, at + needle.len()) == needle
}

/// `needle` stands somewhere in `hay`.
pub open spec fn contains_seq(hay: Seq<u8>, needle: Seq<u8>) -> bool {
    exists|at: int| occurs_at(hay, needle, at)
}

/// `pattern` stands somewhere in `text`, both taken as UTF-8.
pub open spec fn text_contains(text: Seq<char>, pattern: Seq<char>) -> bool {
    contains_seq(encode_utf8(text), encode_utf8(pattern))
}

/// Whether `needle` stands in `hay` at position `at`.
fn matches_at(hay: &[u8], needle: &[u8], at: usize) -> (found: bool)
    requires
        at + needle@.len() <= hay@.len(),
    ensures
        found == occurs_at(hay@, needle@, at as int),
{
    let mut k: usize = 0;
    let hay_len = hay.len();
    while k < needle.len()
        invariant
            k <= needle@.len(),
            at + needle@.len() <= hay@.len() == hay_len,
            forall|j: int| 0 <= j < k ==> hay@[at + j] == needle@[j],
        decreases needle@.len() - k,
    {
        if hay[at + k] != needle[k] {
            assert(hay@.subrange(at as int, at + needle@.len())[k as int] != needle@[k as int]);
            return false;
        }
        k = k + 1;
    }
    assert(hay@.subrange(at as int, at + needle@.len()) =~= needle@);
    true
}

/// Whether `needle` stands somewhere in `hay`.
pub fn contains_bytes(hay: &[u8], needle: &[u8]) -> (found: bool)
    ensures
        found == contains_seq(hay@, needle@),
{
    if needle.len() > hay.len() {
        return false;
    }
    if needle.len() == 0 {
        assert(hay@.subrange(0, 0) =~= needle@);
        assert(occurs_at(hay@, needle@, 0));
        return true;
    }
    let last = hay.len() - needle.len();
    let mut at: usize = 0;
    while at <= last
        invariant
            at <= last + 1,
            last == hay@.len() - needle@.len(),
            last < usize::MAX,
            forall|before: int| 0 <= before < at ==> !occurs_at(hay@, needle@, before),
        decreases last + 1 - at,
    {
        if matches_at(hay, needle, at) {
            return true;
        }
        at = at + 1;
    }
    false
}

/// Whether `pattern` stands somewhere in `text`.
pub fn contains(text: &str, pattern: &str) -> (found: bool)
    ensures
        found == text_contains(text@, pattern@),
{
    contains_bytes(text.as_bytes(), pattern.as_bytes())
}

} // verus!
