//! Which operating system release can capture system audio natively.
//!
//! The release is read from the text that the system's version tool
//! prints, such as `13.4.1`. Running the tool is the caller's part; the
//! text is taken apart here.

use crate::text::trim;
use crate::text::trimmed;
use vstd::prelude::*;
use vstd::string::StringSliceAdditionalSpecFns;

verus! {

/// The first major release with native capture of system audio.
pub const FIRST_SUPPORTED_MAJOR: u32 = 13;

/// Every byte is a decimal digit, and there is at least one.
pub open spec fn is_digits(s: Seq<u8>) -> bool {
    &&& s.len() > 0
    &&& forall|i: int| 0 <= i < s.len() ==> 48 <= #[trigger] s[i] <= 57
}

/// The number that the decimal digits `s` write.
pub open spec fn decimal(s: Seq<u8>) -> nat
    decreases s.len(),
{
    if s.len() == 0 {
        0
    } else {
        (decimal(s.drop_last()) * 10 + (s.last() - 48)) as nat
    }
}

/// The number that `s` writes: decimal digits, with a plus sign in front
/// if one likes, and no more than fits 32 bits. Anything else is no number.
pub open spec fn number(s: Seq<u8>) -> Option<u32> {
    let digits = if s.len() > 0 && s[0] == 43 {
        s.skip(1)
    } else {
        s
    };
    if is_digits(digits) && decimal(digits) <= u32::MAX {
        Some(decimal(digits) as u32)
    } else {
        None
    }
}

/// The position of the first full stop in `s`, or the length of `s` if it
/// has none.
pub open spec fn first_dot(s: Seq<u8>) -> int
    decreases s.len(),
{
    if s.len() == 0 {
        0
    } else if s[0] == 46 {
        0
    } else {
        1 + first_dot(s.skip(1))
    }
}

/// Major and minor release that the text `s` names: the numbers before and
/// after its first full stop, the second one ending at the next full stop
/// or at the end. A text without a full stop, or with something else than
/// a number in one of the two places, names no release.
pub open spec fn version_of(s: Seq<u8>) -> Option<(u32, u32)> {
    let dot = first_dot(s);
    if dot >= s.len() {
        None
    } else {
        let rest = s.skip(dot + 1);
        match (number(s.take(dot)), number(rest.take(first_dot(rest)))) {
            (Some(major), Some(minor)) => Some((major, minor)),
            _ => None,
        }
    }
}

/// A position with a full stop and none before it is `first_dot`.
proof fn lemma_first_dot_found(s: Seq<u8>, at: int)
    requires
        0 <= at <= s.len(),
        at < s.len() ==> s[at] == 46,
        forall|i: int| 0 <= i < at ==> #[trigger] s[i] != 46,
    ensures
        first_dot(s) == at,
    decreases s.len(),
{
    if s.len() > 0 && at > 0 {
        let rest = s.skip(1);
        assert(s[0] != 46);
        assert forall|i: int| 0 <= i < at - 1 implies #[trigger] rest[i] != 46 by {
            assert(rest[i] == s[i + 1]);
        }
        lemma_first_dot_found(rest, at - 1);
    }
}

/// More digits never write a smaller number.
proof fn lemma_decimal_grows(s: Seq<u8>, k: int)
    requires
        0 <= k <= s.len(),
        forall|i: int| 0 <= i < s.len() ==> 48 <= #[trigger] s[i] <= 57,
    ensures
        decimal(s.take(k)) <= decimal(s),
    decreases s.len() - k,
{
    if k < s.len() {
        lemma_decimal_grows(s, k + 1);
        assert(s.take(k + 1).drop_last() =~= s.take(k));
        assert(s.take(k + 1).last() == s[k]);
    } else {
        assert(s.take(k) =~= s);
    }
}

/// The position of the first full stop in `bytes` from `from` on.
fn find_dot(bytes: &[u8], from: usize) -> (at: usize)
    requires
        from <= bytes@.len(),
    ensures
        from <= at <= bytes@.len(),
        at - from == first_dot(bytes@.skip(from as int)),
{
    let mut at: usize = from;
    while at < bytes.len() && bytes[at] != 46
        invariant
            from <= at <= bytes@.len(),
            forall|i: int| from <= i < at ==> #[trigger] bytes@[i] != 46,
        decreases bytes@.len() - at,
    {
        at = at + 1;
    }
    proof {
        let rest = bytes@.skip(from as int);
        assert forall|i: int| 0 <= i < at - from implies #[trigger] rest[i] != 46 by {
            assert(rest[i] == bytes@[from + i]);
        }
        lemma_first_dot_found(rest, at - from);
    }
    at
}

/// The number written in `bytes` from `start` up to `end`.
#[verifier::loop_isolation(false)]
fn parse_number(bytes: &[u8], start: usize, end: usize) -> (parsed: Option<u32>)
    requires
        start <= end <= bytes@.len(),
    ensures
        parsed == number(bytes@.subrange(start as int, end as int)),
{
    let ghost part = bytes@.subrange(start as int, end as int);
    let first = if start < end && bytes[start] == 43 {
        start + 1
    } else {
        start
    };
    let ghost digits = bytes@.subrange(first as int, end as int);
    proof {
        if first > start {
            assert(part[0] == 43);
            assert(digits =~= part.skip(1));
        } else {
            if part.len() > 0 {
                assert(part[0] == bytes@[start as int]);
            }
            assert(digits =~= part);
        }
    }
    if first == end {
        return None;
    }
    let mut value: u64 = 0;
    let mut i: usize = first;
    while i < end
        invariant
            first <= i <= end <= bytes@.len(),
            digits == bytes@.subrange(first as int, end as int),
            forall|j: int| 0 <= j < i - first ==> 48 <= #[trigger] digits[j] <= 57,
            value == decimal(digits.take(i - first)),
            value <= u32::MAX,
        decreases end - i,
    {
        let byte = bytes[i];
        assert(digits[i - first] == byte);
        if byte < 48 || byte > 57 {
            return None;
        }
        let ghost seen = digits.take(i - first + 1);
        proof {
            assert(seen.drop_last() =~= digits.take(i - first));
            assert(seen.last() == byte);
        }
        value = value * 10 + (byte - 48) as u64;
        if value > 0xffff_ffff {
            let mut rest: usize = i + 1;
            while rest < end
                invariant
                    i < rest <= end <= bytes@.len(),
                    first <= i,
                    value == decimal(seen),
                    forall|j: int| 0 <= j < rest - first ==> 48 <= #[trigger] digits[j] <= 57,
                decreases end - rest,
            {
                let later = bytes[rest];
                assert(digits[rest - first] == later);
                if later < 48 || later > 57 {
                    return None;
                }
                rest = rest + 1;
            }
            proof {
                lemma_decimal_grows(digits, i - first + 1);
            }
            return None;
        }
        i = i + 1;
    }
    proof {
        assert(digits.take(end - first) =~= digits);
    }
    Some(value as u32)
}

/// Takes a version text apart into major and minor release.
///
/// `text` is expected without surrounding white space.
pub fn parse_version(text: &str) -> (version: Option<(u32, u32)>)
    ensures
        version == version_of(text.spec_bytes()),
{
    let bytes = text.as_bytes();
    let ghost s = bytes@;
    let dot = find_dot(bytes, 0);
    proof {
        assert(s.skip(0) =~= s);
    }
    if dot >= bytes.len() {
        return None;
    }
    let next = find_dot(bytes, dot + 1);
    proof {
        let rest = s.skip(dot + 1);
        assert(s.subrange(0, dot as int) =~= s.take(dot as int));
        assert(s.subrange(dot + 1, next as int) =~= rest.take(first_dot(rest)));
    }
    let major = parse_number(bytes, 0, dot);
    let minor = parse_number(bytes, dot + 1, next);
    match (major, minor) {
        (Some(major), Some(minor)) => Some((major, minor)),
        _ => None,
    }
}

/// Major and minor release named by what the version tool printed.
///
/// White space around the text, such as the final line break, is taken
/// away first.
pub fn get_macos_version(output: &str) -> (version: Option<(u32, u32)>)
    ensures
        version == version_of(vstd::utf8::encode_utf8(trimmed(output@))),
{
    parse_version(trim(output))
}

/// Whether a release captures system audio natively: the major release is
/// at least `FIRST_SUPPORTED_MAJOR`. An unknown release does not.
pub fn supports_screencapturekit(version: Option<(u32, u32)>) -> (supported: bool)
    ensures
        supported == match version {
            Some((major, _)) => major >= FIRST_SUPPORTED_MAJOR,
            None => false,
        },
{
    match version {
        Some((major, _minor)) => major >= FIRST_SUPPORTED_MAJOR,
        None => false,
    }
}

} // verus!
