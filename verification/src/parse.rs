//! Parsing a separated pair of values out of one string.
//!
//! A string of the form `<left><sep><right>` splits at the first
//! occurrence of the (ASCII) separator character; each half is then
//! parsed by the target type's own string parser.  A string without the
//! separator, or with a half the target type rejects, yields nothing.

use vstd::prelude::*;
use vstd::string::StringSliceAdditionalSpecFns;
use vstd::utf8::{
    encode_utf8_valid_utf8, is_char_boundary, is_char_boundary_iff_not_is_continuation_byte,
    is_char_boundary_start_end_of_seq, valid_utf8,
};

verus! {

/// A separator is ASCII: it occupies one byte wherever it occurs.
pub open spec fn ascii_separator(separator: char) -> bool {
    separator as u32 <= 0x7F
}

/// The one byte an ASCII separator occupies.
pub open spec fn separator_byte(separator: char) -> u8 {
    (separator as u32) as u8
}

/// In valid UTF-8 an ASCII byte always sits on a character boundary, and
/// so does the position right after it.
proof fn lemma_ascii_byte_is_boundary(bytes: Seq<u8>, i: int)
    requires
        valid_utf8(bytes),
        0 <= i < bytes.len(),
        bytes[i] <= 0x7F,
    ensures
        is_char_boundary(bytes, i),
        is_char_boundary(bytes, i + 1),
{
    is_char_boundary_iff_not_is_continuation_byte(bytes, i);
    if i + 1 == bytes.len() {
        is_char_boundary_start_end_of_seq(bytes);
    } else {
        is_char_boundary_iff_not_is_continuation_byte(bytes, i + 1);
        if is_continuation_within(bytes, i + 1) {
            lemma_no_continuation_after_ascii(bytes, i);
        }
    }
}

/// Helper naming: the byte at `j` has the continuation-byte form.
spec fn is_continuation_within(bytes: Seq<u8>, j: int) -> bool {
    0x80 <= bytes[j] <= 0xBF
}

/// In valid UTF-8, the byte after an ASCII byte is never a continuation
/// byte: the ASCII byte is a complete one-byte character.
proof fn lemma_no_continuation_after_ascii(bytes: Seq<u8>, i: int)
    requires
        valid_utf8(bytes),
        0 <= i,
        i + 1 < bytes.len(),
        bytes[i] <= 0x7F,
        is_char_boundary(bytes, i),
    ensures
        !is_continuation_within(bytes, i + 1),
    decreases bytes.len(),
{
    if i == 0 {
        assert(vstd::utf8::length_of_first_scalar(bytes) == 1);
        assert(!vstd::utf8::is_continuation_byte(vstd::utf8::pop_first_scalar(bytes)[0]))
            by {
            is_char_boundary_iff_not_is_continuation_byte(vstd::utf8::pop_first_scalar(bytes), 0);
            is_char_boundary_start_end_of_seq(vstd::utf8::pop_first_scalar(bytes));
        }
        assert(vstd::utf8::pop_first_scalar(bytes)[0] == bytes[1]);
    } else {
        let tail = vstd::utf8::pop_first_scalar(bytes);
        let w = vstd::utf8::length_of_first_scalar(bytes);
        assert(is_char_boundary(bytes, i) == is_char_boundary(tail, i - w));
        lemma_no_continuation_after_ascii(tail, i - w);
        assert(tail[i - w + 1] == bytes[i + 1]);
    }
}

/// Split a string at the first occurrence of an ASCII separator.
///
/// `None` exactly when the separator occurs nowhere in the string's
/// bytes; otherwise the two halves around its first occurrence, the
/// separator itself belonging to neither.
pub fn split_at_separator<'a>(s: &'a str, separator: char) -> (r: Option<(&'a str, &'a str)>)
    requires
        ascii_separator(separator),
    ensures
        ({
            let b = s.spec_bytes();
            let sep = separator_byte(separator);
            match r {
                None => forall|j: int| 0 <= j < b.len() ==> b[j] != sep,
                Some((left, right)) => exists|i: int|
                    {
                        &&& 0 <= i < b.len()
                        &&& b[i] == sep
                        &&& (forall|j: int| 0 <= j < i ==> b[j] != sep)
                        &&& left.spec_bytes() == b.subrange(0, i)
                        &&& right.spec_bytes() == b.subrange(i + 1, b.len() as int)
                    },
            }
        }),
{
    proof {
        encode_utf8_valid_utf8(s@);
    }
    let b = s.as_bytes();
    let sep: u8 = (separator as u32) as u8;
    let n = b.len();
    let mut i: usize = 0;
    while i < n
        invariant
            n == b@.len(),
            i <= n,
            b@ == s.spec_bytes(),
            sep == separator_byte(separator),
            sep <= 0x7F,
            forall|j: int| 0 <= j < i ==> b@[j] != sep,
        decreases n - i,
    {
        if b[i] == sep {
            proof {
                encode_utf8_valid_utf8(s@);
                lemma_ascii_byte_is_boundary(s.spec_bytes(), i as int);
            }
            let (left, rest) = s.split_at(i);
            proof {
                encode_utf8_valid_utf8(rest@);
                assert(rest.spec_bytes()[0] == s.spec_bytes()[i as int]);
                lemma_ascii_byte_is_boundary(rest.spec_bytes(), 0);
            }
            let (_, right) = rest.split_at(1);
            proof {
                assert(right.spec_bytes() =~= s.spec_bytes().subrange(
                    i + 1,
                    s.spec_bytes().len() as int,
                ));
            }
            return Some((left, right));
        }
        i = i + 1;
    }
    None
}

/// Relies on the target type's own `FromStr` parser, through
/// `str::FromStr::from_str`; nothing is assumed about which inputs it
/// accepts or what values it produces.
#[verifier::external_body]
fn parse_from_str<T: core::str::FromStr>(s: &str) -> (r: Option<T>) {
    match T::from_str(s) {
        Ok(v) => Some(v),
        Err(_) => None,
    }
}

/// Combine two independently parsed halves: a pair exactly when both
/// halves parsed, and then exactly their two values, left first.
pub fn pair_of_parts<T>(left: Option<T>, right: Option<T>) -> (r: Option<(T, T)>)
    ensures
        match (left, right) {
            (Some(l), Some(rt)) => r == Some((l, rt)),
            _ => r is None,
        },
{
    match (left, right) {
        (Some(l), Some(rt)) => Some((l, rt)),
        _ => None,
    }
}

/// Parse a string of the form `<left><sep><right>` as a pair of values.
///
/// The string splits at the first occurrence of `separator` (see
/// `split_at_separator`); each half then goes through the target type's
/// own parser, and the result is a pair exactly when both halves parse
/// (see `pair_of_parts`).  A string without the separator is never a
/// pair.
pub fn parse_pair<T: core::str::FromStr>(s: &str, separator: char) -> (r: Option<(T, T)>)
    requires
        ascii_separator(separator),
    ensures
        (forall|j: int|
            0 <= j < s.spec_bytes().len() ==> s.spec_bytes()[j] != separator_byte(separator))
            ==> r is None,
        r is Some ==> exists|j: int|
            0 <= j < s.spec_bytes().len() && s.spec_bytes()[j] == separator_byte(separator),
{
    match split_at_separator(s, separator) {
        None => None,
        Some((left, right)) => pair_of_parts(
            parse_from_str::<T>(left),
            parse_from_str::<T>(right),
        ),
    }
}

} // verus!
