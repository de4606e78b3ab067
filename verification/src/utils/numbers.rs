//! Unsigned decimal numbers in text.

use crate::lexical::{digits_end, digits_value, number, read_number, skip_digits};
use vstd::prelude::*;
use vstd::string::StringSliceAdditionalSpecFns;

verus! {

/// The byte `+`.
pub const PLUS: u8 = 43;

/// Where the digits of a number begin: behind a `+` sign where there is
/// one.
pub open spec fn digits_start(s: Seq<u8>) -> int {
    if s.len() > 0 && s[0] == PLUS {
        1
    } else {
        0
    }
}

/// The number that a text writes: a `+` sign where there is one, then one
/// or more digits and nothing else, of a value that a `u32` holds.
pub open spec fn decimal_u32(s: Seq<u8>) -> Option<u32> {
    let start = digits_start(s);
    if start < s.len() && digits_end(s, start) == s.len() && digits_value(s, start, s.len() as int)
        <= u32::MAX {
        Some(digits_value(s, start, s.len() as int) as u32)
    } else {
        None
    }
}

/// Reads an unsigned decimal number from the whole of `text`.
pub fn parse_u32(text: &str) -> (r: Option<u32>)
    ensures
        r == decimal_u32(text.spec_bytes()),
{
    let bytes = text.as_bytes();
    let start: usize = if bytes.len() > 0 && bytes[0] == PLUS {
        1
    } else {
        0
    };
    if start >= bytes.len() {
        return None;
    }
    let end = skip_digits(bytes, start);
    if end != bytes.len() {
        return None;
    }
    let n = read_number(bytes, start, end);
    if n <= 0xffff_ffff {
        Some(n as u32)
    } else {
        None
    }
}

} // verus!
