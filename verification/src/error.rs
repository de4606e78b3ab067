//! The one error of a parse.

use vstd::prelude::*;

verus! {

/// Why a report was not accepted.
#[derive(Clone, Copy, Debug, PartialEq, Eq, Structural)]
pub enum ErrorKind {
    /// The input holds something at the position that no form of the
    /// expected production begins with.
    LexicalMismatch,
    /// The input ends within the expected production.
    StructuralMismatch,
}

/// What was expected where a report was not accepted.
#[derive(Clone, Copy, Debug, PartialEq, Eq, Structural)]
pub enum Expected {
    IcaoIdentifier,
    IssueTime,
    ValidityWindow,
    EndOfInput,
}

/// The one error of a parse: where it failed, on what, and how.
#[derive(Clone, Copy, Debug, PartialEq, Eq, Structural)]
pub struct ParseError {
    pub kind: ErrorKind,
    pub position: usize,
    pub expected: Expected,
}

/// The error for a production of `width` bytes that is missing at `pos`:
/// structural where the input ends before `width` bytes, else lexical.
pub open spec fn missing(s: Seq<u8>, pos: int, width: int, expected: Expected) -> ParseError {
    ParseError {
        kind: if pos + width > s.len() {
            ErrorKind::StructuralMismatch
        } else {
            ErrorKind::LexicalMismatch
        },
        position: pos as usize,
        expected,
    }
}

/// The error for a production of `width` bytes that is missing at `pos`.
pub fn missing_at(input: &[u8], pos: usize, width: usize, expected: Expected) -> (e: ParseError)
    requires
        pos <= input.len(),
    ensures
        e == missing(input@, pos as int, width as int, expected),
{
    ParseError {
        kind: if width > input.len() - pos {
            ErrorKind::StructuralMismatch
        } else {
            ErrorKind::LexicalMismatch
        },
        position: pos,
        expected,
    }
}

} // verus!
