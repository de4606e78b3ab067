//! Lexical primitives: literals, character classes, digit runs, numbers and
//! the tolerant whitespace that reports are resynchronised on.

use crate::tokens::Amount;
use vstd::prelude::*;
use vstd::slice::slice_subrange;
use vstd::string::StringSliceAdditionalSpecFns;

verus! {

/// A borrowed piece of the input, as the positions of its first byte and of
/// the byte after its last.
#[derive(Clone, Copy, Debug, PartialEq, Eq, Structural)]
pub struct Span {
    pub start: usize,
    pub end: usize,
}

impl Span {
    /// The span lies within an input of `len` bytes.
    pub open spec fn lies_within(self, len: usize) -> bool {
        self.start <= self.end <= len
    }

    /// The bytes of `input` that the span covers.
    pub fn text<'a>(&self, input: &'a [u8]) -> (r: &'a [u8])
        requires
            self.lies_within(input.len()),
        ensures
            r@ == input@.subrange(self.start as int, self.end as int),
    {
        slice_subrange(input, self.start, self.end)
    }
}

/// The span from `start` to `end`, as a grammar states it.
pub open spec fn span(start: int, end: int) -> Span {
    Span { start: start as usize, end: end as usize }
}

/// What an executable parser returned, held against what the grammar yields:
/// the same value, ending at the same position, which lies within the input.
pub open spec fn agrees<T>(
    r: Option<(T, usize)>,
    m: Option<(T, int)>,
    pos: usize,
    len: usize,
) -> bool {
    match r {
        Some((v, p)) => m == Some((v, p as int)) && pos <= p <= len,
        None => m is None,
    }
}

/// The same for a rule that yields a position only.
pub open spec fn agrees_at(r: Option<usize>, m: Option<int>, pos: usize, len: usize) -> bool {
    match r {
        Some(p) => m == Some(p as int) && pos <= p <= len,
        None => m is None,
    }
}

/// The same for a rule that cannot fail: an optional group and the position
/// after it.
pub open spec fn follows<T>(r: (T, usize), m: (T, int), pos: usize, len: usize) -> bool {
    r.0 == m.0 && r.1 == m.1 && pos <= r.1 <= len
}

/// The bytes of `s` from `pos` on begin with the bytes of `lit`.
pub open spec fn has(s: Seq<u8>, pos: int, lit: &str) -> bool {
    let b = lit.spec_bytes();
    0 <= pos && pos + b.len() <= s.len() && s.subrange(pos, pos + b.len()) == b
}

/// The position after `lit`, where the input holds it at `pos`.
pub open spec fn after(s: Seq<u8>, pos: int, lit: &str) -> Option<int> {
    if has(s, pos, lit) {
        Some(pos + lit.spec_bytes().len())
    } else {
        None
    }
}

/// The byte at `pos` is `c`.
pub open spec fn byte_is(s: Seq<u8>, pos: int, c: u8) -> bool {
    0 <= pos < s.len() && s[pos] == c
}

/// The byte `/`.
pub const SLASH: u8 = 47;

/// A space.
pub const SPACE: u8 = 32;

/// A tab.
pub const TAB: u8 = 9;

/// A line feed.
pub const LINE_FEED: u8 = 10;

/// A carriage return.
pub const CARRIAGE_RETURN: u8 = 13;

/// The byte `>`.
pub const GREATER: u8 = 62;

/// The letter `M`.
pub const LETTER_M: u8 = 77;

/// The byte `$`.
pub const DOLLAR: u8 = 36;

/// An ASCII digit.
pub open spec fn is_digit(c: u8) -> bool {
    48 <= c <= 57
}

/// An upper-case ASCII letter.
pub open spec fn is_letter(c: u8) -> bool {
    65 <= c <= 90
}

/// The byte at `pos` is a digit.
pub open spec fn digit_at(s: Seq<u8>, pos: int) -> bool {
    0 <= pos < s.len() && is_digit(s[pos])
}

/// The byte at `pos` is an upper-case letter.
pub open spec fn letter_at(s: Seq<u8>, pos: int) -> bool {
    0 <= pos < s.len() && is_letter(s[pos])
}

/// Whether the input holds `lit` at `pos`.
pub fn starts_with(input: &[u8], pos: usize, lit: &str) -> (b: bool)
    requires
        pos <= input.len(),
    ensures
        b == has(input@, pos as int, lit),
{
    let l = lit.as_bytes();
    let n = l.len();
    if n > input.len() - pos {
        return false;
    }
    let mut i: usize = 0;
    while i < n
        invariant
            i <= n,
            n == l@.len(),
            l@ == lit.spec_bytes(),
            pos + n <= input.len(),
            forall|j: int| 0 <= j < i ==> input@[pos + j] == l@[j],
        decreases n - i,
    {
        if input[pos + i] != l[i] {
            assert(input@.subrange(pos as int, pos + n)[i as int] != l@[i as int]);
            return false;
        }
        i += 1;
    }
    assert(input@.subrange(pos as int, pos + n) =~= l@);
    true
}

/// Consumes `lit` at `pos`, or fails.
pub fn eat(input: &[u8], pos: usize, lit: &str) -> (r: Option<usize>)
    requires
        pos <= input.len(),
    ensures
        agrees_at(r, after(input@, pos as int, lit), pos, input.len()),
{
    if starts_with(input, pos, lit) {
        Some(pos + lit.as_bytes().len())
    } else {
        None
    }
}

/// Whether the byte at `pos` is `c`.
pub fn peek(input: &[u8], pos: usize, c: u8) -> (b: bool)
    requires
        pos <= input.len(),
    ensures
        b == byte_is(input@, pos as int, c),
{
    pos < input.len() && input[pos] == c
}

/// Whether the byte at `pos` is a digit.
pub fn digit_here(input: &[u8], pos: usize) -> (b: bool)
    requires
        pos <= input.len(),
    ensures
        b == digit_at(input@, pos as int),
{
    pos < input.len() && 48 <= input[pos] && input[pos] <= 57
}

/// Whether the byte at `pos` is an upper-case letter.
pub fn letter_here(input: &[u8], pos: usize) -> (b: bool)
    requires
        pos <= input.len(),
    ensures
        b == letter_at(input@, pos as int),
{
    pos < input.len() && 65 <= input[pos] && input[pos] <= 90
}

/// The end of the run of bytes `c` that starts at `pos`.
pub open spec fn run_end(s: Seq<u8>, pos: int, c: u8) -> int
    decreases s.len() - pos,
{
    if byte_is(s, pos, c) {
        run_end(s, pos + 1, c)
    } else {
        pos
    }
}

/// The position of the first byte `c` at or after `pos`, or the end of the
/// input where there is none.
pub open spec fn next_byte(s: Seq<u8>, pos: int, c: u8) -> int
    decreases s.len() - pos,
{
    if 0 <= pos < s.len() && s[pos] != c {
        next_byte(s, pos + 1, c)
    } else {
        pos
    }
}

/// The end of the run of digits that starts at `pos`.
pub open spec fn digits_end(s: Seq<u8>, pos: int) -> int
    decreases s.len() - pos,
{
    if digit_at(s, pos) {
        digits_end(s, pos + 1)
    } else {
        pos
    }
}

/// One or more digits.
pub open spec fn digits(s: Seq<u8>, pos: int) -> Option<int> {
    if digit_at(s, pos) {
        Some(digits_end(s, pos))
    } else {
        None
    }
}

/// Exactly two digits.
pub open spec fn two_digits(s: Seq<u8>, pos: int) -> Option<int> {
    if digit_at(s, pos) && digit_at(s, pos + 1) {
        Some(pos + 2)
    } else {
        None
    }
}

/// Exactly three digits.
pub open spec fn three_digits(s: Seq<u8>, pos: int) -> Option<int> {
    if digit_at(s, pos) && digit_at(s, pos + 1) && digit_at(s, pos + 2) {
        Some(pos + 3)
    } else {
        None
    }
}

/// The number that the digits from `from` up to `to` write in base ten.
pub open spec fn digits_value(s: Seq<u8>, from: int, to: int) -> nat
    decreases to - from,
{
    if to <= from || !(0 < to <= s.len()) {
        0
    } else {
        digits_value(s, from, to - 1) * 10 + (if s[to - 1] >= 48 {
            (s[to - 1] - 48) as nat
        } else {
            0
        })
    }
}

/// `n`, or the largest `u64` where `n` is beyond it.
pub open spec fn saturated(n: nat) -> u64 {
    if n > u64::MAX {
        u64::MAX
    } else {
        n as u64
    }
}

/// The value of a digit run, saturated.
pub open spec fn number(s: Seq<u8>, from: int, to: int) -> u64 {
    saturated(digits_value(s, from, to))
}

/// A digit run ends at or after its start.
pub proof fn lemma_digits_end_from(s: Seq<u8>, pos: int)
    ensures
        pos <= digits_end(s, pos),
    decreases s.len() - pos,
{
    if digit_at(s, pos) {
        lemma_digits_end_from(s, pos + 1);
    }
}

/// Skips the run of bytes `c` at `pos`.
pub fn skip_run(input: &[u8], pos: usize, c: u8) -> (end: usize)
    requires
        pos <= input.len(),
    ensures
        end == run_end(input@, pos as int, c),
        pos <= end <= input.len(),
{
    let mut i: usize = pos;
    while i < input.len() && input[i] == c
        invariant
            pos <= i <= input.len(),
            run_end(input@, pos as int, c) == run_end(input@, i as int, c),
        decreases input.len() - i,
    {
        i += 1;
    }
    i
}

/// Finds the first byte `c` at or after `pos`.
pub fn find_byte(input: &[u8], pos: usize, c: u8) -> (end: usize)
    requires
        pos <= input.len(),
    ensures
        end == next_byte(input@, pos as int, c),
        pos <= end <= input.len(),
{
    let mut i: usize = pos;
    while i < input.len() && input[i] != c
        invariant
            pos <= i <= input.len(),
            next_byte(input@, pos as int, c) == next_byte(input@, i as int, c),
        decreases input.len() - i,
    {
        i += 1;
    }
    i
}

/// Skips the run of digits at `pos`.
pub fn skip_digits(input: &[u8], pos: usize) -> (end: usize)
    requires
        pos <= input.len(),
    ensures
        end == digits_end(input@, pos as int),
        pos <= end <= input.len(),
{
    let mut i: usize = pos;
    while digit_here(input, i)
        invariant
            pos <= i <= input.len(),
            digits_end(input@, pos as int) == digits_end(input@, i as int),
        decreases input.len() - i,
    {
        i += 1;
    }
    i
}

/// One or more digits.
pub fn eat_digits(input: &[u8], pos: usize) -> (r: Option<usize>)
    requires
        pos <= input.len(),
    ensures
        agrees_at(r, digits(input@, pos as int), pos, input.len()),
        r matches Some(p) ==> pos < p,
{
    if digit_here(input, pos) {
        let e = skip_digits(input, pos);
        proof {
            lemma_digits_end_from(input@, pos + 1);
        }
        Some(e)
    } else {
        None
    }
}

/// Exactly two digits.
pub fn eat_two_digits(input: &[u8], pos: usize) -> (r: Option<usize>)
    requires
        pos <= input.len(),
    ensures
        agrees_at(r, two_digits(input@, pos as int), pos, input.len()),
{
    if digit_here(input, pos) && digit_here(input, pos + 1) {
        Some(pos + 2)
    } else {
        None
    }
}

/// Exactly three digits.
pub fn eat_three_digits(input: &[u8], pos: usize) -> (r: Option<usize>)
    requires
        pos <= input.len(),
    ensures
        agrees_at(r, three_digits(input@, pos as int), pos, input.len()),
{
    if digit_here(input, pos) && digit_here(input, pos + 1) && digit_here(input, pos + 2) {
        Some(pos + 3)
    } else {
        None
    }
}

/// The saturated value of the digits from `from` up to `to`.
pub fn read_number(input: &[u8], from: usize, to: usize) -> (n: u64)
    requires
        from <= to <= input.len(),
    ensures
        n == number(input@, from as int, to as int),
{
    let mut acc: u64 = 0;
    let mut i: usize = from;
    while i < to
        invariant
            from <= i <= to <= input.len(),
            acc == saturated(digits_value(input@, from as int, i as int)),
        decreases to - i,
    {
        let d: u64 = if input[i] >= 48 {
            (input[i] - 48) as u64
        } else {
            0
        };
        acc = if acc > (u64::MAX - d) / 10 {
            u64::MAX
        } else {
            acc * 10 + d
        };
        i += 1;
    }
    acc
}

/// The end of zero or more groups of slashes, each followed by a space.
pub open spec fn slash_groups_end(s: Seq<u8>, pos: int) -> int
    decreases s.len() - pos,
{
    let e = run_end(s, pos, SLASH);
    if pos < e && byte_is(s, e, SPACE) {
        slash_groups_end(s, e + 1)
    } else {
        pos
    }
}

/// The end of zero or more repetitions of `M` and a space.
pub open spec fn m_groups_end(s: Seq<u8>, pos: int) -> int
    decreases s.len() - pos,
{
    if byte_is(s, pos, LETTER_M) && byte_is(s, pos + 1, SPACE) {
        m_groups_end(s, pos + 2)
    } else {
        pos
    }
}

/// One blank: a space with the slash groups or the `M` groups that follow
/// it, a space alone, a line end, or a tab, with a `>` or without.
pub open spec fn blank(s: Seq<u8>, pos: int) -> Option<int> {
    if byte_is(s, pos, SPACE) {
        if slash_groups_end(s, pos + 1) > pos + 1 {
            Some(slash_groups_end(s, pos + 1))
        } else if m_groups_end(s, pos + 1) > pos + 1 {
            Some(m_groups_end(s, pos + 1))
        } else {
            Some(pos + 1)
        }
    } else if byte_is(s, pos, CARRIAGE_RETURN) && byte_is(s, pos + 1, LINE_FEED) {
        Some(pos + 2)
    } else if byte_is(s, pos, LINE_FEED) {
        Some(pos + 1)
    } else if byte_is(s, pos, TAB) && byte_is(s, pos + 1, GREATER) {
        Some(pos + 2)
    } else if byte_is(s, pos, TAB) {
        Some(pos + 1)
    } else {
        None
    }
}

/// The end of the run of blanks that starts at `pos`.
pub open spec fn blanks_end(s: Seq<u8>, pos: int) -> int
    decreases s.len() - pos,
{
    match blank(s, pos) {
        Some(p) => if pos < p <= s.len() {
            blanks_end(s, p)
        } else {
            pos
        },
        None => pos,
    }
}

/// One or more blanks, and a stray `>` where one ends the run.
#[verifier::opaque]
pub open spec fn required_whitespace(s: Seq<u8>, pos: int) -> Option<int> {
    let e = blanks_end(s, pos);
    if e <= pos {
        None
    } else if byte_is(s, e, GREATER) {
        Some(e + 1)
    } else {
        Some(e)
    }
}

/// Whitespace where there is any: the position after it.
pub open spec fn whitespace(s: Seq<u8>, pos: int) -> int {
    match required_whitespace(s, pos) {
        Some(p) => p,
        None => pos,
    }
}

/// A token ends at `pos`: whitespace follows, or nothing does.
pub open spec fn at_boundary(s: Seq<u8>, pos: int) -> bool {
    required_whitespace(s, pos) is Some || pos >= s.len()
}

/// Whitespace, or the end of the input: the position after either.
pub open spec fn whitespace_or_end(s: Seq<u8>, pos: int) -> Option<int> {
    match required_whitespace(s, pos) {
        Some(p) => Some(p),
        None => if pos >= s.len() {
            Some(pos)
        } else {
            None
        },
    }
}

/// A letter or a digit.
pub open spec fn letter_or_digit_at(s: Seq<u8>, pos: int) -> bool {
    letter_at(s, pos) || digit_at(s, pos)
}

/// A station identifier: a letter, then three letters or digits.
pub open spec fn icao_identifier(s: Seq<u8>, pos: int) -> Option<(Span, int)> {
    if letter_at(s, pos) && letter_or_digit_at(s, pos + 1) && letter_or_digit_at(s, pos + 2)
        && letter_or_digit_at(s, pos + 3) {
        Some((span(pos, pos + 4), pos + 4))
    } else {
        None
    }
}

/// Skips the groups of slashes, each followed by a space, at `pos`.
pub fn skip_slash_groups(input: &[u8], pos: usize) -> (end: usize)
    requires
        pos <= input.len(),
    ensures
        end == slash_groups_end(input@, pos as int),
        pos <= end <= input.len(),
{
    let mut i: usize = pos;
    loop
        invariant
            pos <= i <= input.len(),
            slash_groups_end(input@, pos as int) == slash_groups_end(input@, i as int),
        decreases input.len() - i,
    {
        let e = skip_run(input, i, SLASH);
        if i < e && peek(input, e, SPACE) {
            i = e + 1;
        } else {
            return i;
        }
    }
}

/// Skips the repetitions of `M` and a space at `pos`.
pub fn skip_m_groups(input: &[u8], pos: usize) -> (end: usize)
    requires
        pos <= input.len(),
    ensures
        end == m_groups_end(input@, pos as int),
        pos <= end <= input.len(),
{
    let mut i: usize = pos;
    while peek(input, i, LETTER_M) && peek(input, i + 1, SPACE)
        invariant
            pos <= i <= input.len(),
            m_groups_end(input@, pos as int) == m_groups_end(input@, i as int),
        decreases input.len() - i,
    {
        i += 2;
    }
    i
}

/// Consumes one blank at `pos`.
pub fn eat_blank(input: &[u8], pos: usize) -> (r: Option<usize>)
    requires
        pos <= input.len(),
    ensures
        agrees_at(r, blank(input@, pos as int), pos, input.len()),
{
    if peek(input, pos, SPACE) {
        let a = skip_slash_groups(input, pos + 1);
        if a > pos + 1 {
            return Some(a);
        }
        let b = skip_m_groups(input, pos + 1);
        if b > pos + 1 {
            Some(b)
        } else {
            Some(pos + 1)
        }
    } else if peek(input, pos, CARRIAGE_RETURN) && peek(input, pos + 1, LINE_FEED) {
        Some(pos + 2)
    } else if peek(input, pos, LINE_FEED) {
        Some(pos + 1)
    } else if peek(input, pos, TAB) && peek(input, pos + 1, GREATER) {
        Some(pos + 2)
    } else if peek(input, pos, TAB) {
        Some(pos + 1)
    } else {
        None
    }
}

/// Skips the run of blanks at `pos`.
pub fn skip_blanks(input: &[u8], pos: usize) -> (end: usize)
    requires
        pos <= input.len(),
    ensures
        end == blanks_end(input@, pos as int),
        pos <= end <= input.len(),
{
    let mut i: usize = pos;
    loop
        invariant
            pos <= i <= input.len(),
            blanks_end(input@, pos as int) == blanks_end(input@, i as int),
        decreases input.len() - i,
    {
        match eat_blank(input, i) {
            Some(p) => {
                if i < p {
                    i = p;
                } else {
                    return i;
                }
            },
            None => {
                return i;
            },
        }
    }
}

/// One or more blanks, and the `>` that may end them.
pub fn eat_required_whitespace(input: &[u8], pos: usize) -> (r: Option<usize>)
    requires
        pos <= input.len(),
    ensures
        agrees_at(r, required_whitespace(input@, pos as int), pos, input.len()),
        r matches Some(p) ==> pos < p,
{
    reveal(required_whitespace);
    let e = skip_blanks(input, pos);
    if e <= pos {
        None
    } else if peek(input, e, GREATER) {
        Some(e + 1)
    } else {
        Some(e)
    }
}

/// Skips whitespace where there is any.
pub fn skip_whitespace(input: &[u8], pos: usize) -> (end: usize)
    requires
        pos <= input.len(),
    ensures
        end == whitespace(input@, pos as int),
        pos <= end <= input.len(),
{
    match eat_required_whitespace(input, pos) {
        Some(p) => p,
        None => pos,
    }
}

/// Whether a token may end at `pos`.
pub fn boundary_here(input: &[u8], pos: usize) -> (b: bool)
    requires
        pos <= input.len(),
    ensures
        b == at_boundary(input@, pos as int),
{
    eat_required_whitespace(input, pos).is_some() || pos >= input.len()
}

/// Consumes whitespace at `pos`, or finds the end of the input there.
pub fn eat_whitespace_or_end(input: &[u8], pos: usize) -> (r: Option<usize>)
    requires
        pos <= input.len(),
    ensures
        agrees_at(r, whitespace_or_end(input@, pos as int), pos, input.len()),
{
    match eat_required_whitespace(input, pos) {
        Some(p) => Some(p),
        None => if pos >= input.len() {
            Some(pos)
        } else {
            None
        },
    }
}

/// Whether the byte at `pos` is a letter or a digit.
pub fn letter_or_digit_here(input: &[u8], pos: usize) -> (b: bool)
    requires
        pos <= input.len(),
    ensures
        b == letter_or_digit_at(input@, pos as int),
{
    letter_here(input, pos) || digit_here(input, pos)
}

/// Reads a station identifier at `pos`.
pub fn eat_icao_identifier(input: &[u8], pos: usize) -> (r: Option<(Span, usize)>)
    requires
        pos <= input.len(),
    ensures
        agrees(r, icao_identifier(input@, pos as int), pos, input.len()),
        r matches Some((id, _)) ==> id.lies_within(input.len()) && id.end - id.start == 4,
{
    if letter_here(input, pos) && letter_or_digit_here(input, pos + 1) && letter_or_digit_here(
        input,
        pos + 2,
    ) && letter_or_digit_here(input, pos + 3) {
        Some((Span { start: pos, end: pos + 4 }, pos + 4))
    } else {
        None
    }
}

/// The keyword `lit` at `pos`, standing for `v`.
pub open spec fn keyword<T>(s: Seq<u8>, pos: int, lit: &str, v: T) -> Option<(T, int)> {
    match after(s, pos, lit) {
        Some(p) => Some((v, p)),
        None => None,
    }
}

/// Ordered choice: `a` where it matched, else `b`.
pub open spec fn or<T>(a: Option<T>, b: Option<T>) -> Option<T> {
    if a is Some {
        a
    } else {
        b
    }
}

/// An optional literal: whether it stood at `pos`, and the position after it.
pub open spec fn maybe(s: Seq<u8>, pos: int, lit: &str) -> (bool, int) {
    match after(s, pos, lit) {
        Some(p) => (true, p),
        None => (false, pos),
    }
}

/// An optional group: what `r` yielded, or nothing at `pos`.
pub open spec fn optional<T>(r: Option<(T, int)>, pos: int) -> (Option<T>, int) {
    match r {
        Some((v, e)) => (Some(v), e),
        None => (None, pos),
    }
}

/// An optional group that may itself report nothing.
pub open spec fn flattened<T>(r: Option<(Option<T>, int)>, pos: int) -> (Option<T>, int) {
    match r {
        Some((v, e)) => (v, e),
        None => (None, pos),
    }
}

/// The number that two digits at `pos` write.
pub open spec fn two_digit_value(s: Seq<u8>, pos: int) -> u8
    recommends
        digit_at(s, pos),
        digit_at(s, pos + 1),
{
    ((s[pos] - 48) * 10 + (s[pos + 1] - 48)) as u8
}

/// Digits, with decimal places where a point and digits follow them.
pub open spec fn decimal(s: Seq<u8>, pos: int) -> Option<(Amount, int)> {
    match digits(s, pos) {
        None => None,
        Some(p) => match after(s, p, ".") {
            None => Some((Amount::Whole(number(s, pos, p)), p)),
            Some(q) => match digits(s, q) {
                None => Some((Amount::Whole(number(s, pos, p)), p)),
                Some(e) => Some(
                    (
                        Amount::Decimal {
                            whole: number(s, pos, p),
                            fraction: number(s, q, e),
                            places: (e - q) as usize,
                        },
                        e,
                    ),
                ),
            },
        },
    }
}

/// Digits, a point and digits: a number with decimal places.
pub open spec fn pointed_decimal(s: Seq<u8>, pos: int) -> Option<(Amount, int)> {
    match decimal(s, pos) {
        Some((Amount::Decimal { whole, fraction, places }, e)) => Some(
            (Amount::Decimal { whole, fraction, places }, e),
        ),
        _ => None,
    }
}

/// One or more digits, as a whole number.
pub open spec fn whole_number(s: Seq<u8>, pos: int) -> Option<(u64, int)> {
    match digits(s, pos) {
        Some(p) => Some((number(s, pos, p), p)),
        None => None,
    }
}

/// Consumes the keyword `lit` at `pos` and yields `v` for it.
pub fn eat_keyword<T>(input: &[u8], pos: usize, lit: &str, v: T) -> (r: Option<(T, usize)>)
    requires
        pos <= input.len(),
    ensures
        agrees(r, keyword(input@, pos as int, lit, v), pos, input.len()),
{
    match eat(input, pos, lit) {
        Some(p) => Some((v, p)),
        None => None,
    }
}

/// Makes a group optional: what `r` yielded, or nothing at `pos`.
pub fn optional_at<T>(r: Option<(T, usize)>, pos: usize) -> (o: (Option<T>, usize))
    ensures
        o == match r {
            Some((v, e)) => (Some(v), e),
            None => (None, pos),
        },
{
    match r {
        Some((v, e)) => (Some(v), e),
        None => (None, pos),
    }
}

/// Makes optional a group that may itself report nothing.
pub fn flattened_at<T>(r: Option<(Option<T>, usize)>, pos: usize) -> (o: (Option<T>, usize))
    ensures
        o == match r {
            Some((v, e)) => (v, e),
            None => (None, pos),
        },
{
    match r {
        Some((v, e)) => (v, e),
        None => (None, pos),
    }
}

/// Consumes `lit` at `pos` where it stands there.
pub fn eat_maybe(input: &[u8], pos: usize, lit: &str) -> (r: (bool, usize))
    requires
        pos <= input.len(),
    ensures
        r.0 == maybe(input@, pos as int, lit).0,
        r.1 == maybe(input@, pos as int, lit).1,
        pos <= r.1 <= input.len(),
{
    match eat(input, pos, lit) {
        Some(p) => (true, p),
        None => (false, pos),
    }
}

/// The number that the two digits at `pos` write.
pub fn read_two_digits(input: &[u8], pos: usize) -> (n: u8)
    requires
        digit_at(input@, pos as int),
        digit_at(input@, pos + 1),
    ensures
        n == two_digit_value(input@, pos as int),
{
    (input[pos] - 48) * 10 + (input[pos + 1] - 48)
}

/// Reads digits, with decimal places where a point and digits follow.
pub fn eat_decimal(input: &[u8], pos: usize) -> (r: Option<(Amount, usize)>)
    requires
        pos <= input.len(),
    ensures
        agrees(r, decimal(input@, pos as int), pos, input.len()),
        r matches Some((_, p)) ==> pos < p,
{
    match eat_digits(input, pos) {
        None => None,
        Some(p) => {
            let whole = read_number(input, pos, p);
            match eat(input, p, ".") {
                None => Some((Amount::Whole(whole), p)),
                Some(q) => match eat_digits(input, q) {
                    None => Some((Amount::Whole(whole), p)),
                    Some(e) => {
                        let fraction = read_number(input, q, e);
                        Some((Amount::Decimal { whole, fraction, places: e - q }, e))
                    },
                },
            }
        },
    }
}

/// Reads digits, a point and digits.
pub fn eat_pointed_decimal(input: &[u8], pos: usize) -> (r: Option<(Amount, usize)>)
    requires
        pos <= input.len(),
    ensures
        agrees(r, pointed_decimal(input@, pos as int), pos, input.len()),
{
    match eat_decimal(input, pos) {
        Some((Amount::Decimal { whole, fraction, places }, e)) => Some(
            (Amount::Decimal { whole, fraction, places }, e),
        ),
        _ => None,
    }
}

/// Reads one or more digits as a whole number.
pub fn eat_whole_number(input: &[u8], pos: usize) -> (r: Option<(u64, usize)>)
    requires
        pos <= input.len(),
    ensures
        agrees(r, whole_number(input@, pos as int), pos, input.len()),
        r matches Some((_, p)) ==> pos < p,
{
    match eat_digits(input, pos) {
        Some(p) => Some((read_number(input, pos, p), p)),
        None => None,
    }
}

} // verus!
