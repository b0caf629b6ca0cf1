//! Scanning of identifier strings: upper-casing, prefix tests, and the
//! hexadecimal value that follows a token such as `REV_` or `MI_`.

use vstd::prelude::*;
use vstd::arithmetic::div_mod::{lemma_add_mod_noop, lemma_mul_mod_noop_left, lemma_small_mod};
use crate::utf16::{
    decode_utf16_lossy, encode_utf16, leading_scalar, leading_width, utf16_units,
};

verus! {

/// An ASCII lower-case letter becomes its upper-case letter; every other unit
/// stays.
pub open spec fn upper_unit(unit: u16) -> u16 {
    if 0x61 <= unit <= 0x7A {
        (unit - 0x20) as u16
    } else {
        unit
    }
}

/// The units with every ASCII letter in upper case.
pub open spec fn upper_units(units: Seq<u16>) -> Seq<u16> {
    Seq::new(units.len(), |i: int| upper_unit(units[i]))
}

/// Puts every ASCII letter among the units in upper case, in place.
pub fn to_upper(u16str: &mut [u16])
    ensures
        final(u16str)@ == upper_units(old(u16str)@),
{
    let len: usize = u16str.len();
    let mut i: usize = 0;
    while i < len
        invariant
            i <= len,
            len == u16str@.len(),
            u16str@.len() == old(u16str)@.len(),
            forall|j: int| 0 <= j < i ==> u16str@[j] == upper_unit(old(u16str)@[j]),
            forall|j: int| i <= j < len ==> u16str@[j] == old(u16str)@[j],
        decreases len - i,
    {
        let unit: u16 = u16str[i];
        if 0x61 <= unit && unit <= 0x7A {
            u16str[i] = unit - 0x20;
        }
        i = i + 1;
    }
    assert(u16str@ =~= upper_units(old(u16str)@));
}

/// The pattern stands in the haystack at position `at`.
pub open spec fn occurs_at(haystack: Seq<u16>, pattern: Seq<u16>, at: int) -> bool {
    0 <= at && at + pattern.len() <= haystack.len() && haystack.subrange(
        at,
        at + pattern.len(),
    ) == pattern
}

/// The first position at or after `from` at which the pattern stands.
pub open spec fn first_occurrence_from(haystack: Seq<u16>, pattern: Seq<u16>, from: int) -> Option<
    int,
>
    decreases haystack.len() + 1 - from,
{
    if from < 0 || from + pattern.len() > haystack.len() {
        None
    } else if occurs_at(haystack, pattern, from) {
        Some(from)
    } else {
        first_occurrence_from(haystack, pattern, from + 1)
    }
}

/// The first position at which the pattern stands in the haystack.
pub open spec fn first_occurrence(haystack: Seq<u16>, pattern: Seq<u16>) -> Option<int> {
    first_occurrence_from(haystack, pattern, 0)
}

/// What `first_occurrence_from` finds is an occurrence with none between
/// `from` and it; where it finds nothing, there is none from `from` on.
pub proof fn lemma_first_occurrence_from(haystack: Seq<u16>, pattern: Seq<u16>, from: int)
    requires
        0 <= from,
    ensures
        match first_occurrence_from(haystack, pattern, from) {
            Some(at) => from <= at && occurs_at(haystack, pattern, at) && forall|j: int|
                from <= j < at ==> !occurs_at(haystack, pattern, j),
            None => forall|j: int| from <= j ==> !occurs_at(haystack, pattern, j),
        },
    decreases haystack.len() + 1 - from,
{
    if from + pattern.len() > haystack.len() {
    } else if occurs_at(haystack, pattern, from) {
    } else {
        lemma_first_occurrence_from(haystack, pattern, from + 1);
    }
}

/// `first_occurrence` is the least position at which the pattern stands, and
/// is absent exactly when it stands nowhere.
pub proof fn lemma_first_occurrence(haystack: Seq<u16>, pattern: Seq<u16>)
    ensures
        match first_occurrence(haystack, pattern) {
            Some(at) => occurs_at(haystack, pattern, at) && forall|j: int|
                j < at ==> !occurs_at(haystack, pattern, j),
            None => forall|j: int| !occurs_at(haystack, pattern, j),
        },
{
    lemma_first_occurrence_from(haystack, pattern, 0);
}

/// In a haystack put in upper case, a pattern stands exactly where it stands
/// in the haystack itself with the case of the haystack's ASCII letters set
/// aside. So a search for an upper-case token in the upper-cased haystack
/// ignores the case of the haystack.
pub proof fn lemma_occurs_in_upper(haystack: Seq<u16>, pattern: Seq<u16>, at: int)
    ensures
        occurs_at(upper_units(haystack), pattern, at) <==> 0 <= at && at + pattern.len()
            <= haystack.len() && forall|k: int|
            0 <= k < pattern.len() ==> upper_unit(#[trigger] haystack[at + k]) == pattern[k],
{
    let upper = upper_units(haystack);
    if 0 <= at && at + pattern.len() <= haystack.len() {
        let window = upper.subrange(at, at + pattern.len());
        if window == pattern {
            assert forall|k: int| 0 <= k < pattern.len() implies upper_unit(
                #[trigger] haystack[at + k],
            ) == pattern[k] by {
                assert(window[k] == upper[at + k]);
            }
        }
        if forall|k: int|
            0 <= k < pattern.len() ==> upper_unit(#[trigger] haystack[at + k]) == pattern[k] {
            assert forall|k: int| 0 <= k < pattern.len() implies window[k] == pattern[k] by {
                assert(window[k] == upper[at + k]);
                assert(upper[at + k] == upper_unit(haystack[at + k]));
            }
            assert(window =~= pattern);
        }
    }
}

/// Whether the pattern's units stand in the haystack at `at`.
fn matches_at(haystack: &[u16], pattern: &Vec<u16>, at: usize) -> (found: bool)
    requires
        at + pattern@.len() <= haystack@.len(),
    ensures
        found == occurs_at(haystack@, pattern@, at as int),
{
    let len: usize = haystack.len();
    let width: usize = pattern.len();
    let mut k: usize = 0;
    while k < width
        invariant
            k <= width,
            width == pattern@.len(),
            len == haystack@.len(),
            at + width <= len,
            forall|j: int| 0 <= j < k ==> haystack@[at + j] == pattern@[j],
        decreases width - k,
    {
        if haystack[at + k] != pattern[k] {
            assert(haystack@.subrange(at as int, at + width)[k as int] != pattern@[k as int]);
            return false;
        }
        k = k + 1;
    }
    assert(haystack@.subrange(at as int, at + width) =~= pattern@);
    true
}

/// The first position at which the pattern, written in UTF-16, stands in the
/// units. The comparison is exact: a caller that wants to ignore case puts
/// the units in upper case first and passes an upper-case pattern.
pub fn find_first_upper_case(u16str: &[u16], pattern: &str) -> (position: Option<usize>)
    ensures
        match position {
            Some(at) => first_occurrence(u16str@, encode_utf16(pattern@)) == Some(at as int),
            None => first_occurrence(u16str@, encode_utf16(pattern@)) is None,
        },
        match position {
            Some(at) => occurs_at(u16str@, encode_utf16(pattern@), at as int) && forall|j: int|
                j < at ==> !occurs_at(u16str@, encode_utf16(pattern@), j),
            None => forall|j: int| !occurs_at(u16str@, encode_utf16(pattern@), j),
        },
{
    let units: Vec<u16> = utf16_units(pattern);
    proof {
        lemma_first_occurrence(u16str@, units@);
    }
    let len: usize = u16str.len();
    let width: usize = units.len();
    if width > len {
        return None;
    }
    let last: usize = len - width;
    let mut at: usize = 0;
    loop
        invariant
            at <= last,
            last + width == len,
            len == u16str@.len(),
            width == units@.len(),
            units@ == encode_utf16(pattern@),
            first_occurrence(u16str@, units@) == first_occurrence_from(
                u16str@,
                units@,
                at as int,
            ),
            match first_occurrence(u16str@, units@) {
                Some(at) => occurs_at(u16str@, units@, at) && forall|j: int|
                    j < at ==> !occurs_at(u16str@, units@, j),
                None => forall|j: int| !occurs_at(u16str@, units@, j),
            },
        decreases last - at,
    {
        if matches_at(u16str, &units, at) {
            return Some(at);
        }
        if at == last {
            assert(first_occurrence_from(u16str@, units@, at + 1) is None);
            return None;
        }
        at = at + 1;
    }
}

/// The value of a unit that is a hexadecimal digit, in either case.
pub open spec fn hex_digit(unit: u16) -> Option<int> {
    if 0x30 <= unit <= 0x39 {
        Some(unit - 0x30)
    } else if 0x41 <= unit <= 0x46 {
        Some(unit - 0x41 + 10)
    } else if 0x61 <= unit <= 0x66 {
        Some(unit - 0x61 + 10)
    } else {
        None
    }
}

/// How many hexadecimal digits the units begin with.
pub open spec fn hex_run(units: Seq<u16>) -> nat
    decreases units.len(),
{
    if units.len() > 0 && hex_digit(units[0]) is Some {
        1 + hex_run(units.drop_first())
    } else {
        0
    }
}

/// The number that hexadecimal digits write, most significant digit first.
pub open spec fn hex_value(digits: Seq<u16>) -> nat
    decreases digits.len(),
{
    if digits.len() == 0 {
        0
    } else {
        (hex_value(digits.drop_last()) * 16 + hex_digit(digits.last()).unwrap_or(0)) as nat
    }
}

/// `hex_run` is the length of the longest prefix made of hexadecimal digits:
/// every unit before it is a digit, and the unit at it, if there is one, is
/// none.
pub proof fn lemma_hex_run(units: Seq<u16>)
    ensures
        hex_run(units) <= units.len(),
        forall|j: int| 0 <= j < hex_run(units) ==> hex_digit(#[trigger] units[j]) is Some,
        hex_run(units) < units.len() ==> hex_digit(units[hex_run(units) as int]) is None,
    decreases units.len(),
{
    if units.len() > 0 && hex_digit(units[0]) is Some {
        let rest = units.drop_first();
        lemma_hex_run(rest);
        assert forall|j: int| 0 <= j < hex_run(units) implies hex_digit(
            #[trigger] units[j],
        ) is Some by {
            if j > 0 {
                assert(units[j] == rest[j - 1]);
            }
        }
        if hex_run(units) < units.len() {
            assert(units[hex_run(units) as int] == rest[hex_run(rest) as int]);
        }
    }
}

/// The value written in hexadecimal digits directly behind the first
/// occurrence of the token, reduced modulo 2^32. It is absent where the token
/// does not occur, or where no digit follows its first occurrence.
pub open spec fn token_value(haystack: Seq<u16>, token: Seq<u16>) -> Option<u32> {
    match first_occurrence(haystack, token) {
        None => None,
        Some(at) => {
            let rest = haystack.skip(at + token.len());
            let digits = rest.take(hex_run(rest) as int);
            if digits.len() == 0 {
                None
            } else {
                Some((hex_value(digits) % 0x1_0000_0000) as u32)
            }
        },
    }
}

proof fn lemma_fold_digit(value: nat, accumulated: u32, digit: u32)
    requires
        accumulated == value % 0x1_0000_0000,
        digit < 16,
    ensures
        accumulated.wrapping_mul(16).wrapping_add(digit) == (value * 16 + digit) % 0x1_0000_0000,
{
    let m: int = 0x1_0000_0000;
    let v: int = value as int;
    let shifted = accumulated.wrapping_mul(16);
    assert(shifted == (accumulated * 16) % m);
    lemma_mul_mod_noop_left(v, 16, m);
    assert(shifted == (v * 16) % m);
    lemma_add_mod_noop(v * 16, digit as int, m);
    lemma_small_mod(digit as nat, m as nat);
    assert((shifted + digit) % m == (v * 16 + digit) % m);
    if shifted + digit > u32::MAX {
        assert((shifted + digit) % m == shifted + digit - m) by (nonlinear_arith)
            requires
                m <= shifted + digit < 2 * m,
                m == 0x1_0000_0000,
        ;
    } else {
        lemma_small_mod((shifted + digit) as nat, m as nat);
    }
}

/// The value of a unit as a hexadecimal digit.
fn hex_digit_of(unit: u16) -> (digit: Option<u32>)
    ensures
        match digit {
            Some(d) => hex_digit(unit) == Some(d as int) && d < 16,
            None => hex_digit(unit) is None,
        },
{
    if 0x30 <= unit && unit <= 0x39 {
        Some((unit - 0x30) as u32)
    } else if 0x41 <= unit && unit <= 0x46 {
        Some((unit - 0x41 + 10) as u32)
    } else if 0x61 <= unit && unit <= 0x66 {
        Some((unit - 0x61 + 10) as u32)
    } else {
        None
    }
}

/// Reads the hexadecimal number that directly follows the first occurrence of
/// the token: as many digits as stand there, in either case, folded into a
/// `u32` most significant digit first, wrapping round at 2^32.
pub fn extract_int_token_value(u16str: &[u16], token: &str) -> (value: Option<u32>)
    ensures
        value == token_value(u16str@, encode_utf16(token@)),
{
    let position: Option<usize> = find_first_upper_case(u16str, token);
    let at: usize = match position {
        Some(at) => at,
        None => {
            return None;
        },
    };
    let width: usize = utf16_units(token).len();
    let len: usize = u16str.len();
    let start: usize = at + width;
    let ghost rest = u16str@.skip(start as int);
    proof {
        lemma_hex_run(rest);
    }
    let mut next: usize = start;
    let mut accumulated: u32 = 0;
    while next < len && hex_digit_of(u16str[next]).is_some()
        invariant
            start <= next <= len,
            len == u16str@.len(),
            rest == u16str@.skip(start as int),
            forall|j: int| 0 <= j < next - start ==> hex_digit(#[trigger] rest[j]) is Some,
            accumulated == hex_value(rest.take(next - start)) % 0x1_0000_0000,
        decreases len - next,
    {
        let digit: u32 = match hex_digit_of(u16str[next]) {
            Some(d) => d,
            None => 0,
        };
        proof {
            let before = rest.take(next - start);
            let after = rest.take(next - start + 1);
            assert(after.drop_last() == before);
            assert(after.last() == u16str@[next as int]);
            lemma_fold_digit(hex_value(before), accumulated, digit);
        }
        accumulated = accumulated.wrapping_mul(16).wrapping_add(digit);
        next = next + 1;
    }
    proof {
        let run = hex_run(rest);
        if next < len {
            assert(rest[next - start] == u16str@[next as int]);
        }
        assert(run == next - start) by {
            if run < next - start {
                assert(hex_digit(rest[run as int]) is Some);
            }
        }
    }
    if next == start {
        None
    } else {
        Some(accumulated)
    }
}

/// The scalar value of a character with an ASCII upper-case letter replaced
/// by its lower-case letter.
pub open spec fn fold_case(c: char) -> int {
    if 0x41 <= (c as int) <= 0x5A {
        c as int + 0x20
    } else {
        c as int
    }
}

/// Two characters are equal, or are the two cases of one ASCII letter.
pub open spec fn eq_ignore_ascii_case(a: char, b: char) -> bool {
    fold_case(a) == fold_case(b)
}

/// The text begins with the pattern, the case of ASCII letters aside. A text
/// shorter than the pattern does not begin with it.
pub open spec fn has_prefix_ignore_case(text: Seq<char>, pattern: Seq<char>) -> bool {
    pattern.len() <= text.len() && forall|i: int|
        0 <= i < pattern.len() ==> eq_ignore_ascii_case(#[trigger] text[i], pattern[i])
}

/// Decodes the character that begins at `at`: its scalar value, and how many
/// units it takes.
fn scalar_at(units: &[u16], at: usize) -> (decoded: (u32, usize))
    requires
        at < units@.len(),
    ensures
        decoded.0 == leading_scalar(units@.skip(at as int)),
        decoded.1 == leading_width(units@.skip(at as int)),
        at + decoded.1 <= units@.len(),
        decoded.0 == (decoded.0 as char) as u32,
{
    let len: usize = units.len();
    let first: u16 = units[at];
    let ghost tail = units@.skip(at as int);
    assert(tail[0] == first);
    if 0xD800 <= first && first <= 0xDBFF && at + 1 < len {
        let second: u16 = units[at + 1];
        assert(tail[1] == second);
        if 0xDC00 <= second && second <= 0xDFFF {
            let high: u32 = (first - 0xD800) as u32;
            let low: u32 = (second - 0xDC00) as u32;
            return (0x10000 + high * 0x400 + low, 2);
        }
    }
    if 0xD800 <= first && first <= 0xDFFF {
        (0xFFFD, 1)
    } else {
        (first as u32, 1)
    }
}

fn fold_scalar(scalar: u32) -> (folded: u32)
    requires
        scalar <= 0x10FFFF,
    ensures
        folded == if 0x41 <= scalar <= 0x5A {
            scalar + 0x20
        } else {
            scalar as int
        },
{
    if 0x41 <= scalar && scalar <= 0x5A {
        scalar + 0x20
    } else {
        scalar
    }
}

/// Whether the text that the units encode begins with the pattern, the case
/// of ASCII letters aside. The units are decoded as UTF-16, with U+FFFD for a
/// surrogate that has no partner.
pub fn starts_with_ignore_case(utf16str: &[u16], pattern: &str) -> (matches: bool)
    ensures
        matches == has_prefix_ignore_case(decode_utf16_lossy(utf16str@), pattern@),
{
    let len: usize = utf16str.len();
    let count: usize = pattern.unicode_len();
    let ghost text = decode_utf16_lossy(utf16str@);
    let mut next: usize = 0;
    let mut done: usize = 0;
    assert(utf16str@.skip(0) == utf16str@);
    assert(text.skip(0) == text);
    while done < count
        invariant
            done <= count,
            count == pattern@.len(),
            next <= len,
            len == utf16str@.len(),
            text == decode_utf16_lossy(utf16str@),
            done <= text.len(),
            decode_utf16_lossy(utf16str@.skip(next as int)) == text.skip(done as int),
            forall|i: int| 0 <= i < done ==> eq_ignore_ascii_case(#[trigger] text[i], pattern@[i]),
        decreases count - done,
    {
        let ghost tail = utf16str@.skip(next as int);
        if next >= len {
            assert(tail.len() == 0);
            assert(text.skip(done as int).len() == 0);
            return false;
        }
        let (scalar, width) = scalar_at(utf16str, next);
        let wanted: char = pattern.get_char(done);
        proof {
            let decoded = decode_utf16_lossy(tail);
            assert(decoded == seq![leading_scalar(tail) as char] + decode_utf16_lossy(
                tail.skip(leading_width(tail)),
            ));
            assert(decoded[0] == scalar as char);
            assert(text[done as int] == text.skip(done as int)[0]);
            assert(tail.skip(width as int) == utf16str@.skip(next + width));
            assert(decoded.skip(1) == decode_utf16_lossy(tail.skip(width as int)));
            assert(text.skip(done as int).skip(1) == text.skip(done + 1));
        }
        if fold_scalar(scalar) != fold_scalar(wanted as u32) {
            return false;
        }
        next = next + width;
        done = done + 1;
    }
    true
}

} // verus!
