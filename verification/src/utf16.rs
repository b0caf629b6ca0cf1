//! UTF-16 code units: what a sequence of them encodes, and how text is
//! written in them.

use vstd::prelude::*;

verus! {

pub open spec fn is_high_surrogate(unit: u16) -> bool {
    0xD800 <= unit <= 0xDBFF
}

pub open spec fn is_low_surrogate(unit: u16) -> bool {
    0xDC00 <= unit <= 0xDFFF
}

pub open spec fn is_surrogate(unit: u16) -> bool {
    0xD800 <= unit <= 0xDFFF
}

/// The units begin with a high surrogate followed by a low one.
pub open spec fn starts_with_pair(units: Seq<u16>) -> bool {
    units.len() >= 2 && is_high_surrogate(units[0]) && is_low_surrogate(units[1])
}

/// The scalar value that a surrogate pair encodes.
pub open spec fn pair_scalar(high: u16, low: u16) -> int {
    0x10000 + (high - 0xD800) * 0x400 + (low - 0xDC00)
}

/// How many units the first encoded character takes.
pub open spec fn leading_width(units: Seq<u16>) -> int {
    if starts_with_pair(units) {
        2
    } else {
        1
    }
}

/// The first units encode a character: a pair, or a unit that is no surrogate.
pub open spec fn leading_well_formed(units: Seq<u16>) -> bool
    recommends
        units.len() > 0,
{
    starts_with_pair(units) || !is_surrogate(units[0])
}

/// The scalar value of the first encoded character, U+FFFD for a surrogate
/// that has no partner.
pub open spec fn leading_scalar(units: Seq<u16>) -> int
    recommends
        units.len() > 0,
{
    if starts_with_pair(units) {
        pair_scalar(units[0], units[1])
    } else if is_surrogate(units[0]) {
        0xFFFD
    } else {
        units[0] as int
    }
}

/// The text that the units encode, with U+FFFD in place of each surrogate
/// that has no partner.
pub open spec fn decode_utf16_lossy(units: Seq<u16>) -> Seq<char>
    decreases units.len(),
{
    if units.len() == 0 {
        Seq::empty()
    } else {
        seq![leading_scalar(units) as char] + decode_utf16_lossy(
            units.skip(leading_width(units)),
        )
    }
}

/// Every surrogate among the units is part of a pair.
pub open spec fn well_formed_utf16(units: Seq<u16>) -> bool
    decreases units.len(),
{
    units.len() == 0 || (leading_well_formed(units) && well_formed_utf16(
        units.skip(leading_width(units)),
    ))
}

/// The units that encode one character.
pub open spec fn char_units(c: char) -> Seq<u16> {
    let scalar = c as int;
    if scalar < 0x10000 {
        seq![scalar as u16]
    } else {
        seq![
            (0xD800 + (scalar - 0x10000) / 0x400) as u16,
            (0xDC00 + (scalar - 0x10000) % 0x400) as u16,
        ]
    }
}

/// The units that encode a text.
pub open spec fn encode_utf16(text: Seq<char>) -> Seq<u16>
    decreases text.len(),
{
    if text.len() == 0 {
        Seq::empty()
    } else {
        char_units(text[0]) + encode_utf16(text.drop_first())
    }
}

/// The units of a text with one more character are the units of the text
/// followed by those of the character.
pub proof fn lemma_encode_push(text: Seq<char>, c: char)
    ensures
        encode_utf16(text.push(c)) == encode_utf16(text) + char_units(c),
    decreases text.len(),
{
    let longer = text.push(c);
    if text.len() == 0 {
        assert(longer.drop_first() =~= Seq::<char>::empty());
        assert(encode_utf16(longer.drop_first()) =~= Seq::<u16>::empty());
        assert(encode_utf16(longer) =~= char_units(c));
        assert(encode_utf16(text) + char_units(c) =~= char_units(c));
    } else {
        lemma_encode_push(text.drop_first(), c);
        assert(longer.drop_first() =~= text.drop_first().push(c));
        assert(longer[0] == text[0]);
        assert(encode_utf16(longer) =~= encode_utf16(text) + char_units(c));
    }
}

/// Units that begin with the units of a character begin with a well-formed
/// encoding of that character, behind which the rest follows.
pub proof fn lemma_leading_char(c: char, rest: Seq<u16>)
    ensures
        leading_well_formed(char_units(c) + rest),
        leading_scalar(char_units(c) + rest) == c as int,
        (char_units(c) + rest).skip(leading_width(char_units(c) + rest)) == rest,
{
    let head = char_units(c);
    let units = head + rest;
    let scalar = c as int;
    assert(units[0] == head[0]);
    if scalar < 0x10000 {
        assert(head[0] == scalar);
        assert(units.skip(1) =~= rest);
    } else {
        let offset = scalar - 0x10000;
        assert(units[1] == head[1]);
        assert(head[0] == 0xD800 + offset / 0x400);
        assert(head[1] == 0xDC00 + offset % 0x400);
        assert(units.skip(2) =~= rest);
    }
}

/// What is written can be read: the units that encode a text are well
/// formed, and they decode to the text.
pub proof fn lemma_decode_encode(text: Seq<char>)
    ensures
        well_formed_utf16(encode_utf16(text)),
        decode_utf16_lossy(encode_utf16(text)) == text,
    decreases text.len(),
{
    if text.len() > 0 {
        let rest = text.drop_first();
        lemma_decode_encode(rest);
        lemma_leading_char(text[0], encode_utf16(rest));
        assert(decode_utf16_lossy(encode_utf16(text)) =~= text);
    }
}

/// Writes a text in UTF-16 code units.
pub fn utf16_units(text: &str) -> (units: Vec<u16>)
    ensures
        units@ == encode_utf16(text@),
{
    let mut units: Vec<u16> = Vec::new();
    let count: usize = text.unicode_len();
    let mut done: usize = 0;
    while done < count
        invariant
            done <= count,
            count == text@.len(),
            units@ == encode_utf16(text@.take(done as int)),
        decreases count - done,
    {
        let c: char = text.get_char(done);
        let scalar: u32 = c as u32;
        proof {
            assert(text@.take(done + 1) =~= text@.take(done as int).push(c));
            lemma_encode_push(text@.take(done as int), c);
        }
        if scalar < 0x10000 {
            units.push(scalar as u16);
        } else {
            let offset: u32 = scalar - 0x10000;
            units.push((0xD800 + offset / 0x400) as u16);
            units.push((0xDC00 + offset % 0x400) as u16);
        }
        assert(units@ == encode_utf16(text@.take(done as int)) + char_units(c));
        done = done + 1;
    }
    assert(text@.take(count as int) == text@);
    units
}

} // verus!
