//! Strings read from the platform: text where the code units decode, the raw
//! units where they do not.

use vstd::prelude::*;
use vstd::slice::{slice_subrange, slice_to_vec};
use crate::list::{nul_position, until_nul};
use crate::utf16::{
    decode_utf16_lossy, is_surrogate, leading_scalar, leading_well_formed, leading_width,
    well_formed_utf16,
};

verus! {

/// A string as the platform gave it.
#[derive(Clone, Debug, PartialEq, Eq)]
pub enum WcharString {
    /// The units decoded as text.
    String(String),
    /// The units did not decode: they are kept as they came.
    Raw(Vec<u16>),
    /// The platform gave no string.
    Absent,
}

/// What a `WcharString` holds.
pub enum WcharStringView {
    String(Seq<char>),
    Raw(Seq<u16>),
    Absent,
}

impl View for WcharString {
    type V = WcharStringView;

    open spec fn view(&self) -> WcharStringView {
        match self {
            WcharString::String(text) => WcharStringView::String(text@),
            WcharString::Raw(units) => WcharStringView::Raw(units@),
            WcharString::Absent => WcharStringView::Absent,
        }
    }
}

/// The string holds no text: it is raw, absent, or text of length zero.
pub open spec fn is_blank(string: WcharStringView) -> bool {
    match string {
        WcharStringView::String(text) => text.len() == 0,
        _ => true,
    }
}

impl WcharString {
    /// Whether the string holds no text: raw units and an absent string count
    /// as none.
    pub fn is_blank(&self) -> (blank: bool)
        ensures
            blank == is_blank(self@),
    {
        match self {
            WcharString::String(text) => text.as_str().is_empty(),
            _ => true,
        }
    }

    /// The text, if the string is text.
    pub fn into_text(self) -> (text: Option<String>)
        ensures
            match text {
                Some(held) => self@ == WcharStringView::String(held@),
                None => !(self@ is String),
            },
    {
        match self {
            WcharString::String(text) => Some(text),
            _ => None,
        }
    }

    /// The empty text.
    pub fn empty() -> (string: WcharString)
        ensures
            string@ == WcharStringView::String(Seq::<char>::empty()),
    {
        WcharString::String(String::new())
    }
}

/// The string that units stand for: their text where every surrogate is
/// paired, else the units themselves, so that nothing is lost.
pub open spec fn wstring_of(units: Seq<u16>) -> WcharStringView {
    if well_formed_utf16(units) {
        WcharStringView::String(decode_utf16_lossy(units))
    } else {
        WcharStringView::Raw(units)
    }
}

/// `String::from_utf16` of std, with its error dropped. The text is there
/// exactly when every surrogate among the units is half of a pair, and is
/// then the characters that the units encode.
#[verifier::external_body]
pub(crate) fn string_from_utf16(units: &[u16]) -> (text: Option<String>)
    ensures
        text is Some <==> well_formed_utf16(units@),
        text matches Some(decoded) ==> decoded@ == decode_utf16_lossy(units@),
{
    String::from_utf16(units).ok()
}

/// Decodes units into a string, keeping the raw units where they are not
/// well-formed UTF-16.
pub fn u16str_to_wstring(u16str: &[u16]) -> (string: WcharString)
    ensures
        string@ == wstring_of(u16str@),
{
    match string_from_utf16(u16str) {
        Some(text) => WcharString::String(text),
        None => WcharString::Raw(slice_to_vec(u16str)),
    }
}

/// The characters whose scalar values are the units, one character for each.
pub open spec fn units_as_chars(units: Seq<u16>) -> Seq<char> {
    Seq::new(units.len(), |i: int| units[i] as char)
}

/// The string that a NUL-terminated wide string stands for when each unit is
/// read as one character: the text before the first NUL, or those units
/// themselves where one of them is a surrogate and so no character.
pub open spec fn wide_string_of(units: Seq<u16>) -> WcharStringView {
    let text = until_nul(units);
    if exists|i: int| 0 <= i < text.len() && is_surrogate(#[trigger] text[i]) {
        WcharStringView::Raw(text)
    } else {
        WcharStringView::String(units_as_chars(text))
    }
}

/// Units without a surrogate are well-formed, and encode one character each.
pub proof fn lemma_no_surrogate_decodes(units: Seq<u16>)
    requires
        forall|i: int| 0 <= i < units.len() ==> !is_surrogate(#[trigger] units[i]),
    ensures
        well_formed_utf16(units),
        decode_utf16_lossy(units) == units_as_chars(units),
    decreases units.len(),
{
    if units.len() > 0 {
        let rest = units.skip(1);
        assert forall|i: int| 0 <= i < rest.len() implies !is_surrogate(#[trigger] rest[i]) by {
            assert(rest[i] == units[i + 1]);
        }
        lemma_no_surrogate_decodes(rest);
        assert(!is_surrogate(units[0]));
        assert(leading_width(units) == 1);
        assert(leading_well_formed(units));
        assert(leading_scalar(units) == units[0]);
        assert(decode_utf16_lossy(units) =~= units_as_chars(units));
    } else {
        assert(decode_utf16_lossy(units) =~= units_as_chars(units));
    }
}

/// Reads a wide string that ends at its first NUL, one character for each
/// unit. Without a string there is nothing to read.
pub fn wchar_to_string(wstr: Option<&[u16]>) -> (string: WcharString)
    ensures
        string@ == match wstr {
            Some(units) => wide_string_of(units@),
            None => WcharStringView::Absent,
        },
{
    let units: &[u16] = match wstr {
        Some(units) => units,
        None => {
            return WcharString::Absent;
        },
    };
    let end: usize = nul_position(units, 0);
    assert(units@.skip(0) == units@);
    let text: &[u16] = slice_subrange(units, 0, end);
    assert(text@ == until_nul(units@));
    let mut i: usize = 0;
    while i < end
        invariant
            i <= end,
            end == text@.len(),
            wstr == Some(units),
            text@ == until_nul(units@),
            forall|j: int| 0 <= j < i ==> !is_surrogate(#[trigger] text@[j]),
        decreases end - i,
    {
        let unit: u16 = text[i];
        if 0xD800 <= unit && unit <= 0xDFFF {
            assert(is_surrogate(text@[i as int]));
            return WcharString::Raw(slice_to_vec(text));
        }
        i = i + 1;
    }
    proof {
        lemma_no_surrogate_decodes(text@);
    }
    u16str_to_wstring(text)
}

/// The string that a query wrote into a buffer: what stands before the first
/// NUL when the query succeeded, the empty text when it failed.
pub open spec fn buffer_string(succeeded: bool, buffer: Seq<u16>) -> WcharStringView {
    if succeeded {
        wstring_of(until_nul(buffer))
    } else {
        WcharStringView::String(Seq::empty())
    }
}

/// Takes the string out of the buffer of a string query. A failed query gives
/// the empty text, not an absent string.
pub fn read_string(succeeded: bool, buffer: &[u16]) -> (string: WcharString)
    ensures
        string@ == buffer_string(succeeded, buffer@),
{
    if succeeded {
        let end: usize = nul_position(buffer, 0);
        assert(buffer@.skip(0) == buffer@);
        u16str_to_wstring(slice_subrange(buffer, 0, end))
    } else {
        WcharString::empty()
    }
}

} // verus!
