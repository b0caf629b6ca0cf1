//! What the identifiers of a USB device node tell of the device: release and
//! interface number in its hardware identifiers, the serial number at the end
//! of its instance identifier.

use vstd::prelude::*;
use vstd::slice::{slice_subrange, slice_to_vec};
use crate::list::{entry_views, split_at_nul, split_entries};
use crate::token::{extract_int_token_value, to_upper, token_value, upper_units};
use crate::utf16::encode_utf16;
use crate::wstring::{u16str_to_wstring, wstring_of, WcharString};

verus! {

/// The value behind the token in the first identifier, in the order of the
/// list, that holds the token with a hexadecimal number behind it. The
/// identifiers are put in upper case before they are searched.
pub open spec fn first_token_value(ids: Seq<Seq<u16>>, token: Seq<u16>) -> Option<u32>
    decreases ids.len(),
{
    if ids.len() == 0 {
        None
    } else {
        match token_value(upper_units(ids[0]), token) {
            Some(value) => Some(value),
            None => first_token_value(ids.drop_first(), token),
        }
    }
}

/// The first identifier that gives a value decides, whatever follows it; and
/// there is no value exactly when no identifier gives one.
pub proof fn lemma_first_token_value(ids: Seq<Seq<u16>>, token: Seq<u16>)
    ensures
        first_token_value(ids, token) is None <==> forall|i: int|
            0 <= i < ids.len() ==> token_value(upper_units(#[trigger] ids[i]), token) is None,
        first_token_value(ids, token) is Some ==> exists|i: int|
            0 <= i < ids.len() && token_value(upper_units(#[trigger] ids[i]), token)
                == first_token_value(ids, token) && forall|j: int|
                0 <= j < i ==> token_value(upper_units(#[trigger] ids[j]), token) is None,
    decreases ids.len(),
{
    if ids.len() > 0 {
        let rest = ids.drop_first();
        lemma_first_token_value(rest, token);
        assert forall|i: int| 0 <= i < rest.len() implies rest[i] == ids[i + 1] by {}
        match token_value(upper_units(ids[0]), token) {
            Some(value) => {
                assert(token_value(upper_units(ids[0]), token) == first_token_value(ids, token));
            },
            None => {
                if first_token_value(ids, token) is None {
                    assert forall|i: int| 0 <= i < ids.len() implies token_value(
                        upper_units(#[trigger] ids[i]),
                        token,
                    ) is None by {
                        if i > 0 {
                            assert(ids[i] == rest[i - 1]);
                        }
                    }
                } else {
                    let found = choose|i: int|
                        0 <= i < rest.len() && token_value(upper_units(#[trigger] rest[i]), token)
                            == first_token_value(rest, token) && forall|j: int|
                            0 <= j < i ==> token_value(upper_units(#[trigger] rest[j]), token)
                                is None;
                    assert(ids[found + 1] == rest[found]);
                    assert forall|j: int| 0 <= j < found + 1 implies token_value(
                        upper_units(#[trigger] ids[j]),
                        token,
                    ) is None by {
                        if j > 0 {
                            assert(ids[j] == rest[j - 1]);
                        }
                    }
                    if forall|i: int|
                        0 <= i < ids.len() ==> token_value(upper_units(#[trigger] ids[i]), token)
                            is None {
                        assert(token_value(upper_units(ids[found + 1]), token) is None);
                    }
                }
            },
        }
    }
}

/// The release number that a list of hardware identifiers gives: the value
/// behind the first `REV_`, cut to 16 bits.
pub open spec fn release_in(ids: Seq<Seq<u16>>) -> Option<u16> {
    match first_token_value(ids, encode_utf16("REV_"@)) {
        Some(value) => Some((value % 0x1_0000) as u16),
        None => None,
    }
}

/// The interface number that a list of hardware identifiers gives: the value
/// behind the first `MI_`, read as a signed number of 32 bits.
pub open spec fn interface_in(ids: Seq<Seq<u16>>) -> Option<i32> {
    match first_token_value(ids, encode_utf16("MI_"@)) {
        Some(value) => Some(
            if value < 0x8000_0000 {
                value as i32
            } else {
                (value - 0x1_0000_0000) as i32
            },
        ),
        None => None,
    }
}

/// Searches a NUL-separated list of hardware identifiers for a release
/// number and an interface number. Each comes from the first identifier that
/// gives one; later identifiers do not change it.
pub fn scan_hardware_ids(list: &[u16]) -> (found: (Option<u16>, Option<i32>))
    ensures
        found.0 == release_in(split_at_nul(list@)),
        found.1 == interface_in(split_at_nul(list@)),
{
    let ids: Vec<Vec<u16>> = split_entries(list);
    let ghost all = split_at_nul(list@);
    let ghost rev = encode_utf16("REV_"@);
    let ghost mi = encode_utf16("MI_"@);
    let count: usize = ids.len();
    let mut release: Option<u32> = None;
    let mut interface: Option<u32> = None;
    let mut i: usize = 0;
    assert(all.skip(0) == all);
    while i < count
        invariant
            i <= count,
            count == ids@.len(),
            all == split_at_nul(list@),
            all == entry_views(ids@),
            rev == encode_utf16("REV_"@),
            mi == encode_utf16("MI_"@),
            first_token_value(all, rev) == match release {
                Some(value) => Some(value),
                None => first_token_value(all.skip(i as int), rev),
            },
            first_token_value(all, mi) == match interface {
                Some(value) => Some(value),
                None => first_token_value(all.skip(i as int), mi),
            },
        decreases count - i,
    {
        let ghost rest = all.skip(i as int);
        assert(rest[0] == ids@[i as int]@);
        assert(rest.drop_first() == all.skip(i + 1));
        let mut id: Vec<u16> = slice_to_vec(ids[i].as_slice());
        to_upper(id.as_mut_slice());
        if release.is_none() {
            release = extract_int_token_value(id.as_slice(), "REV_");
        }
        if interface.is_none() {
            interface = extract_int_token_value(id.as_slice(), "MI_");
        }
        i = i + 1;
    }
    let release_number: Option<u16> = match release {
        Some(value) => Some((value % 0x1_0000) as u16),
        None => None,
    };
    let interface_number: Option<i32> = match interface {
        Some(value) => Some(
            if value < 0x8000_0000 {
                value as i32
            } else {
                ((value - 0x8000_0000) as i32) - 0x7FFF_FFFF - 1
            },
        ),
        None => None,
    };
    (release_number, interface_number)
}

/// An ampersand or a backslash: the units that part the segments of an
/// instance identifier.
pub open spec fn is_boundary(unit: u16) -> bool {
    unit == 0x26 || unit == 0x5C
}

/// The position of the last ampersand or backslash among the units.
pub open spec fn last_boundary(units: Seq<u16>) -> Option<int>
    decreases units.len(),
{
    if units.len() == 0 {
        None
    } else if is_boundary(units.last()) {
        Some(units.len() - 1)
    } else {
        last_boundary(units.drop_last())
    }
}

/// `last_boundary` is the position of a boundary behind which none follows,
/// and is absent exactly when no unit is a boundary.
pub proof fn lemma_last_boundary(units: Seq<u16>)
    ensures
        match last_boundary(units) {
            Some(at) => 0 <= at < units.len() && is_boundary(units[at]) && forall|j: int|
                at < j < units.len() ==> !is_boundary(#[trigger] units[j]),
            None => forall|j: int| 0 <= j < units.len() ==> !is_boundary(#[trigger] units[j]),
        },
    decreases units.len(),
{
    if units.len() > 0 && !is_boundary(units.last()) {
        let front = units.drop_last();
        lemma_last_boundary(front);
        assert forall|j: int| 0 <= j < front.len() implies front[j] == units[j] by {}
    }
}

/// The serial number at the end of an instance identifier: what follows its
/// last backslash, provided no ampersand stands behind that backslash. An
/// ampersand there marks a segment that the bus made up, which is no serial
/// number.
pub open spec fn serial_segment(id: Seq<u16>) -> Option<Seq<u16>> {
    match last_boundary(id) {
        Some(at) => if id[at] == 0x5C {
            Some(id.skip(at + 1))
        } else {
            None
        },
        None => None,
    }
}

/// Takes the serial number from the end of an instance identifier, if one
/// stands there.
pub fn serial_from_instance_id(id: &[u16]) -> (serial: Option<WcharString>)
    ensures
        match serial {
            Some(string) => serial_segment(id@) is Some && string@ == wstring_of(
                serial_segment(id@)->0,
            ),
            None => serial_segment(id@) is None,
        },
{
    let len: usize = id.len();
    let mut end: usize = len;
    assert(id@.take(len as int) == id@);
    while end > 0
        invariant
            end <= len,
            len == id@.len(),
            last_boundary(id@) == last_boundary(id@.take(end as int)),
        decreases end,
    {
        let ghost front = id@.take(end as int);
        assert(front.last() == id@[end - 1]);
        assert(front.drop_last() == id@.take(end - 1));
        let unit: u16 = id[end - 1];
        if unit == 0x5C {
            assert(id@.skip(end as int) == id@.subrange(end as int, len as int));
            return Some(u16str_to_wstring(slice_subrange(id, end, len)));
        }
        if unit == 0x26 {
            return None;
        }
        end = end - 1;
    }
    None
}

} // verus!
