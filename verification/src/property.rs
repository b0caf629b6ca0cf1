//! The two calls by which a property is read: the first asks for its type
//! and size, the second fetches it into a buffer of that size. What each
//! reply means is decided here; the calls themselves are the caller's.

use vstd::prelude::*;
use crate::query::{Answer, AnswerView, PropertyKey};

verus! {

/// How a call to the platform's configuration manager ended.
#[derive(Clone, Copy, Debug, PartialEq, Eq, Structural)]
pub enum ConfigStatus {
    Success,
    /// The buffer was too small for what the platform has.
    BufferSmall,
    /// Any other outcome.
    Failure,
}

/// The type of a property's value.
#[derive(Clone, Copy, Debug, PartialEq, Eq, Structural)]
pub enum PropertyType {
    /// One NUL-terminated string.
    String,
    /// A list of NUL-terminated strings.
    StringList,
    /// Any other type, by the platform's code for it.
    Other(u32),
}

/// The type that the value of each property has.
pub open spec fn expected_type_of(key: PropertyKey) -> PropertyType {
    match key {
        PropertyKey::CompatibleIds => PropertyType::StringList,
        PropertyKey::HardwareIds => PropertyType::StringList,
        _ => PropertyType::String,
    }
}

impl PropertyKey {
    /// The type that the value of this property has.
    pub fn expected_type(self) -> (expected: PropertyType)
        ensures
            expected == expected_type_of(self),
    {
        match self {
            PropertyKey::CompatibleIds => PropertyType::StringList,
            PropertyKey::HardwareIds => PropertyType::StringList,
            _ => PropertyType::String,
        }
    }
}

/// Decides on the reply to the first call, which was made without a buffer.
/// The property is fetched only if the platform says that the buffer was too
/// small and the property has the expected type; the result is then the size
/// of the buffer to fetch it into. In every other case the property counts
/// as absent, whatever size was reported.
pub fn buffer_size_for(
    status: ConfigStatus,
    actual: PropertyType,
    expected: PropertyType,
    size: u32,
) -> (buffer: Option<usize>)
    ensures
        buffer == if status == ConfigStatus::BufferSmall && actual == expected {
            Some(size as usize)
        } else {
            None::<usize>
        },
        actual != expected ==> buffer is None,
{
    match status {
        ConfigStatus::BufferSmall => {
            if actual == expected {
                Some(size as usize)
            } else {
                None
            }
        },
        _ => None,
    }
}

/// The byte at a position, 0 behind the end.
pub open spec fn byte_at(bytes: Seq<u8>, at: int) -> int {
    if 0 <= at < bytes.len() {
        bytes[at] as int
    } else {
        0
    }
}

/// The bytes read two by two as 16-bit units, the low byte first. A last
/// byte without partner is read with a zero byte behind it.
pub open spec fn units_low_first(bytes: Seq<u8>) -> Seq<u16> {
    Seq::new(
        ((bytes.len() + 1) / 2) as nat,
        |i: int| (byte_at(bytes, 2 * i) + 0x100 * byte_at(bytes, 2 * i + 1)) as u16,
    )
}

/// The bytes read two by two as 16-bit units, the high byte first.
pub open spec fn units_high_first(bytes: Seq<u8>) -> Seq<u16> {
    Seq::new(
        ((bytes.len() + 1) / 2) as nat,
        |i: int| (0x100 * byte_at(bytes, 2 * i) + byte_at(bytes, 2 * i + 1)) as u16,
    )
}

/// The units are the bytes in the byte order of some machine.
pub open spec fn is_native_reading(bytes: Seq<u8>, units: Seq<u16>) -> bool {
    units == units_low_first(bytes) || units == units_high_first(bytes)
}

/// `bytemuck::pod_collect_to_vec`, from bytes to 16-bit units. It copies the
/// bytes into a zeroed vector of as many units as hold them all, so each
/// unit is made of two neighbouring bytes in the byte order of the machine,
/// and a last byte without partner is followed by a zero byte.
#[verifier::external_body]
fn collect_units(bytes: &[u8]) -> (units: Vec<u16>)
    ensures
        is_native_reading(bytes@, units@),
{
    bytemuck::pod_collect_to_vec::<u8, u16>(bytes)
}

/// Decides on the reply to the second call, which fetched the property into
/// `buffer`. The value is accepted if the call succeeded and wrote as many
/// bytes as the buffer holds. It is handed out as 16-bit units in the byte
/// order of the machine. A failed call, and one that wrote another size than
/// the first call had announced, leave the property absent.
pub fn property_value(status: ConfigStatus, buffer: &[u8], written: u32) -> (value: Option<
    Vec<u16>,
>)
    ensures
        value is Some <==> status == ConfigStatus::Success && written == buffer@.len(),
        value matches Some(units) ==> is_native_reading(buffer@, units@),
{
    match status {
        ConfigStatus::Success => {
            if written as usize == buffer.len() {
                Some(collect_units(buffer))
            } else {
                None
            }
        },
        _ => None,
    }
}

/// The answer that a property query gives to a resolution.
pub fn property_answer(value: Option<Vec<u16>>) -> (answer: Answer)
    ensures
        answer@ == match value {
            Some(units) => AnswerView::Units(units@),
            None => AnswerView::Absent,
        },
{
    match value {
        Some(units) => Answer::Units(units),
        None => Answer::Absent,
    }
}

/// The answer that a lookup in the device tree gives to a resolution: the
/// node that the platform wrote, if the lookup succeeded.
pub fn node_answer(status: ConfigStatus, node: u32) -> (answer: Answer)
    ensures
        answer@ == if status == ConfigStatus::Success {
            AnswerView::Node(node)
        } else {
            AnswerView::Absent
        },
{
    match status {
        ConfigStatus::Success => Answer::Node(node),
        _ => Answer::Absent,
    }
}

} // verus!
