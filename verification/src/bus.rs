//! Transport classes of a device node.

use vstd::prelude::*;
use vstd::std_specs::convert::FromSpecImpl;
use crate::list::{entry_views, split_at_nul, split_entries};
use crate::token::{has_prefix_ignore_case, starts_with_ignore_case};
use crate::utf16::decode_utf16_lossy;

verus! {

/// The transport reported in a device record.
#[derive(Clone, Copy, Debug, PartialEq, Eq, Structural)]
pub enum BusType {
    Unknown,
    Usb,
    Bluetooth,
    BluetoothLE,
    I2c,
    Spi,
}

/// The class that the classifier finds for a device node.
#[derive(Clone, Copy, Debug, PartialEq, Eq, Structural)]
pub enum InternalBusType {
    Unknown,
    Usb,
    Bluetooth,
    BluetoothLE,
    I2c,
    Spi,
}

/// The transport that is reported for each class: the one of the same name.
pub open spec fn reported_bus(value: InternalBusType) -> BusType {
    match value {
        InternalBusType::Unknown => BusType::Unknown,
        InternalBusType::Usb => BusType::Usb,
        InternalBusType::Bluetooth => BusType::Bluetooth,
        InternalBusType::BluetoothLE => BusType::BluetoothLE,
        InternalBusType::I2c => BusType::I2c,
        InternalBusType::Spi => BusType::Spi,
    }
}

impl From<InternalBusType> for BusType {
    fn from(value: InternalBusType) -> (bus: BusType) {
        match value {
            InternalBusType::Unknown => BusType::Unknown,
            InternalBusType::Usb => BusType::Usb,
            InternalBusType::Bluetooth => BusType::Bluetooth,
            InternalBusType::BluetoothLE => BusType::BluetoothLE,
            InternalBusType::I2c => BusType::I2c,
            InternalBusType::Spi => BusType::Spi,
        }
    }
}

impl FromSpecImpl<InternalBusType> for BusType {
    open spec fn obeys_from_spec() -> bool {
        true
    }

    open spec fn from_spec(value: InternalBusType) -> BusType {
        reported_bus(value)
    }
}

/// Two classes are reported as the same transport only if they are the same
/// class: the record tells Bluetooth LE from classic Bluetooth.
pub proof fn lemma_reported_bus_is_one_to_one(left: InternalBusType, right: InternalBusType)
    ensures
        reported_bus(left) == reported_bus(right) <==> left == right,
        reported_bus(InternalBusType::BluetoothLE) == BusType::BluetoothLE,
        reported_bus(InternalBusType::BluetoothLE) != reported_bus(InternalBusType::Bluetooth),
{
}

/// The class that one compatible identifier stands for: that of the first
/// known prefix it begins with, the case of letters aside.
pub open spec fn class_of(id: Seq<u16>) -> Option<InternalBusType> {
    let text = decode_utf16_lossy(id);
    if has_prefix_ignore_case(text, "USB"@) {
        Some(InternalBusType::Usb)
    } else if has_prefix_ignore_case(text, "BTHENUM"@) {
        Some(InternalBusType::Bluetooth)
    } else if has_prefix_ignore_case(text, "BTHLEDEVICE"@) {
        Some(InternalBusType::BluetoothLE)
    } else if has_prefix_ignore_case(text, "PNP0C50"@) {
        Some(InternalBusType::I2c)
    } else if has_prefix_ignore_case(text, "PNP0C51"@) {
        Some(InternalBusType::Spi)
    } else {
        None
    }
}

/// The class of a list of compatible identifiers: that of its first entry
/// that has one, `Unknown` where no entry has.
pub open spec fn classify(ids: Seq<Seq<u16>>) -> InternalBusType
    decreases ids.len(),
{
    if ids.len() == 0 {
        InternalBusType::Unknown
    } else {
        match class_of(ids[0]) {
            Some(class) => class,
            None => classify(ids.drop_first()),
        }
    }
}

/// The first entry that has a class decides, whatever follows it; and the
/// class is `Unknown` exactly when no entry has one.
pub proof fn lemma_classify_first_match(ids: Seq<Seq<u16>>)
    ensures
        classify(ids) == InternalBusType::Unknown <==> forall|i: int|
            0 <= i < ids.len() ==> class_of(#[trigger] ids[i]) is None,
        classify(ids) != InternalBusType::Unknown ==> exists|i: int|
            0 <= i < ids.len() && class_of(#[trigger] ids[i]) == Some(classify(ids)) && forall|
                j: int,
            |
                0 <= j < i ==> class_of(#[trigger] ids[j]) is None,
    decreases ids.len(),
{
    if ids.len() > 0 {
        let rest = ids.drop_first();
        lemma_classify_first_match(rest);
        match class_of(ids[0]) {
            Some(class) => {
                assert(class_of(ids[0]) == Some(classify(ids)));
            },
            None => {
                assert forall|i: int| 0 <= i < rest.len() implies rest[i] == ids[i + 1] by {}
                if classify(ids) == InternalBusType::Unknown {
                    assert forall|i: int| 0 <= i < ids.len() implies class_of(
                        #[trigger] ids[i],
                    ) is None by {
                        if i > 0 {
                            assert(ids[i] == rest[i - 1]);
                        }
                    }
                } else {
                    let found = choose|i: int|
                        0 <= i < rest.len() && class_of(#[trigger] rest[i]) == Some(classify(rest))
                            && forall|j: int| 0 <= j < i ==> class_of(#[trigger] rest[j]) is None;
                    assert(ids[found + 1] == rest[found]);
                    assert forall|j: int| 0 <= j < found + 1 implies class_of(
                        #[trigger] ids[j],
                    ) is None by {
                        if j > 0 {
                            assert(ids[j] == rest[j - 1]);
                        }
                    }
                    if forall|i: int| 0 <= i < ids.len() ==> class_of(#[trigger] ids[i]) is None {
                        assert(class_of(ids[found + 1]) is None);
                    }
                }
            },
        }
    }
}

/// A list in which no identifier begins with a known prefix has the class
/// `Unknown`.
pub proof fn lemma_no_known_prefix_is_unknown(ids: Seq<Seq<u16>>)
    requires
        forall|i: int| 0 <= i < ids.len() ==> class_of(#[trigger] ids[i]) is None,
    ensures
        classify(ids) == InternalBusType::Unknown,
{
    lemma_classify_first_match(ids);
}

/// The class that one compatible identifier stands for.
pub fn classify_id(id: &[u16]) -> (class: Option<InternalBusType>)
    ensures
        class == class_of(id@),
{
    if starts_with_ignore_case(id, "USB") {
        Some(InternalBusType::Usb)
    } else if starts_with_ignore_case(id, "BTHENUM") {
        Some(InternalBusType::Bluetooth)
    } else if starts_with_ignore_case(id, "BTHLEDEVICE") {
        Some(InternalBusType::BluetoothLE)
    } else if starts_with_ignore_case(id, "PNP0C50") {
        Some(InternalBusType::I2c)
    } else if starts_with_ignore_case(id, "PNP0C51") {
        Some(InternalBusType::Spi)
    } else {
        None
    }
}

/// Classifies a node by its list of compatible identifiers, which a NUL
/// separates. The entries are tried in their order and the first that begins
/// with a known prefix decides.
pub fn classify_compatible_ids(list: &[u16]) -> (class: InternalBusType)
    ensures
        class == classify(split_at_nul(list@)),
{
    let ids: Vec<Vec<u16>> = split_entries(list);
    let ghost all = split_at_nul(list@);
    let count: usize = ids.len();
    let mut i: usize = 0;
    assert(all.skip(0) == all);
    while i < count
        invariant
            i <= count,
            count == ids@.len(),
            all == split_at_nul(list@),
            all == entry_views(ids@),
            classify(all) == classify(all.skip(i as int)),
        decreases count - i,
    {
        let ghost rest = all.skip(i as int);
        assert(rest[0] == ids@[i as int]@);
        assert(rest.drop_first() == all.skip(i + 1));
        match classify_id(ids[i].as_slice()) {
            Some(class) => {
                return class;
            },
            None => {},
        }
        i = i + 1;
    }
    InternalBusType::Unknown
}

} // verus!
