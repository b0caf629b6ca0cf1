//! The record that describes one HID device interface.

use vstd::prelude::*;
use vstd::slice::slice_to_vec;
use vstd::utf8::encode_utf8;
use crate::bus::BusType;
use crate::error::HidResult;
use crate::utf16::{decode_utf16_lossy, well_formed_utf16};
use crate::wstring::{
    string_from_utf16, wchar_to_string, wide_string_of, WcharString, WcharStringView,
};

verus! {

/// The interface number of a device of which none is known.
pub const UNKNOWN_INTERFACE: i32 = -1;

/// What is known of one HID device interface.
#[derive(Clone, Debug, PartialEq, Eq)]
pub struct DeviceInfo {
    /// The interface's path in UTF-8, without a NUL.
    pub path: Vec<u8>,
    pub vendor_id: u16,
    pub product_id: u16,
    pub serial_number: WcharString,
    pub release_number: u16,
    pub manufacturer_string: WcharString,
    pub product_string: WcharString,
    pub usage_page: u16,
    pub usage: u16,
    /// `UNKNOWN_INTERFACE` until an interface number is known.
    pub interface_number: i32,
    pub bus_type: BusType,
}

/// What a `DeviceInfo` holds.
pub struct DeviceInfoView {
    pub path: Seq<u8>,
    pub vendor_id: u16,
    pub product_id: u16,
    pub serial_number: WcharStringView,
    pub release_number: u16,
    pub manufacturer_string: WcharStringView,
    pub product_string: WcharStringView,
    pub usage_page: u16,
    pub usage: u16,
    pub interface_number: i32,
    pub bus_type: BusType,
}

impl View for DeviceInfo {
    type V = DeviceInfoView;

    open spec fn view(&self) -> DeviceInfoView {
        DeviceInfoView {
            path: self.path@,
            vendor_id: self.vendor_id,
            product_id: self.product_id,
            serial_number: self.serial_number@,
            release_number: self.release_number,
            manufacturer_string: self.manufacturer_string@,
            product_string: self.product_string@,
            usage_page: self.usage_page,
            usage: self.usage,
            interface_number: self.interface_number,
            bus_type: self.bus_type,
        }
    }
}

/// The record with an unknown interface number replaced by 0: a device is
/// taken to have a single interface until another is found.
pub open spec fn normalized(dev: DeviceInfoView) -> DeviceInfoView {
    if dev.interface_number == UNKNOWN_INTERFACE {
        DeviceInfoView { interface_number: 0, ..dev }
    } else {
        dev
    }
}

impl DeviceInfo {
    /// Replaces an unknown interface number by 0.
    pub fn normalize(&mut self)
        ensures
            final(self)@ == normalized(old(self)@),
    {
        if self.interface_number == UNKNOWN_INTERFACE {
            self.interface_number = 0;
        }
    }
}

/// What the platform tells of an open device without a look at the device
/// tree.
#[derive(Clone, Debug, PartialEq, Eq)]
pub struct DeviceBasics {
    pub vendor_id: u16,
    pub product_id: u16,
    pub version_number: u16,
    pub usage_page: u16,
    pub usage: u16,
    pub serial_number: WcharString,
    pub manufacturer_string: WcharString,
    pub product_string: WcharString,
}

/// The path that units spell, in UTF-8. There is none where the units are
/// not well-formed UTF-16, or where the path would hold a NUL.
pub open spec fn path_of(units: Seq<u16>) -> Option<Seq<u8>> {
    let bytes = encode_utf8(decode_utf16_lossy(units));
    if well_formed_utf16(units) && !bytes.contains(0u8) {
        Some(bytes)
    } else {
        None
    }
}

/// The record of a device before its identity is resolved: the basics as
/// they were read, no interface number, no transport.
pub open spec fn unresolved(path: Seq<u8>, basics: DeviceBasics) -> DeviceInfoView {
    DeviceInfoView {
        path,
        vendor_id: basics.vendor_id,
        product_id: basics.product_id,
        serial_number: basics.serial_number@,
        release_number: basics.version_number,
        manufacturer_string: basics.manufacturer_string@,
        product_string: basics.product_string@,
        usage_page: basics.usage_page,
        usage: basics.usage,
        interface_number: UNKNOWN_INTERFACE,
        bus_type: BusType::Unknown,
    }
}

/// Makes the record of a device from its interface path and what was read
/// from the open device. There is no record where the path cannot be
/// written as a C string.
pub fn get_device_info(path: &[u16], basics: DeviceBasics) -> (dev: Option<DeviceInfo>)
    ensures
        dev is Some <==> path_of(path@) is Some,
        dev matches Some(record) ==> record@ == unresolved(path_of(path@)->0, basics),
{
    let text: String = match string_from_utf16(path) {
        Some(text) => text,
        None => {
            return None;
        },
    };
    let bytes: Vec<u8> = slice_to_vec(text.as_str().as_bytes());
    let len: usize = bytes.len();
    let mut i: usize = 0;
    while i < len
        invariant
            i <= len,
            len == bytes@.len(),
            well_formed_utf16(path@),
            bytes@ == encode_utf8(decode_utf16_lossy(path@)),
            forall|j: int| 0 <= j < i ==> bytes@[j] != 0,
        decreases len - i,
    {
        if bytes[i] == 0 {
            assert(bytes@.contains(0u8));
            return None;
        }
        i = i + 1;
    }
    Some(
        DeviceInfo {
            path: bytes,
            vendor_id: basics.vendor_id,
            product_id: basics.product_id,
            serial_number: basics.serial_number,
            release_number: basics.version_number,
            manufacturer_string: basics.manufacturer_string,
            product_string: basics.product_string,
            usage_page: basics.usage_page,
            usage: basics.usage,
            interface_number: UNKNOWN_INTERFACE,
            bus_type: BusType::Unknown,
        },
    )
}

/// A device record as the C library hands it out, with each pointer read
/// into plain values: a string is the units up to and with its NUL, or
/// absent for a null pointer.
#[derive(Clone, Debug, PartialEq, Eq)]
pub struct RawDeviceInfo {
    pub path: Vec<u8>,
    pub vendor_id: u16,
    pub product_id: u16,
    pub serial_number: Option<Vec<u16>>,
    pub release_number: u16,
    pub manufacturer_string: Option<Vec<u16>>,
    pub product_string: Option<Vec<u16>>,
    pub usage_page: u16,
    pub usage: u16,
    pub interface_number: i32,
    pub bus_type: BusType,
}

/// The string that a wide string of the C library stands for.
pub open spec fn raw_string(units: Option<Vec<u16>>) -> WcharStringView {
    match units {
        Some(units) => wide_string_of(units@),
        None => WcharStringView::Absent,
    }
}

/// The record that a record of the C library stands for.
pub open spec fn converted(src: RawDeviceInfo) -> DeviceInfoView {
    DeviceInfoView {
        path: src.path@,
        vendor_id: src.vendor_id,
        product_id: src.product_id,
        serial_number: raw_string(src.serial_number),
        release_number: src.release_number,
        manufacturer_string: raw_string(src.manufacturer_string),
        product_string: raw_string(src.product_string),
        usage_page: src.usage_page,
        usage: src.usage,
        interface_number: src.interface_number,
        bus_type: src.bus_type,
    }
}

fn convert_string(units: &Option<Vec<u16>>) -> (string: WcharString)
    ensures
        string@ == raw_string(*units),
{
    match units {
        Some(units) => wchar_to_string(Some(units.as_slice())),
        None => wchar_to_string(None),
    }
}

/// Converts a record of the C library. This never fails.
pub fn conv_hid_device_info(src: RawDeviceInfo) -> (dev: HidResult<DeviceInfo>)
    ensures
        dev is Ok,
        dev->Ok_0@ == converted(src),
{
    let serial_number: WcharString = convert_string(&src.serial_number);
    let manufacturer_string: WcharString = convert_string(&src.manufacturer_string);
    let product_string: WcharString = convert_string(&src.product_string);
    Ok(
        DeviceInfo {
            path: src.path,
            vendor_id: src.vendor_id,
            product_id: src.product_id,
            serial_number,
            release_number: src.release_number,
            manufacturer_string,
            product_string,
            usage_page: src.usage_page,
            usage: src.usage,
            interface_number: src.interface_number,
            bus_type: src.bus_type,
        },
    )
}

} // verus!
