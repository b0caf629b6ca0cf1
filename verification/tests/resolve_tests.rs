use hidapi::bus::{classify_compatible_ids, classify_id, BusType, InternalBusType};
use hidapi::device_info::DeviceInfo;
use hidapi::outcome::MAX_QUESTIONS;
use hidapi::query::{Answer, PropertyKey, Query};
use hidapi::replay::Recording;
use hidapi::resolve::{Resolution, Stage};
use hidapi::usb::{scan_hardware_ids, serial_from_instance_id};
use hidapi::wstring::WcharString;

fn units(text: &str) -> Vec<u16> {
    text.encode_utf16().collect()
}

/// A list as the platform writes it: a NUL behind each entry and one more at
/// the end.
fn list(entries: &[&str]) -> Vec<u16> {
    let mut all = Vec::new();
    for entry in entries {
        all.extend(units(entry));
        all.push(0);
    }
    all.push(0);
    all
}

fn text(value: &str) -> WcharString {
    WcharString::String(value.to_string())
}

fn fresh() -> DeviceInfo {
    DeviceInfo {
        path: b"\\\\?\\hid#vid_1234".to_vec(),
        vendor_id: 0x1234,
        product_id: 0x5678,
        serial_number: text(""),
        release_number: 0,
        manufacturer_string: text(""),
        product_string: text(""),
        usage_page: 1,
        usage: 6,
        interface_number: -1,
        bus_type: BusType::Unknown,
    }
}

struct Platform {
    interface_id: Option<Vec<u16>>,
    located: Vec<(Vec<u16>, u32)>,
    parents: Vec<(u32, u32)>,
    properties: Vec<(u32, PropertyKey, Vec<u16>)>,
}

impl Platform {
    fn new(interface_id: &str, node: u32, owner: u32) -> Platform {
        Platform {
            interface_id: Some(units(interface_id)),
            located: vec![(units(interface_id), node)],
            parents: vec![(node, owner)],
            properties: Vec::new(),
        }
    }

    fn with(mut self, node: u32, key: PropertyKey, value: Vec<u16>) -> Platform {
        self.properties.push((node, key, value));
        self
    }

    fn with_parent(mut self, node: u32, parent: u32) -> Platform {
        self.parents.push((node, parent));
        self
    }

    fn recording(&self) -> Recording {
        let mut recording = Recording::new();
        if let Some(id) = &self.interface_id {
            recording.record(
                Query::InterfaceProperty { key: PropertyKey::InstanceId },
                Answer::Units(id.clone()),
            );
        }
        for (id, node) in &self.located {
            recording.record(Query::LocateNode { instance_id: id.clone() }, Answer::Node(*node));
        }
        for (child, parent) in &self.parents {
            recording.record(Query::Parent { node: *child }, Answer::Node(*parent));
        }
        for (node, key, value) in &self.properties {
            recording.record(
                Query::NodeProperty { node: *node, key: *key },
                Answer::Units(value.clone()),
            );
        }
        recording
    }

    fn answer(&self, query: &Query) -> Answer {
        match query {
            Query::InterfaceProperty { key } => match (&self.interface_id, key) {
                (Some(id), PropertyKey::InstanceId) => Answer::Units(id.clone()),
                _ => Answer::Absent,
            },
            Query::LocateNode { instance_id } => {
                for (id, node) in &self.located {
                    if id == instance_id {
                        return Answer::Node(*node);
                    }
                }
                Answer::Absent
            }
            Query::Parent { node } => {
                for (child, parent) in &self.parents {
                    if child == node {
                        return Answer::Node(*parent);
                    }
                }
                Answer::Absent
            }
            Query::NodeProperty { node, key } => {
                for (owner, held, value) in &self.properties {
                    if owner == node && held == key {
                        return Answer::Units(value.clone());
                    }
                }
                Answer::Absent
            }
        }
    }
}

fn resolve(dev: DeviceInfo, platform: &Platform) -> (DeviceInfo, Vec<Query>) {
    let replayed = platform.recording().resolve(dev.clone());
    let mut resolution = Resolution::begin(dev);
    let mut asked = Vec::new();
    while let Some(query) = resolution.query() {
        assert!(!resolution.is_done());
        let answer = platform.answer(&query);
        asked.push(query);
        resolution.answer(answer);
        assert!(asked.len() <= MAX_QUESTIONS);
    }
    assert!(resolution.is_done());
    assert_eq!(resolution.stage(), Stage::Done);
    let resolved = resolution.into_device().unwrap();
    assert_eq!(resolved, replayed);
    (resolved, asked)
}

fn node_property(node: u32, key: PropertyKey) -> Query {
    Query::NodeProperty { node, key }
}

#[test]
fn class_of_each_known_prefix() {
    assert_eq!(classify_id(&units("USB\\Class_03")), Some(InternalBusType::Usb));
    assert_eq!(classify_id(&units("usb\\class_03")), Some(InternalBusType::Usb));
    assert_eq!(
        classify_id(&units("BTHENUM\\{00001124-0000-1000-8000-00805f9b34fb}")),
        Some(InternalBusType::Bluetooth)
    );
    assert_eq!(
        classify_id(&units("BTHLEDevice\\{00001812-0000-1000-8000-00805f9b34fb}")),
        Some(InternalBusType::BluetoothLE)
    );
    assert_eq!(classify_id(&units("PNP0C50")), Some(InternalBusType::I2c));
    assert_eq!(classify_id(&units("pnp0c51")), Some(InternalBusType::Spi));
    assert_eq!(classify_id(&units("ACPI\\PNP0C50")), None);
    assert_eq!(classify_id(&units("")), None);
    assert_eq!(classify_id(&units("US")), None);
}

#[test]
fn first_matching_entry_decides_class() {
    assert_eq!(
        classify_compatible_ids(&list(&["BTHENUM\\x", "USB\\Class_03"])),
        InternalBusType::Bluetooth
    );
    assert_eq!(
        classify_compatible_ids(&list(&["GENERIC", "PNP0C51", "USB\\Class_03"])),
        InternalBusType::Spi
    );
}

#[test]
fn list_without_known_prefix_is_unknown() {
    assert_eq!(
        classify_compatible_ids(&list(&["ROOT\\VHF", "HID_DEVICE"])),
        InternalBusType::Unknown
    );
    assert_eq!(classify_compatible_ids(&list(&[])), InternalBusType::Unknown);
    assert_eq!(classify_compatible_ids(&[]), InternalBusType::Unknown);
}

#[test]
fn reported_bus_keeps_every_class_apart() {
    assert_eq!(BusType::from(InternalBusType::Unknown), BusType::Unknown);
    assert_eq!(BusType::from(InternalBusType::Usb), BusType::Usb);
    assert_eq!(BusType::from(InternalBusType::Bluetooth), BusType::Bluetooth);
    assert_eq!(BusType::from(InternalBusType::BluetoothLE), BusType::BluetoothLE);
    assert_ne!(
        BusType::from(InternalBusType::BluetoothLE),
        BusType::from(InternalBusType::Bluetooth)
    );
    assert_eq!(BusType::from(InternalBusType::I2c), BusType::I2c);
    assert_eq!(BusType::from(InternalBusType::Spi), BusType::Spi);
}

#[test]
fn first_revision_is_not_overridden() {
    let ids = list(&[
        "USB\\VID_046D&PID_C52B&REV_1201&MI_02",
        "USB\\VID_046D&PID_C52B&REV_2400&MI_01",
    ]);
    assert_eq!(scan_hardware_ids(&ids), (Some(0x1201), Some(2)));
}

#[test]
fn revision_and_interface_come_from_different_entries() {
    let ids = list(&[
        "USB\\VID_046D&PID_C52B",
        "USB\\VID_046D&MI_03",
        "USB\\VID_046D&REV_0007&MI_01",
    ]);
    assert_eq!(scan_hardware_ids(&ids), (Some(7), Some(3)));
}

#[test]
fn hardware_ids_are_searched_in_upper_case() {
    let ids = list(&["usb\\vid_046d&pid_c52b&rev_00ab&mi_0a"]);
    assert_eq!(scan_hardware_ids(&ids), (Some(0xAB), Some(10)));
}

#[test]
fn hardware_ids_without_tokens_give_nothing() {
    assert_eq!(
        scan_hardware_ids(&list(&["USB\\VID_046D&PID_C52B", "USB\\VID_046D"])),
        (None, None)
    );
    assert_eq!(scan_hardware_ids(&[]), (None, None));
}

#[test]
fn first_revision_decides_even_if_zero() {
    let ids = list(&["USB\\VID_1&REV_0000", "USB\\VID_1&REV_0100"]);
    assert_eq!(scan_hardware_ids(&ids), (Some(0), None));
}

#[test]
fn revision_is_cut_to_16_bits_and_interface_is_signed() {
    let ids = list(&["USB\\REV_12345&MI_FFFFFFFE"]);
    assert_eq!(scan_hardware_ids(&ids), (Some(0x2345), Some(-2)));
    let ids = list(&["USB\\MI_80000000"]);
    assert_eq!(scan_hardware_ids(&ids), (None, Some(i32::MIN)));
    let ids = list(&["USB\\MI_7FFFFFFF"]);
    assert_eq!(scan_hardware_ids(&ids), (None, Some(i32::MAX)));
}

#[test]
fn serial_follows_last_backslash() {
    assert_eq!(
        serial_from_instance_id(&units("USB\\VID_1234&PID_5678\\0123456789")),
        Some(text("0123456789"))
    );
}

#[test]
fn serial_is_absent_behind_ampersand() {
    assert_eq!(
        serial_from_instance_id(&units("USB\\VID_1234&PID_5678\\5&2d5a3b&0&2")),
        None
    );
    assert_eq!(serial_from_instance_id(&units("USB&X")), None);
}

#[test]
fn serial_is_absent_without_backslash() {
    assert_eq!(serial_from_instance_id(&units("NOSEPARATOR")), None);
    assert_eq!(serial_from_instance_id(&[]), None);
}

#[test]
fn serial_may_be_empty_or_raw() {
    assert_eq!(serial_from_instance_id(&units("USB\\")), Some(text("")));
    let mut id = units("USB\\");
    id.push(0xD800);
    assert_eq!(
        serial_from_instance_id(&id),
        Some(WcharString::Raw(vec![0xD800]))
    );
}

#[test]
fn serial_keeps_terminating_nul() {
    assert_eq!(
        serial_from_instance_id(&units("USB\\VID_1\\ABC\0")),
        Some(text("ABC\0"))
    );
}

#[test]
fn resolution_without_interface_id_only_normalizes() {
    let platform = Platform {
        interface_id: None,
        located: Vec::new(),
        parents: Vec::new(),
        properties: Vec::new(),
    };
    let (dev, asked) = resolve(fresh(), &platform);
    assert_eq!(
        asked,
        vec![Query::InterfaceProperty { key: PropertyKey::InstanceId }]
    );
    let mut expected = fresh();
    expected.interface_number = 0;
    assert_eq!(dev, expected);
}

#[test]
fn resolution_without_node_only_normalizes() {
    let mut platform = Platform::new("HID\\X", 1, 2);
    platform.located.clear();
    let (dev, asked) = resolve(fresh(), &platform);
    assert_eq!(
        asked,
        vec![
            Query::InterfaceProperty { key: PropertyKey::InstanceId },
            Query::LocateNode { instance_id: units("HID\\X") },
        ]
    );
    assert_eq!(dev.bus_type, BusType::Unknown);
    assert_eq!(dev.interface_number, 0);
}

#[test]
fn resolution_without_parent_only_normalizes() {
    let mut platform = Platform::new("HID\\X", 1, 2);
    platform.parents.clear();
    let (dev, asked) = resolve(fresh(), &platform);
    assert_eq!(asked.len(), 3);
    assert_eq!(asked[2], Query::Parent { node: 1 });
    assert_eq!(dev.bus_type, BusType::Unknown);
    assert_eq!(dev.interface_number, 0);
}

#[test]
fn resolution_without_compatible_ids_stays_unknown() {
    let platform = Platform::new("HID\\X", 1, 2);
    let (dev, asked) = resolve(fresh(), &platform);
    assert_eq!(asked.len(), 4);
    assert_eq!(asked[3], node_property(2, PropertyKey::CompatibleIds));
    let mut expected = fresh();
    expected.interface_number = 0;
    assert_eq!(dev, expected);
}

#[test]
fn unknown_class_runs_no_resolver() {
    let platform = Platform::new("HID\\X", 1, 2)
        .with(2, PropertyKey::CompatibleIds, list(&["ROOT\\VHF", "SWD\\GENERIC"]))
        .with(2, PropertyKey::HardwareIds, list(&["USB\\REV_0100&MI_01"]))
        .with(2, PropertyKey::Manufacturer, units("Nobody"));
    let (dev, asked) = resolve(fresh(), &platform);
    assert_eq!(asked.len(), 4);
    let mut expected = fresh();
    expected.interface_number = 0;
    assert_eq!(dev, expected);
}

#[test]
fn classic_bluetooth_and_i2c_and_spi_get_only_their_bus() {
    for (id, bus) in [
        ("BTHENUM\\Dev", BusType::Bluetooth),
        ("PNP0C50", BusType::I2c),
        ("PNP0C51", BusType::Spi),
    ] {
        let platform = Platform::new("HID\\X", 1, 2)
            .with(2, PropertyKey::CompatibleIds, list(&[id]))
            .with(2, PropertyKey::Manufacturer, units("Nobody"));
        let (dev, asked) = resolve(fresh(), &platform);
        assert_eq!(asked.len(), 4);
        let mut expected = fresh();
        expected.interface_number = 0;
        expected.bus_type = bus;
        assert_eq!(dev, expected);
    }
}

#[test]
fn usb_composite_function_escalates_one_level() {
    let platform = Platform::new("HID\\VID_045E&PID_028E&IG_00\\7&1&0&0", 10, 20)
        .with(20, PropertyKey::CompatibleIds, list(&["USB\\Class_FF&SubClass_5D", "USB\\Class_FF"]))
        .with(20, PropertyKey::InstanceId, units("usb\\vid_045e&pid_028e&ig_00\\6&abc&0&00"))
        .with_parent(20, 30)
        .with_parent(30, 40)
        .with(20, PropertyKey::HardwareIds, list(&["USB\\VID_045E&REV_9999&MI_07"]))
        .with(30, PropertyKey::HardwareIds, list(&["USB\\VID_045E&PID_028E&REV_0114", "USB\\VID_045E"]))
        .with(30, PropertyKey::Manufacturer, units("Microsoft"))
        .with(30, PropertyKey::InstanceId, units("USB\\VID_045E&PID_028E\\0123456"));
    let (dev, asked) = resolve(fresh(), &platform);
    assert_eq!(
        asked,
        vec![
            Query::InterfaceProperty { key: PropertyKey::InstanceId },
            Query::LocateNode { instance_id: units("HID\\VID_045E&PID_028E&IG_00\\7&1&0&0") },
            Query::Parent { node: 10 },
            node_property(20, PropertyKey::CompatibleIds),
            node_property(20, PropertyKey::InstanceId),
            Query::Parent { node: 20 },
            node_property(30, PropertyKey::HardwareIds),
            node_property(30, PropertyKey::Manufacturer),
            node_property(30, PropertyKey::InstanceId),
        ]
    );
    let mut expected = fresh();
    expected.bus_type = BusType::Usb;
    expected.release_number = 0x0114;
    expected.manufacturer_string = text("Microsoft");
    expected.serial_number = text("0123456");
    expected.interface_number = 0;
    assert_eq!(dev, expected);
}

#[test]
fn plain_usb_device_does_not_escalate() {
    let platform = Platform::new("HID\\VID_1234&PID_5678\\7&1&0&0", 10, 20)
        .with(20, PropertyKey::CompatibleIds, list(&["USB\\Class_03&SubClass_01", "USB\\Class_03"]))
        .with(20, PropertyKey::InstanceId, units("USB\\VID_1234&PID_5678\\SER42"))
        .with_parent(20, 30)
        .with(20, PropertyKey::HardwareIds, list(&["USB\\VID_1234&PID_5678&REV_0200", "USB\\VID_1234"]))
        .with(30, PropertyKey::HardwareIds, list(&["USB\\ROOT_HUB30&REV_7777&MI_05"]));
    let (dev, asked) = resolve(fresh(), &platform);
    assert_eq!(
        asked[4..].to_vec(),
        vec![
            node_property(20, PropertyKey::InstanceId),
            node_property(20, PropertyKey::HardwareIds),
            node_property(20, PropertyKey::Manufacturer),
            node_property(20, PropertyKey::InstanceId),
        ]
    );
    let mut expected = fresh();
    expected.bus_type = BusType::Usb;
    expected.release_number = 0x0200;
    expected.serial_number = text("SER42");
    expected.interface_number = 0;
    assert_eq!(dev, expected);
}

#[test]
fn usb_interface_of_composite_device_takes_serial_from_parent() {
    let platform = Platform::new("HID\\VID_046D&PID_C52B&MI_02\\8&1&0&0", 10, 20)
        .with(20, PropertyKey::CompatibleIds, list(&["USB\\Class_03"]))
        .with(20, PropertyKey::InstanceId, units("USB\\VID_046D&PID_C52B&MI_02\\7&2d5a3b&0&0002"))
        .with_parent(20, 30)
        .with(20, PropertyKey::HardwareIds, list(&["USB\\VID_046D&PID_C52B&REV_1201&MI_02"]))
        .with(20, PropertyKey::Manufacturer, units("Logitech"))
        .with(30, PropertyKey::InstanceId, units("USB\\VID_046D&PID_C52B\\A1B2C3"));
    let (dev, asked) = resolve(fresh(), &platform);
    assert_eq!(
        asked[5..].to_vec(),
        vec![
            node_property(20, PropertyKey::HardwareIds),
            node_property(20, PropertyKey::Manufacturer),
            Query::Parent { node: 20 },
            node_property(30, PropertyKey::InstanceId),
        ]
    );
    assert_eq!(dev.interface_number, 2);
    assert_eq!(dev.release_number, 0x1201);
    assert_eq!(dev.manufacturer_string, text("Logitech"));
    assert_eq!(dev.serial_number, text("A1B2C3"));
    assert_eq!(dev.bus_type, BusType::Usb);
}

#[test]
fn interface_number_without_token_becomes_zero_at_the_end() {
    let platform = Platform::new("HID\\X", 10, 20)
        .with(20, PropertyKey::CompatibleIds, list(&["USB\\Class_03"]))
        .with(20, PropertyKey::HardwareIds, list(&["USB\\VID_1234&REV_0100", "USB\\VID_1234"]));
    let mut resolution = Resolution::begin(fresh());
    let mut seen = Vec::new();
    while let Some(query) = resolution.query() {
        resolution.answer(platform.answer(&query));
        seen.push(resolution.stage());
    }
    assert_eq!(
        seen,
        vec![
            Stage::Locate,
            Stage::Owner { node: 10 },
            Stage::CompatibleIds { node: 20 },
            Stage::UsbInstanceId { node: 20 },
            Stage::UsbHardwareIds { node: 20 },
            Stage::UsbManufacturer { node: 20 },
            Stage::UsbSerial { node: 20 },
            Stage::Done,
        ]
    );
    let dev = resolution.into_device().unwrap();
    assert_eq!(dev.interface_number, 0);
    assert_eq!(dev.release_number, 0x0100);
}

#[test]
fn record_is_given_out_only_when_resolved() {
    let mut resolution = Resolution::begin(fresh());
    resolution.answer(Answer::Units(units("HID\\X")));
    resolution.answer(Answer::Node(10));
    resolution.answer(Answer::Node(20));
    resolution.answer(Answer::Units(list(&["USB\\Class_03"])));
    resolution.answer(Answer::Absent);
    resolution.answer(Answer::Units(list(&["USB\\VID_1234&REV_0100"])));
    assert_eq!(resolution.stage(), Stage::UsbManufacturer { node: 20 });
    let mut resolution = resolution.into_device().unwrap_err();
    assert_eq!(resolution.stage(), Stage::UsbManufacturer { node: 20 });
    assert_eq!(
        resolution.query(),
        Some(node_property(20, PropertyKey::Manufacturer))
    );
    resolution.answer(Answer::Absent);
    assert_eq!(resolution.stage(), Stage::UsbSerial { node: 20 });
    resolution.answer(Answer::Absent);
    let dev = resolution.into_device().unwrap();
    assert_eq!(dev.interface_number, 0);
    assert_eq!(dev.release_number, 0x0100);
}

#[test]
fn known_fields_are_not_overwritten_by_usb_steps() {
    let platform = Platform::new("HID\\X", 10, 20)
        .with(20, PropertyKey::CompatibleIds, list(&["USB\\Class_03"]))
        .with(20, PropertyKey::HardwareIds, list(&["USB\\VID_1234&REV_0100&MI_04"]))
        .with(20, PropertyKey::Manufacturer, units("From the node"))
        .with(20, PropertyKey::InstanceId, units("USB\\VID_1234\\NODESERIAL"));
    let mut dev = fresh();
    dev.manufacturer_string = text("From the device");
    dev.serial_number = text("DEVSERIAL");
    dev.release_number = 0x0300;
    dev.interface_number = 1;
    let (dev, asked) = resolve(dev, &platform);
    assert_eq!(
        asked[4..].to_vec(),
        vec![
            node_property(20, PropertyKey::InstanceId),
            node_property(20, PropertyKey::HardwareIds),
        ]
    );
    assert_eq!(dev.manufacturer_string, text("From the device"));
    assert_eq!(dev.serial_number, text("DEVSERIAL"));
    assert_eq!(dev.release_number, 0x0300);
    assert_eq!(dev.interface_number, 1);
}

#[test]
fn manufacturer_is_not_overwritten_even_if_offered() {
    let mut dev = fresh();
    dev.manufacturer_string = text("Kept");
    let mut resolution = Resolution::begin(dev);
    resolution.answer(Answer::Units(units("HID\\X")));
    resolution.answer(Answer::Node(10));
    resolution.answer(Answer::Node(20));
    resolution.answer(Answer::Units(list(&["BTHLEDEVICE\\x"])));
    assert_eq!(resolution.stage(), Stage::BleDeviceAddress { node: 20 });
    resolution.answer(Answer::Units(units("AABBCCDDEEFF")));
    resolution.answer(Answer::Units(units("Model 7")));
    assert!(resolution.is_done());
    resolution.answer(Answer::Units(units("Too late")));
    let dev = resolution.into_device().unwrap();
    assert_eq!(dev.manufacturer_string, text("Kept"));
    assert_eq!(dev.serial_number, text("AABBCCDDEEFF"));
    assert_eq!(dev.product_string, text("Model 7"));
}

#[test]
fn raw_and_absent_strings_are_replaced() {
    let platform = Platform::new("HID\\X", 10, 20)
        .with(20, PropertyKey::CompatibleIds, list(&["USB\\Class_03"]))
        .with(20, PropertyKey::Manufacturer, units("ACME"))
        .with(20, PropertyKey::InstanceId, units("USB\\VID_1\\S1"));
    let mut dev = fresh();
    dev.manufacturer_string = WcharString::Raw(vec![0xD800]);
    dev.serial_number = WcharString::Absent;
    let (dev, _) = resolve(dev, &platform);
    assert_eq!(dev.manufacturer_string, text("ACME"));
    assert_eq!(dev.serial_number, text("S1"));
}

#[test]
fn usb_steps_are_skipped_one_by_one() {
    let platform = Platform::new("HID\\X", 10, 20)
        .with(20, PropertyKey::CompatibleIds, list(&["USB\\Class_03"]))
        .with(20, PropertyKey::Manufacturer, units("ACME"));
    let (dev, asked) = resolve(fresh(), &platform);
    assert_eq!(asked.len(), 8);
    let mut expected = fresh();
    expected.bus_type = BusType::Usb;
    expected.manufacturer_string = text("ACME");
    expected.interface_number = 0;
    assert_eq!(dev, expected);
}

#[test]
fn usb_function_without_parent_is_read_itself() {
    let platform = Platform::new("HID\\X", 10, 20)
        .with(20, PropertyKey::CompatibleIds, list(&["USB\\Class_FF"]))
        .with(20, PropertyKey::InstanceId, units("USB\\VID_045E&IG_01\\1"))
        .with(20, PropertyKey::HardwareIds, list(&["USB\\REV_0100"]))
        .with(20, PropertyKey::Manufacturer, units("ACME"));
    let (dev, asked) = resolve(fresh(), &platform);
    assert_eq!(
        asked[4..].to_vec(),
        vec![
            node_property(20, PropertyKey::InstanceId),
            Query::Parent { node: 20 },
            node_property(20, PropertyKey::HardwareIds),
            node_property(20, PropertyKey::Manufacturer),
            node_property(20, PropertyKey::InstanceId),
        ]
    );
    let mut expected = fresh();
    expected.bus_type = BusType::Usb;
    expected.release_number = 0x0100;
    expected.manufacturer_string = text("ACME");
    expected.serial_number = text("1");
    expected.interface_number = 0;
    assert_eq!(dev, expected);
}

#[test]
fn usb_serial_is_skipped_without_composite_parent() {
    let platform = Platform::new("HID\\X", 10, 20)
        .with(20, PropertyKey::CompatibleIds, list(&["USB\\Class_03"]))
        .with(20, PropertyKey::HardwareIds, list(&["USB\\MI_01"]))
        .with(20, PropertyKey::InstanceId, units("USB\\VID_1\\NOTTHEPARENT"));
    let (dev, asked) = resolve(fresh(), &platform);
    assert_eq!(asked[asked.len() - 1], Query::Parent { node: 20 });
    assert_eq!(dev.serial_number, text(""));
    assert_eq!(dev.interface_number, 1);
}

#[test]
fn ble_device_gets_its_three_strings() {
    let platform = Platform::new("HID\\{00001812}_Dev\\9&1", 10, 20)
        .with(20, PropertyKey::CompatibleIds, list(&["BTHLEDevice\\{00001812-0000-1000-8000-00805f9b34fb}"]))
        .with(20, PropertyKey::BluetoothManufacturer, units("Contoso"))
        .with(20, PropertyKey::BluetoothDeviceAddress, units("C0FFEE123456"))
        .with(20, PropertyKey::BluetoothModelNumber, units("Mouse 3000"))
        .with(20, PropertyKey::Manufacturer, units("Wrong key"))
        .with_parent(20, 30)
        .with(30, PropertyKey::Name, units("Wrong name"));
    let (dev, asked) = resolve(fresh(), &platform);
    assert_eq!(
        asked[4..].to_vec(),
        vec![
            node_property(20, PropertyKey::BluetoothManufacturer),
            node_property(20, PropertyKey::BluetoothDeviceAddress),
            node_property(20, PropertyKey::BluetoothModelNumber),
        ]
    );
    let mut expected = fresh();
    expected.bus_type = BusType::BluetoothLE;
    expected.manufacturer_string = text("Contoso");
    expected.serial_number = text("C0FFEE123456");
    expected.product_string = text("Mouse 3000");
    expected.interface_number = 0;
    assert_eq!(dev, expected);
}

#[test]
fn ble_product_falls_back_to_name_of_parent() {
    let platform = Platform::new("HID\\X", 10, 20)
        .with(20, PropertyKey::CompatibleIds, list(&["BTHLEDEVICE\\x"]))
        .with_parent(20, 30)
        .with(20, PropertyKey::Name, units("Name of the node"))
        .with(30, PropertyKey::Name, units("Name of the parent"));
    let (dev, asked) = resolve(fresh(), &platform);
    assert_eq!(
        asked[6..].to_vec(),
        vec![
            node_property(20, PropertyKey::BluetoothModelNumber),
            Query::Parent { node: 20 },
            node_property(30, PropertyKey::Name),
        ]
    );
    assert_eq!(dev.product_string, text("Name of the parent"));
    assert_eq!(dev.manufacturer_string, text(""));
    assert_eq!(dev.serial_number, text(""));
    assert_eq!(dev.bus_type, BusType::BluetoothLE);
}

#[test]
fn ble_steps_skip_known_fields() {
    let platform = Platform::new("HID\\X", 10, 20)
        .with(20, PropertyKey::CompatibleIds, list(&["BTHLEDEVICE\\x"]))
        .with(20, PropertyKey::BluetoothManufacturer, units("Other"))
        .with(20, PropertyKey::BluetoothDeviceAddress, units("Other"))
        .with(20, PropertyKey::BluetoothModelNumber, units("Other"));
    let mut dev = fresh();
    dev.manufacturer_string = text("M");
    dev.serial_number = text("S");
    dev.product_string = text("P");
    let (dev, asked) = resolve(dev, &platform);
    assert_eq!(asked.len(), 4);
    assert_eq!(dev.manufacturer_string, text("M"));
    assert_eq!(dev.serial_number, text("S"));
    assert_eq!(dev.product_string, text("P"));
}

#[test]
fn answers_of_the_wrong_kind_count_as_absent() {
    let mut resolution = Resolution::begin(fresh());
    resolution.answer(Answer::Node(5));
    assert!(resolution.is_done());
    assert_eq!(resolution.query(), None);
    let mut resolution = Resolution::begin(fresh());
    resolution.answer(Answer::Units(units("HID\\X")));
    resolution.answer(Answer::Units(units("no node")));
    assert!(resolution.is_done());
    assert_eq!(resolution.into_device().unwrap().interface_number, 0);
}

#[test]
fn property_values_keep_their_terminating_nul() {
    let platform = Platform::new("HID\\X", 10, 20)
        .with(20, PropertyKey::CompatibleIds, list(&["USB\\Class_03"]))
        .with(20, PropertyKey::Manufacturer, units("ACME\0"));
    let (dev, _) = resolve(fresh(), &platform);
    assert_eq!(dev.manufacturer_string, text("ACME\0"));
}

#[test]
fn first_revision_in_the_list_is_the_release_number() {
    let platform = Platform::new("HID\\X", 10, 20)
        .with(20, PropertyKey::CompatibleIds, list(&["USB\\Class_03"]))
        .with(
            20,
            PropertyKey::HardwareIds,
            list(&["USB\\VID_1&PID_2", "USB\\VID_1&REV_1201", "USB\\VID_1&REV_2400&MI_00"]),
        );
    let (dev, _) = resolve(fresh(), &platform);
    assert_eq!(dev.release_number, 0x1201);
    assert_eq!(dev.interface_number, 0);
}

#[test]
fn longest_resolution_asks_ten_questions() {
    let platform = Platform::new("HID\\X", 10, 20)
        .with(20, PropertyKey::CompatibleIds, list(&["USB\\Class_FF"]))
        .with(20, PropertyKey::InstanceId, units("USB\\VID_045E&PID_028E&IG_02\\7&1"))
        .with_parent(20, 30)
        .with_parent(30, 40)
        .with(30, PropertyKey::HardwareIds, list(&["USB\\VID_045E&PID_028E&REV_0114&MI_01"]))
        .with(40, PropertyKey::InstanceId, units("USB\\VID_045E&PID_028E\\00A1"));
    let (dev, asked) = resolve(fresh(), &platform);
    assert_eq!(asked.len(), MAX_QUESTIONS);
    assert_eq!(
        asked[4..].to_vec(),
        vec![
            node_property(20, PropertyKey::InstanceId),
            Query::Parent { node: 20 },
            node_property(30, PropertyKey::HardwareIds),
            node_property(30, PropertyKey::Manufacturer),
            Query::Parent { node: 30 },
            node_property(40, PropertyKey::InstanceId),
        ]
    );
    let mut expected = fresh();
    expected.bus_type = BusType::Usb;
    expected.release_number = 0x0114;
    expected.interface_number = 1;
    expected.serial_number = text("00A1");
    assert_eq!(dev, expected);
}

#[test]
fn recording_gives_the_first_answer_written() {
    let mut recording = Recording::new();
    let parent = Query::Parent { node: 7 };
    assert_eq!(recording.answer(&parent), Answer::Absent);
    recording.record(Query::Parent { node: 7 }, Answer::Node(8));
    recording.record(Query::Parent { node: 7 }, Answer::Node(9));
    recording.record(Query::Parent { node: 8 }, Answer::Absent);
    recording.record(
        Query::LocateNode { instance_id: units("HID\\A") },
        Answer::Node(1),
    );
    recording.record(node_property(7, PropertyKey::Name), Answer::Units(units("Seven")));
    assert_eq!(recording.answer(&parent), Answer::Node(8));
    assert_eq!(recording.answer(&Query::Parent { node: 8 }), Answer::Absent);
    assert_eq!(recording.answer(&Query::Parent { node: 9 }), Answer::Absent);
    assert_eq!(
        recording.answer(&Query::LocateNode { instance_id: units("HID\\A") }),
        Answer::Node(1)
    );
    assert_eq!(
        recording.answer(&Query::LocateNode { instance_id: units("HID\\B") }),
        Answer::Absent
    );
    assert_eq!(
        recording.answer(&Query::LocateNode { instance_id: units("HID\\") }),
        Answer::Absent
    );
    assert_eq!(
        recording.answer(&node_property(7, PropertyKey::Name)),
        Answer::Units(units("Seven"))
    );
    assert_eq!(recording.answer(&node_property(7, PropertyKey::Manufacturer)), Answer::Absent);
    assert_eq!(
        recording.answer(&Query::InterfaceProperty { key: PropertyKey::Name }),
        Answer::Absent
    );
}

#[test]
fn empty_recording_only_normalizes() {
    let mut expected = fresh();
    expected.interface_number = 0;
    assert_eq!(Recording::new().resolve(fresh()), expected);
    let mut known = fresh();
    known.interface_number = 4;
    assert_eq!(Recording::new().resolve(known.clone()), known);
}
