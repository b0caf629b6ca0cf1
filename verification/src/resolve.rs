//! Resolution of a device's identity, one question to the platform at a time.
//!
//! A `Resolution` holds the record of one device interface and knows which
//! question it needs answered next. The caller puts the question to the
//! platform and hands the answer back, until no question is left. What the
//! record holds then is stated in `outcome`, for every platform.

use vstd::prelude::*;
use vstd::slice::slice_to_vec;
use crate::bus::{classify, classify_compatible_ids, reported_bus, BusType, InternalBusType};
use crate::device_info::{normalized, DeviceInfo, DeviceInfoView, UNKNOWN_INTERFACE};
use crate::list::split_at_nul;
use crate::query::{node_of, units_of, Answer, AnswerView, PropertyKey, Query, QueryView};
use crate::token::{extract_int_token_value, to_upper, token_value, upper_units};
use crate::usb::{
    interface_in, release_in, scan_hardware_ids, serial_from_instance_id, serial_segment,
};
use crate::utf16::encode_utf16;
use crate::wstring::{is_blank, u16str_to_wstring, wstring_of};

verus! {

/// Where a resolution stands: the question it waits for, or `Done`.
#[derive(Clone, Copy, Debug, PartialEq, Eq, Structural)]
pub enum Stage {
    /// Waits for the instance identifier of the interface.
    InterfaceInstanceId,
    /// Waits for the node that has that identifier.
    Locate,
    /// Waits for the parent of the interface's node: the device's own node.
    Owner { node: u32 },
    /// Waits for the compatible identifiers of the device's node.
    CompatibleIds { node: u32 },
    /// USB: waits for the node's instance identifier.
    UsbInstanceId { node: u32 },
    /// USB: the node is one function of a composite controller; waits for its
    /// parent.
    UsbComposite { node: u32 },
    /// USB: waits for the hardware identifiers.
    UsbHardwareIds { node: u32 },
    /// USB: waits for the manufacturer.
    UsbManufacturer { node: u32 },
    /// USB: the node is one interface of a composite device; waits for its
    /// parent, whose identifier may end in the serial number.
    UsbCompositeParent { node: u32 },
    /// USB: waits for the instance identifier that may end in the serial
    /// number.
    UsbSerial { node: u32 },
    /// Bluetooth LE: waits for the manufacturer.
    BleManufacturer { node: u32 },
    /// Bluetooth LE: waits for the device address, which serves as serial
    /// number.
    BleDeviceAddress { node: u32 },
    /// Bluetooth LE: waits for the model number, which serves as product.
    BleModelNumber { node: u32 },
    /// Bluetooth LE: no model number; waits for the parent of the node.
    BleOwner { node: u32 },
    /// Bluetooth LE: waits for the display name of the parent.
    BleName { node: u32 },
    /// Nothing is left to ask.
    Done,
}

/// The resolution of one device's identity in progress.
#[derive(Debug)]
pub struct Resolution {
    stage: Stage,
    instance_id: Vec<u16>,
    dev: DeviceInfo,
}

/// What a `Resolution` holds.
pub struct ResolutionView {
    pub stage: Stage,
    pub instance_id: Seq<u16>,
    pub dev: DeviceInfoView,
}

impl View for Resolution {
    type V = ResolutionView;

    closed spec fn view(&self) -> ResolutionView {
        ResolutionView { stage: self.stage, instance_id: self.instance_id@, dev: self.dev@ }
    }
}

/// The state in which resolution of a record begins.
pub open spec fn begun(dev: DeviceInfoView) -> ResolutionView {
    ResolutionView { stage: Stage::InterfaceInstanceId, instance_id: Seq::empty(), dev }
}

/// The question that a state waits for.
pub open spec fn query_of(state: ResolutionView) -> Option<QueryView> {
    match state.stage {
        Stage::InterfaceInstanceId => Some(
            QueryView::InterfaceProperty { key: PropertyKey::InstanceId },
        ),
        Stage::Locate => Some(QueryView::LocateNode { instance_id: state.instance_id }),
        Stage::Owner { node } => Some(QueryView::Parent { node }),
        Stage::CompatibleIds { node } => Some(
            QueryView::NodeProperty { node, key: PropertyKey::CompatibleIds },
        ),
        Stage::UsbInstanceId { node } => Some(
            QueryView::NodeProperty { node, key: PropertyKey::InstanceId },
        ),
        Stage::UsbComposite { node } => Some(QueryView::Parent { node }),
        Stage::UsbHardwareIds { node } => Some(
            QueryView::NodeProperty { node, key: PropertyKey::HardwareIds },
        ),
        Stage::UsbManufacturer { node } => Some(
            QueryView::NodeProperty { node, key: PropertyKey::Manufacturer },
        ),
        Stage::UsbCompositeParent { node } => Some(QueryView::Parent { node }),
        Stage::UsbSerial { node } => Some(
            QueryView::NodeProperty { node, key: PropertyKey::InstanceId },
        ),
        Stage::BleManufacturer { node } => Some(
            QueryView::NodeProperty { node, key: PropertyKey::BluetoothManufacturer },
        ),
        Stage::BleDeviceAddress { node } => Some(
            QueryView::NodeProperty { node, key: PropertyKey::BluetoothDeviceAddress },
        ),
        Stage::BleModelNumber { node } => Some(
            QueryView::NodeProperty { node, key: PropertyKey::BluetoothModelNumber },
        ),
        Stage::BleOwner { node } => Some(QueryView::Parent { node }),
        Stage::BleName { node } => Some(QueryView::NodeProperty { node, key: PropertyKey::Name }),
        Stage::Done => None,
    }
}

/// An instance identifier names one function of a composite controller: in
/// upper case it holds `IG_` with a hexadecimal number behind it.
pub open spec fn names_composite_function(instance_id: Seq<u16>) -> bool {
    token_value(upper_units(instance_id), encode_utf16("IG_"@)) is Some
}

/// The record after its hardware identifiers were read: a release number
/// that was 0 and an interface number that was unknown are taken from the
/// list, where it gives them.
pub open spec fn with_hardware_ids(dev: DeviceInfoView, ids: Seq<Seq<u16>>) -> DeviceInfoView {
    DeviceInfoView {
        release_number: if dev.release_number == 0 && release_in(ids) is Some {
            release_in(ids)->0
        } else {
            dev.release_number
        },
        interface_number: if dev.interface_number == UNKNOWN_INTERFACE && interface_in(ids)
            is Some {
            interface_in(ids)->0
        } else {
            dev.interface_number
        },
        ..dev
    }
}

/// The record with the manufacturer that units spell, if there are units
/// and the record has no manufacturer.
pub open spec fn with_manufacturer(dev: DeviceInfoView, units: Option<Seq<u16>>) -> DeviceInfoView {
    match units {
        Some(units) if is_blank(dev.manufacturer_string) => DeviceInfoView {
            manufacturer_string: wstring_of(units),
            ..dev
        },
        _ => dev,
    }
}

/// The record with the serial number that units spell, if there are units
/// and the record has no serial number.
pub open spec fn with_serial(dev: DeviceInfoView, units: Option<Seq<u16>>) -> DeviceInfoView {
    match units {
        Some(units) if is_blank(dev.serial_number) => DeviceInfoView {
            serial_number: wstring_of(units),
            ..dev
        },
        _ => dev,
    }
}

/// The record with the product that units spell, if there are units and the
/// record has no product.
pub open spec fn with_product(dev: DeviceInfoView, units: Option<Seq<u16>>) -> DeviceInfoView {
    match units {
        Some(units) if is_blank(dev.product_string) => DeviceInfoView {
            product_string: wstring_of(units),
            ..dev
        },
        _ => dev,
    }
}

/// The state that ends a resolution: the record normalized, nothing left to
/// ask.
pub open spec fn done(state: ResolutionView) -> ResolutionView {
    ResolutionView { stage: Stage::Done, dev: normalized(state.dev), ..state }
}

/// The state that goes on to another stage.
pub open spec fn at_stage(state: ResolutionView, stage: Stage) -> ResolutionView {
    ResolutionView { stage, ..state }
}

/// USB, once the hardware identifiers were dealt with: ask for the
/// manufacturer if the record has none.
pub open spec fn usb_after_hardware_ids(state: ResolutionView, node: u32) -> ResolutionView {
    if is_blank(state.dev.manufacturer_string) {
        at_stage(state, Stage::UsbManufacturer { node })
    } else {
        usb_after_manufacturer(state, node)
    }
}

/// USB, once the manufacturer was dealt with: look for a serial number if
/// the record has none, at the parent where the node is one interface of a
/// composite device.
pub open spec fn usb_after_manufacturer(state: ResolutionView, node: u32) -> ResolutionView {
    if is_blank(state.dev.serial_number) {
        if state.dev.interface_number != UNKNOWN_INTERFACE {
            at_stage(state, Stage::UsbCompositeParent { node })
        } else {
            at_stage(state, Stage::UsbSerial { node })
        }
    } else {
        done(state)
    }
}

/// Bluetooth LE, at its start: ask for the manufacturer if the record has
/// none.
pub open spec fn ble_begin(state: ResolutionView, node: u32) -> ResolutionView {
    if is_blank(state.dev.manufacturer_string) {
        at_stage(state, Stage::BleManufacturer { node })
    } else {
        ble_after_manufacturer(state, node)
    }
}

/// Bluetooth LE, once the manufacturer was dealt with.
pub open spec fn ble_after_manufacturer(state: ResolutionView, node: u32) -> ResolutionView {
    if is_blank(state.dev.serial_number) {
        at_stage(state, Stage::BleDeviceAddress { node })
    } else {
        ble_after_serial(state, node)
    }
}

/// Bluetooth LE, once the serial number was dealt with.
pub open spec fn ble_after_serial(state: ResolutionView, node: u32) -> ResolutionView {
    if is_blank(state.dev.product_string) {
        at_stage(state, Stage::BleModelNumber { node })
    } else {
        done(state)
    }
}

/// The state with another record.
pub open spec fn with_dev(state: ResolutionView, dev: DeviceInfoView) -> ResolutionView {
    ResolutionView { dev, ..state }
}

/// The state that follows when the question of `state` gets `answer`.
pub open spec fn step(state: ResolutionView, answer: AnswerView) -> ResolutionView {
    match state.stage {
        Stage::InterfaceInstanceId => match units_of(answer) {
            Some(id) => ResolutionView { stage: Stage::Locate, instance_id: id, ..state },
            None => done(state),
        },
        Stage::Locate => match node_of(answer) {
            Some(node) => at_stage(state, Stage::Owner { node }),
            None => done(state),
        },
        Stage::Owner { .. } => match node_of(answer) {
            Some(owner) => at_stage(state, Stage::CompatibleIds { node: owner }),
            None => done(state),
        },
        Stage::CompatibleIds { node } => match units_of(answer) {
            Some(list) => {
                let class = classify(split_at_nul(list));
                let classified = with_dev(
                    state,
                    DeviceInfoView { bus_type: reported_bus(class), ..state.dev },
                );
                match class {
                    InternalBusType::Usb => at_stage(classified, Stage::UsbInstanceId { node }),
                    InternalBusType::BluetoothLE => ble_begin(classified, node),
                    _ => done(classified),
                }
            },
            None => done(state),
        },
        Stage::UsbInstanceId { node } => match units_of(answer) {
            Some(id) => if names_composite_function(id) {
                at_stage(state, Stage::UsbComposite { node })
            } else {
                at_stage(state, Stage::UsbHardwareIds { node })
            },
            None => at_stage(state, Stage::UsbHardwareIds { node }),
        },
        Stage::UsbComposite { node } => match node_of(answer) {
            Some(owner) => at_stage(state, Stage::UsbHardwareIds { node: owner }),
            None => at_stage(state, Stage::UsbHardwareIds { node }),
        },
        Stage::UsbHardwareIds { node } => match units_of(answer) {
            Some(list) => usb_after_hardware_ids(
                with_dev(state, with_hardware_ids(state.dev, split_at_nul(list))),
                node,
            ),
            None => usb_after_hardware_ids(state, node),
        },
        Stage::UsbManufacturer { node } => usb_after_manufacturer(
            with_dev(state, with_manufacturer(state.dev, units_of(answer))),
            node,
        ),
        Stage::UsbCompositeParent { .. } => match node_of(answer) {
            Some(owner) => at_stage(state, Stage::UsbSerial { node: owner }),
            None => done(state),
        },
        Stage::UsbSerial { .. } => match units_of(answer) {
            Some(id) => done(with_dev(state, with_serial(state.dev, serial_segment(id)))),
            None => done(state),
        },
        Stage::BleManufacturer { node } => ble_after_manufacturer(
            with_dev(state, with_manufacturer(state.dev, units_of(answer))),
            node,
        ),
        Stage::BleDeviceAddress { node } => ble_after_serial(
            with_dev(state, with_serial(state.dev, units_of(answer))),
            node,
        ),
        Stage::BleModelNumber { node } => match units_of(answer) {
            Some(units) => done(with_dev(state, with_product(state.dev, Some(units)))),
            None => at_stage(state, Stage::BleOwner { node }),
        },
        Stage::BleOwner { .. } => match node_of(answer) {
            Some(owner) => at_stage(state, Stage::BleName { node: owner }),
            None => done(state),
        },
        Stage::BleName { .. } => done(with_dev(state, with_product(state.dev, units_of(answer)))),
        Stage::Done => state,
    }
}

impl Resolution {
    /// Begins the resolution of a record.
    pub fn begin(dev: DeviceInfo) -> (resolution: Resolution)
        ensures
            resolution@ == begun(dev@),
    {
        Resolution { stage: Stage::InterfaceInstanceId, instance_id: Vec::new(), dev }
    }

    /// Where the resolution stands.
    pub fn stage(&self) -> (stage: Stage)
        ensures
            stage == self@.stage,
    {
        self.stage
    }

    /// Whether nothing is left to ask.
    pub fn is_done(&self) -> (finished: bool)
        ensures
            finished == (self@.stage == Stage::Done),
            finished == (query_of(self@) is None),
    {
        match self.stage {
            Stage::Done => true,
            _ => false,
        }
    }

    /// The record, once nothing is left to ask. A resolution that is not done
    /// is handed back as it is: no record is given out half resolved.
    pub fn into_device(self) -> (outcome: Result<DeviceInfo, Resolution>)
        ensures
            match outcome {
                Ok(dev) => self@.stage == Stage::Done && dev@ == self@.dev,
                Err(unfinished) => self@.stage != Stage::Done && unfinished@ == self@,
            },
    {
        match self.stage {
            Stage::Done => Ok(self.dev),
            _ => Err(self),
        }
    }

    fn set_manufacturer(&mut self, answer: Answer)
        ensures
            final(self)@ == with_dev(
                old(self)@,
                with_manufacturer(old(self)@.dev, units_of(answer@)),
            ),
    {
        match answer {
            Answer::Units(units) => {
                if self.dev.manufacturer_string.is_blank() {
                    self.dev.manufacturer_string = u16str_to_wstring(units.as_slice());
                }
            },
            _ => {},
        }
    }

    fn set_product(&mut self, answer: Answer)
        ensures
            final(self)@ == with_dev(old(self)@, with_product(old(self)@.dev, units_of(answer@))),
    {
        match answer {
            Answer::Units(units) => {
                if self.dev.product_string.is_blank() {
                    self.dev.product_string = u16str_to_wstring(units.as_slice());
                }
            },
            _ => {},
        }
    }

    fn finish(&mut self)
        ensures
            final(self)@ == done(old(self)@),
    {
        self.dev.normalize();
        self.stage = Stage::Done;
    }

    fn usb_after_manufacturer(&mut self, node: u32)
        ensures
            final(self)@ == usb_after_manufacturer(old(self)@, node),
    {
        if self.dev.serial_number.is_blank() {
            if self.dev.interface_number != UNKNOWN_INTERFACE {
                self.stage = Stage::UsbCompositeParent { node };
            } else {
                self.stage = Stage::UsbSerial { node };
            }
        } else {
            self.finish();
        }
    }

    fn usb_after_hardware_ids(&mut self, node: u32)
        ensures
            final(self)@ == usb_after_hardware_ids(old(self)@, node),
    {
        if self.dev.manufacturer_string.is_blank() {
            self.stage = Stage::UsbManufacturer { node };
        } else {
            self.usb_after_manufacturer(node);
        }
    }

    fn ble_after_serial(&mut self, node: u32)
        ensures
            final(self)@ == ble_after_serial(old(self)@, node),
    {
        if self.dev.product_string.is_blank() {
            self.stage = Stage::BleModelNumber { node };
        } else {
            self.finish();
        }
    }

    fn ble_after_manufacturer(&mut self, node: u32)
        ensures
            final(self)@ == ble_after_manufacturer(old(self)@, node),
    {
        if self.dev.serial_number.is_blank() {
            self.stage = Stage::BleDeviceAddress { node };
        } else {
            self.ble_after_serial(node);
        }
    }

    fn ble_begin(&mut self, node: u32)
        ensures
            final(self)@ == ble_begin(old(self)@, node),
    {
        if self.dev.manufacturer_string.is_blank() {
            self.stage = Stage::BleManufacturer { node };
        } else {
            self.ble_after_manufacturer(node);
        }
    }

    /// The question to put to the platform next, if one is left.
    pub fn query(&self) -> (query: Option<Query>)
        ensures
            query is Some <==> query_of(self@) is Some,
            query matches Some(asked) ==> query_of(self@) == Some(asked@),
    {
        match self.stage {
            Stage::InterfaceInstanceId => Some(
                Query::InterfaceProperty { key: PropertyKey::InstanceId },
            ),
            Stage::Locate => Some(
                Query::LocateNode { instance_id: slice_to_vec(self.instance_id.as_slice()) },
            ),
            Stage::Owner { node } => Some(Query::Parent { node }),
            Stage::CompatibleIds { node } => Some(
                Query::NodeProperty { node, key: PropertyKey::CompatibleIds },
            ),
            Stage::UsbInstanceId { node } => Some(
                Query::NodeProperty { node, key: PropertyKey::InstanceId },
            ),
            Stage::UsbComposite { node } => Some(Query::Parent { node }),
            Stage::UsbHardwareIds { node } => Some(
                Query::NodeProperty { node, key: PropertyKey::HardwareIds },
            ),
            Stage::UsbManufacturer { node } => Some(
                Query::NodeProperty { node, key: PropertyKey::Manufacturer },
            ),
            Stage::UsbCompositeParent { node } => Some(Query::Parent { node }),
            Stage::UsbSerial { node } => Some(
                Query::NodeProperty { node, key: PropertyKey::InstanceId },
            ),
            Stage::BleManufacturer { node } => Some(
                Query::NodeProperty { node, key: PropertyKey::BluetoothManufacturer },
            ),
            Stage::BleDeviceAddress { node } => Some(
                Query::NodeProperty { node, key: PropertyKey::BluetoothDeviceAddress },
            ),
            Stage::BleModelNumber { node } => Some(
                Query::NodeProperty { node, key: PropertyKey::BluetoothModelNumber },
            ),
            Stage::BleOwner { node } => Some(Query::Parent { node }),
            Stage::BleName { node } => Some(Query::NodeProperty { node, key: PropertyKey::Name }),
            Stage::Done => None,
        }
    }

    /// Takes the platform's answer to the question that `query` gave, and
    /// moves on. An answer of the wrong kind counts as `Absent`; an answer to
    /// a resolution that is done changes nothing.
    pub fn answer(&mut self, answer: Answer)
        ensures
            final(self)@ == step(old(self)@, answer@),
    {
        match self.stage {
            Stage::InterfaceInstanceId => match answer {
                Answer::Units(id) => {
                    self.instance_id = id;
                    self.stage = Stage::Locate;
                },
                _ => self.finish(),
            },
            Stage::Locate => match answer {
                Answer::Node(node) => {
                    self.stage = Stage::Owner { node };
                },
                _ => self.finish(),
            },
            Stage::Owner { .. } => match answer {
                Answer::Node(owner) => {
                    self.stage = Stage::CompatibleIds { node: owner };
                },
                _ => self.finish(),
            },
            Stage::CompatibleIds { node } => match answer {
                Answer::Units(list) => {
                    let class: InternalBusType = classify_compatible_ids(list.as_slice());
                    self.dev.bus_type = BusType::from(class);
                    match class {
                        InternalBusType::Usb => {
                            self.stage = Stage::UsbInstanceId { node };
                        },
                        InternalBusType::BluetoothLE => self.ble_begin(node),
                        _ => self.finish(),
                    }
                },
                _ => self.finish(),
            },
            Stage::UsbInstanceId { node } => match answer {
                Answer::Units(id) => {
                    let mut upper: Vec<u16> = id;
                    to_upper(upper.as_mut_slice());
                    if extract_int_token_value(upper.as_slice(), "IG_").is_some() {
                        self.stage = Stage::UsbComposite { node };
                    } else {
                        self.stage = Stage::UsbHardwareIds { node };
                    }
                },
                _ => {
                    self.stage = Stage::UsbHardwareIds { node };
                },
            },
            Stage::UsbComposite { node } => match answer {
                Answer::Node(owner) => {
                    self.stage = Stage::UsbHardwareIds { node: owner };
                },
                _ => {
                    self.stage = Stage::UsbHardwareIds { node };
                },
            },
            Stage::UsbHardwareIds { node } => {
                match answer {
                    Answer::Units(list) => {
                        let (release, interface) = scan_hardware_ids(list.as_slice());
                        if self.dev.release_number == 0 {
                            if let Some(release_number) = release {
                                self.dev.release_number = release_number;
                            }
                        }
                        if self.dev.interface_number == UNKNOWN_INTERFACE {
                            if let Some(interface_number) = interface {
                                self.dev.interface_number = interface_number;
                            }
                        }
                    },
                    _ => {},
                }
                self.usb_after_hardware_ids(node);
            },
            Stage::UsbManufacturer { node } => {
                self.set_manufacturer(answer);
                self.usb_after_manufacturer(node);
            },
            Stage::UsbCompositeParent { .. } => match answer {
                Answer::Node(owner) => {
                    self.stage = Stage::UsbSerial { node: owner };
                },
                _ => self.finish(),
            },
            Stage::UsbSerial { .. } => {
                match answer {
                    Answer::Units(id) => {
                        if self.dev.serial_number.is_blank() {
                            if let Some(serial) = serial_from_instance_id(id.as_slice()) {
                                self.dev.serial_number = serial;
                            }
                        }
                    },
                    _ => {},
                }
                self.finish();
            },
            Stage::BleManufacturer { node } => {
                self.set_manufacturer(answer);
                self.ble_after_manufacturer(node);
            },
            Stage::BleDeviceAddress { node } => {
                match answer {
                    Answer::Units(units) => {
                        if self.dev.serial_number.is_blank() {
                            self.dev.serial_number = u16str_to_wstring(units.as_slice());
                        }
                    },
                    _ => {},
                }
                self.ble_after_serial(node);
            },
            Stage::BleModelNumber { node } => match answer {
                Answer::Units(units) => {
                    self.set_product(Answer::Units(units));
                    self.finish();
                },
                _ => {
                    self.stage = Stage::BleOwner { node };
                },
            },
            Stage::BleOwner { .. } => match answer {
                Answer::Node(owner) => {
                    self.stage = Stage::BleName { node: owner };
                },
                _ => self.finish(),
            },
            Stage::BleName { .. } => {
                self.set_product(answer);
                self.finish();
            },
            Stage::Done => {},
        }
    }
}

} // verus!
