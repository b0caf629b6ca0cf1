//! What a resolution comes to.
//!
//! A platform is taken as a function from questions to answers. `resolved`
//! says what a record holds once every question was answered by it, and
//! `theorem_resolution` shows that a `Resolution` driven by that platform
//! ends with exactly that record.

use vstd::prelude::*;
use crate::bus::{
    class_of, classify, lemma_no_known_prefix_is_unknown, reported_bus, BusType, InternalBusType,
};
use crate::device_info::{normalized, DeviceInfoView, UNKNOWN_INTERFACE};
use crate::list::split_at_nul;
use crate::query::{node_of, units_of, AnswerView, PropertyKey, QueryView};
use crate::resolve::{
    at_stage, begun, ble_after_manufacturer, ble_after_serial, ble_begin, done,
    names_composite_function, query_of, step, usb_after_hardware_ids, usb_after_manufacturer,
    with_dev, with_hardware_ids, with_manufacturer, with_product, with_serial, ResolutionView,
    Stage,
};
use crate::token::{token_value, upper_units};
use crate::usb::{first_token_value, lemma_first_token_value, serial_segment};
use crate::utf16::encode_utf16;
use crate::wstring::is_blank;

verus! {

/// The value of a node's property on a platform.
pub open spec fn node_units(
    platform: spec_fn(QueryView) -> AnswerView,
    node: u32,
    key: PropertyKey,
) -> Option<Seq<u16>> {
    units_of(platform(QueryView::NodeProperty { node, key }))
}

/// The parent of a node on a platform.
pub open spec fn parent_of(platform: spec_fn(QueryView) -> AnswerView, node: u32) -> Option<u32> {
    node_of(platform(QueryView::Parent { node }))
}

/// The device's own node: the parent of the node that has the interface's
/// instance identifier.
pub open spec fn owning_node(platform: spec_fn(QueryView) -> AnswerView) -> Option<u32> {
    match units_of(platform(QueryView::InterfaceProperty { key: PropertyKey::InstanceId })) {
        Some(instance_id) => match node_of(platform(QueryView::LocateNode { instance_id })) {
            Some(node) => parent_of(platform, node),
            None => None,
        },
        None => None,
    }
}

/// USB: the node that the device is read from. That is the parent where the
/// node's instance identifier names one function of a composite controller
/// and the parent is found, else the node itself.
pub open spec fn usb_device_node(platform: spec_fn(QueryView) -> AnswerView, node: u32) -> u32 {
    match node_units(platform, node, PropertyKey::InstanceId) {
        Some(id) if names_composite_function(id) => match parent_of(platform, node) {
            Some(owner) => owner,
            None => node,
        },
        _ => node,
    }
}

/// USB: the record after the hardware identifiers of the node.
pub open spec fn usb_hardware(
    platform: spec_fn(QueryView) -> AnswerView,
    dev: DeviceInfoView,
    node: u32,
) -> DeviceInfoView {
    match node_units(platform, node, PropertyKey::HardwareIds) {
        Some(list) => with_hardware_ids(dev, split_at_nul(list)),
        None => dev,
    }
}

/// USB: a record without manufacturer takes the node's, where it has one.
pub open spec fn usb_manufacturer(
    platform: spec_fn(QueryView) -> AnswerView,
    dev: DeviceInfoView,
    node: u32,
) -> DeviceInfoView {
    with_manufacturer(dev, node_units(platform, node, PropertyKey::Manufacturer))
}

/// USB: a record without serial number takes the one at the end of an
/// instance identifier, where one stands there: the identifier of the parent
/// if the record has an interface number, else that of the node.
pub open spec fn usb_serial(
    platform: spec_fn(QueryView) -> AnswerView,
    dev: DeviceInfoView,
    node: u32,
) -> DeviceInfoView {
    if is_blank(dev.serial_number) {
        let owner = if dev.interface_number != UNKNOWN_INTERFACE {
            parent_of(platform, node)
        } else {
            Some(node)
        };
        match owner {
            Some(owner) => match node_units(platform, owner, PropertyKey::InstanceId) {
                Some(id) => with_serial(dev, serial_segment(id)),
                None => dev,
            },
            None => dev,
        }
    } else {
        dev
    }
}

/// What the USB steps make of a record, on a platform, from the device's
/// node. A step whose question finds no answer leaves its fields as they
/// are, and the steps behind it go on.
pub open spec fn usb_resolved(
    platform: spec_fn(QueryView) -> AnswerView,
    dev: DeviceInfoView,
    node: u32,
) -> DeviceInfoView {
    let device = usb_device_node(platform, node);
    usb_serial(
        platform,
        usb_manufacturer(platform, usb_hardware(platform, dev, device), device),
        device,
    )
}

/// Bluetooth LE: the product of a node, its model number, or else the
/// display name of its parent.
pub open spec fn ble_product(platform: spec_fn(QueryView) -> AnswerView, node: u32) -> Option<
    Seq<u16>,
> {
    match node_units(platform, node, PropertyKey::BluetoothModelNumber) {
        Some(units) => Some(units),
        None => match parent_of(platform, node) {
            Some(owner) => node_units(platform, owner, PropertyKey::Name),
            None => None,
        },
    }
}

/// Bluetooth LE: a record without manufacturer takes the node's, where it
/// has one.
pub open spec fn ble_manufacturer(
    platform: spec_fn(QueryView) -> AnswerView,
    dev: DeviceInfoView,
    node: u32,
) -> DeviceInfoView {
    with_manufacturer(dev, node_units(platform, node, PropertyKey::BluetoothManufacturer))
}

/// Bluetooth LE: a record without serial number takes the node's device
/// address, where it has one.
pub open spec fn ble_serial(
    platform: spec_fn(QueryView) -> AnswerView,
    dev: DeviceInfoView,
    node: u32,
) -> DeviceInfoView {
    with_serial(dev, node_units(platform, node, PropertyKey::BluetoothDeviceAddress))
}

/// Bluetooth LE: a record without product takes the node's, where it has
/// one.
pub open spec fn ble_named(
    platform: spec_fn(QueryView) -> AnswerView,
    dev: DeviceInfoView,
    node: u32,
) -> DeviceInfoView {
    with_product(dev, ble_product(platform, node))
}

/// What the Bluetooth LE steps make of a record: manufacturer, serial number
/// and product, each only where the record has none and the platform has
/// one.
pub open spec fn ble_resolved(
    platform: spec_fn(QueryView) -> AnswerView,
    dev: DeviceInfoView,
    node: u32,
) -> DeviceInfoView {
    ble_named(platform, ble_serial(platform, ble_manufacturer(platform, dev, node), node), node)
}

/// What resolution makes of a record whose device node is known.
pub open spec fn resolved_at(
    platform: spec_fn(QueryView) -> AnswerView,
    dev: DeviceInfoView,
    node: u32,
) -> DeviceInfoView {
    match node_units(platform, node, PropertyKey::CompatibleIds) {
        Some(list) => {
            let class = classify(split_at_nul(list));
            let classified = DeviceInfoView { bus_type: reported_bus(class), ..dev };
            match class {
                InternalBusType::Usb => usb_resolved(platform, classified, node),
                InternalBusType::BluetoothLE => ble_resolved(platform, classified, node),
                _ => classified,
            }
        },
        None => dev,
    }
}

/// What resolution makes of a record on a platform. Without the device's
/// node or its compatible identifiers the record only is normalized. Else it
/// gets the transport that the identifiers stand for, a USB or Bluetooth LE
/// device gets what its steps find, and the record is normalized.
pub open spec fn resolved(
    platform: spec_fn(QueryView) -> AnswerView,
    dev: DeviceInfoView,
) -> DeviceInfoView {
    normalized(
        match owning_node(platform) {
            Some(node) => resolved_at(platform, dev, node),
            None => dev,
        },
    )
}

/// The state after at most `steps` questions, each answered by the platform.
pub open spec fn run(
    platform: spec_fn(QueryView) -> AnswerView,
    state: ResolutionView,
    steps: nat,
) -> ResolutionView
    decreases steps,
{
    if steps == 0 {
        state
    } else {
        match query_of(state) {
            Some(query) => run(platform, step(state, platform(query)), (steps - 1) as nat),
            None => state,
        }
    }
}

/// The most questions that one resolution asks.
pub const MAX_QUESTIONS: usize = 10;

/// A resolution that is done after some steps is in the same state after
/// more.
pub proof fn lemma_run_settles(
    platform: spec_fn(QueryView) -> AnswerView,
    state: ResolutionView,
    steps: nat,
    more: nat,
)
    requires
        run(platform, state, steps).stage == Stage::Done,
        steps <= more,
    ensures
        run(platform, state, more) == run(platform, state, steps),
    decreases steps,
{
    if steps == 0 {
        reveal_with_fuel(run, 2);
    } else {
        match query_of(state) {
            Some(query) => {
                lemma_run_settles(
                    platform,
                    step(state, platform(query)),
                    (steps - 1) as nat,
                    (more - 1) as nat,
                );
            },
            None => {},
        }
    }
}

proof fn lemma_usb_serial_run(
    platform: spec_fn(QueryView) -> AnswerView,
    state: ResolutionView,
    node: u32,
)
    ensures
        run(platform, usb_after_manufacturer(state, node), 2).stage == Stage::Done,
        run(platform, usb_after_manufacturer(state, node), 2).dev == normalized(
            usb_serial(platform, state.dev, node),
        ),
{
    reveal_with_fuel(run, 3);
}

proof fn lemma_usb_manufacturer_run(
    platform: spec_fn(QueryView) -> AnswerView,
    state: ResolutionView,
    node: u32,
)
    ensures
        run(platform, usb_after_hardware_ids(state, node), 3).stage == Stage::Done,
        run(platform, usb_after_hardware_ids(state, node), 3).dev == normalized(
            usb_serial(platform, usb_manufacturer(platform, state.dev, node), node),
        ),
{
    if is_blank(state.dev.manufacturer_string) {
        let asked = at_stage(state, Stage::UsbManufacturer { node });
        let answer = platform(QueryView::NodeProperty { node, key: PropertyKey::Manufacturer });
        let next = step(asked, answer);
        let dev = usb_manufacturer(platform, state.dev, node);
        assert(next == usb_after_manufacturer(with_dev(asked, dev), node));
        lemma_usb_serial_run(platform, with_dev(asked, dev), node);
        assert(run(platform, asked, 3) == run(platform, next, 2));
    } else {
        lemma_usb_serial_run(platform, state, node);
        lemma_run_settles(platform, usb_after_manufacturer(state, node), 2, 3);
    }
}

proof fn lemma_usb_hardware_run(
    platform: spec_fn(QueryView) -> AnswerView,
    state: ResolutionView,
    node: u32,
)
    ensures
        run(platform, at_stage(state, Stage::UsbHardwareIds { node }), 4).stage == Stage::Done,
        run(platform, at_stage(state, Stage::UsbHardwareIds { node }), 4).dev == normalized(
            usb_serial(
                platform,
                usb_manufacturer(platform, usb_hardware(platform, state.dev, node), node),
                node,
            ),
        ),
{
    let asked = at_stage(state, Stage::UsbHardwareIds { node });
    let answer = platform(QueryView::NodeProperty { node, key: PropertyKey::HardwareIds });
    let next = step(asked, answer);
    let dev = usb_hardware(platform, state.dev, node);
    assert(next == usb_after_hardware_ids(with_dev(asked, dev), node));
    lemma_usb_manufacturer_run(platform, with_dev(asked, dev), node);
    assert(run(platform, asked, 4) == run(platform, next, 3));
}

proof fn lemma_usb_run(platform: spec_fn(QueryView) -> AnswerView, state: ResolutionView, node: u32)
    ensures
        run(platform, at_stage(state, Stage::UsbInstanceId { node }), 6).stage == Stage::Done,
        run(platform, at_stage(state, Stage::UsbInstanceId { node }), 6).dev == normalized(
            usb_resolved(platform, state.dev, node),
        ),
{
    let asked = at_stage(state, Stage::UsbInstanceId { node });
    let answer = platform(QueryView::NodeProperty { node, key: PropertyKey::InstanceId });
    let next = step(asked, answer);
    let device = usb_device_node(platform, node);
    assert(run(platform, asked, 6) == run(platform, next, 5));
    lemma_usb_hardware_run(platform, state, device);
    if units_of(answer) is Some && names_composite_function(units_of(answer)->0) {
        assert(next == at_stage(state, Stage::UsbComposite { node }));
        let after = step(next, platform(QueryView::Parent { node }));
        assert(run(platform, next, 5) == run(platform, after, 4));
        assert(after == at_stage(state, Stage::UsbHardwareIds { node: device }));
    } else {
        assert(next == at_stage(state, Stage::UsbHardwareIds { node }));
        lemma_run_settles(platform, next, 4, 5);
    }
}

proof fn lemma_ble_product_run(
    platform: spec_fn(QueryView) -> AnswerView,
    state: ResolutionView,
    node: u32,
)
    ensures
        run(platform, ble_after_serial(state, node), 3).stage == Stage::Done,
        run(platform, ble_after_serial(state, node), 3).dev == normalized(
            ble_named(platform, state.dev, node),
        ),
{
    reveal_with_fuel(run, 4);
}

proof fn lemma_ble_serial_run(
    platform: spec_fn(QueryView) -> AnswerView,
    state: ResolutionView,
    node: u32,
)
    ensures
        run(platform, ble_after_manufacturer(state, node), 4).stage == Stage::Done,
        run(platform, ble_after_manufacturer(state, node), 4).dev == normalized(
            ble_named(platform, ble_serial(platform, state.dev, node), node),
        ),
{
    if is_blank(state.dev.serial_number) {
        let asked = at_stage(state, Stage::BleDeviceAddress { node });
        let answer = platform(
            QueryView::NodeProperty { node, key: PropertyKey::BluetoothDeviceAddress },
        );
        let next = step(asked, answer);
        let dev = ble_serial(platform, state.dev, node);
        assert(next == ble_after_serial(with_dev(asked, dev), node));
        lemma_ble_product_run(platform, with_dev(asked, dev), node);
        assert(run(platform, asked, 4) == run(platform, next, 3));
    } else {
        lemma_ble_product_run(platform, state, node);
        lemma_run_settles(platform, ble_after_serial(state, node), 3, 4);
    }
}

proof fn lemma_ble_run(platform: spec_fn(QueryView) -> AnswerView, state: ResolutionView, node: u32)
    ensures
        run(platform, ble_begin(state, node), 5).stage == Stage::Done,
        run(platform, ble_begin(state, node), 5).dev == normalized(
            ble_resolved(platform, state.dev, node),
        ),
{
    if is_blank(state.dev.manufacturer_string) {
        let asked = at_stage(state, Stage::BleManufacturer { node });
        let answer = platform(
            QueryView::NodeProperty { node, key: PropertyKey::BluetoothManufacturer },
        );
        let next = step(asked, answer);
        let dev = ble_manufacturer(platform, state.dev, node);
        assert(next == ble_after_manufacturer(with_dev(asked, dev), node));
        lemma_ble_serial_run(platform, with_dev(asked, dev), node);
        assert(run(platform, asked, 5) == run(platform, next, 4));
    } else {
        lemma_ble_serial_run(platform, state, node);
        lemma_run_settles(platform, ble_after_manufacturer(state, node), 4, 5);
    }
}

proof fn lemma_classified_run(
    platform: spec_fn(QueryView) -> AnswerView,
    state: ResolutionView,
    node: u32,
)
    ensures
        run(platform, at_stage(state, Stage::CompatibleIds { node }), 7).stage == Stage::Done,
        run(platform, at_stage(state, Stage::CompatibleIds { node }), 7).dev == normalized(
            resolved_at(platform, state.dev, node),
        ),
{
    let asked = at_stage(state, Stage::CompatibleIds { node });
    let answer = platform(QueryView::NodeProperty { node, key: PropertyKey::CompatibleIds });
    let next = step(asked, answer);
    assert(run(platform, asked, 7) == run(platform, next, 6));
    match units_of(answer) {
        Some(list) => {
            let class = classify(split_at_nul(list));
            let classified = with_dev(
                asked,
                DeviceInfoView { bus_type: reported_bus(class), ..state.dev },
            );
            match class {
                InternalBusType::Usb => {
                    assert(next == at_stage(classified, Stage::UsbInstanceId { node }));
                    lemma_usb_run(platform, classified, node);
                },
                InternalBusType::BluetoothLE => {
                    assert(next == ble_begin(classified, node));
                    lemma_ble_run(platform, classified, node);
                    lemma_run_settles(platform, next, 5, 6);
                },
                _ => {
                    assert(next == done(classified));
                    assert(run(platform, next, 6) == next);
                },
            }
        },
        None => {
            assert(next == done(asked));
            assert(run(platform, next, 6) == next);
        },
    }
}

/// Whatever the platform answers, a resolution is done after at most
/// `MAX_QUESTIONS` questions, and its record is then `resolved`.
pub proof fn theorem_resolution(platform: spec_fn(QueryView) -> AnswerView, dev: DeviceInfoView)
    ensures
        run(platform, begun(dev), MAX_QUESTIONS as nat).stage == Stage::Done,
        run(platform, begun(dev), MAX_QUESTIONS as nat).dev == resolved(platform, dev),
{
    let start = begun(dev);
    let first = platform(QueryView::InterfaceProperty { key: PropertyKey::InstanceId });
    let located = step(start, first);
    assert(run(platform, start, 10) == run(platform, located, 9));
    match units_of(first) {
        Some(instance_id) => {
            let second = platform(QueryView::LocateNode { instance_id });
            let owned = step(located, second);
            assert(run(platform, located, 9) == run(platform, owned, 8));
            match node_of(second) {
                Some(found) => {
                    let third = platform(QueryView::Parent { node: found });
                    let asked = step(owned, third);
                    assert(run(platform, owned, 8) == run(platform, asked, 7));
                    match node_of(third) {
                        Some(node) => {
                            assert(asked == at_stage(owned, Stage::CompatibleIds { node }));
                            lemma_classified_run(platform, owned, node);
                        },
                        None => {
                            assert(run(platform, asked, 7) == asked);
                        },
                    }
                },
                None => {
                    assert(run(platform, owned, 8) == owned);
                },
            }
        },
        None => {
            assert(run(platform, located, 9) == located);
        },
    }
}

/// The record gets the transport of the class that its compatible
/// identifiers stand for, Bluetooth LE for the Bluetooth LE class, and the
/// steps that follow leave it: it is the transport of the resolved record.
pub proof fn lemma_record_reports_class(
    platform: spec_fn(QueryView) -> AnswerView,
    state: ResolutionView,
    node: u32,
    list: Seq<u16>,
)
    requires
        state.stage == (Stage::CompatibleIds { node }),
    ensures
        step(state, AnswerView::Units(list)).dev.bus_type == reported_bus(
            classify(split_at_nul(list)),
        ),
        classify(split_at_nul(list)) == InternalBusType::BluetoothLE ==> step(
            state,
            AnswerView::Units(list),
        ).dev.bus_type == BusType::BluetoothLE,
        node_units(platform, node, PropertyKey::CompatibleIds) == Some(list) ==> resolved_at(
            platform,
            state.dev,
            node,
        ).bus_type == reported_bus(classify(split_at_nul(list))),
{
}

/// Where no compatible identifier begins with a known prefix, the record
/// gets the transport `Unknown` and resolution ends there: no question of
/// the USB or Bluetooth LE steps is asked.
pub proof fn lemma_unknown_class_ends_resolution(state: ResolutionView, node: u32, list: Seq<u16>)
    requires
        state.stage == (Stage::CompatibleIds { node }),
        forall|i: int|
            0 <= i < split_at_nul(list).len() ==> class_of(#[trigger] split_at_nul(list)[i])
                is None,
    ensures
        step(state, AnswerView::Units(list)).stage == Stage::Done,
        query_of(step(state, AnswerView::Units(list))) is None,
        step(state, AnswerView::Units(list)).dev == normalized(
            DeviceInfoView { bus_type: BusType::Unknown, ..state.dev },
        ),
{
    lemma_no_known_prefix_is_unknown(split_at_nul(list));
}

/// The first hardware identifier, in the order of the list, that holds
/// `REV_` with a hexadecimal number behind it gives the release number of a
/// record that had none. No identifier behind it changes that.
pub proof fn lemma_first_revision_decides(
    dev: DeviceInfoView,
    ids: Seq<Seq<u16>>,
    first: int,
    value: u32,
)
    requires
        dev.release_number == 0,
        0 <= first < ids.len(),
        token_value(upper_units(ids[first]), encode_utf16("REV_"@)) == Some(value),
        forall|j: int|
            0 <= j < first ==> token_value(upper_units(#[trigger] ids[j]), encode_utf16("REV_"@))
                is None,
    ensures
        with_hardware_ids(dev, ids).release_number == (value % 0x1_0000) as u16,
{
    lemma_first_token_value(ids, encode_utf16("REV_"@));
    let found = choose|i: int|
        0 <= i < ids.len() && token_value(upper_units(#[trigger] ids[i]), encode_utf16("REV_"@))
            == first_token_value(ids, encode_utf16("REV_"@)) && forall|j: int|
            0 <= j < i ==> token_value(upper_units(#[trigger] ids[j]), encode_utf16("REV_"@))
                is None;
    if found < first {
        assert(token_value(upper_units(ids[found]), encode_utf16("REV_"@)) is None);
    }
    if first < found {
        assert(token_value(upper_units(ids[first]), encode_utf16("REV_"@)) is None);
    }
}

/// A manufacturer that the record holds when resolution begins is the one
/// it holds at the end, whatever the platform answers.
pub proof fn lemma_manufacturer_is_kept(
    platform: spec_fn(QueryView) -> AnswerView,
    dev: DeviceInfoView,
)
    requires
        !is_blank(dev.manufacturer_string),
    ensures
        resolved(platform, dev).manufacturer_string == dev.manufacturer_string,
{
}

/// No answer to any question, in any state, replaces a manufacturer, a
/// serial number or a product that the record holds.
pub proof fn lemma_step_keeps_strings(state: ResolutionView, answer: AnswerView)
    ensures
        !is_blank(state.dev.manufacturer_string) ==> step(state, answer).dev.manufacturer_string
            == state.dev.manufacturer_string,
        !is_blank(state.dev.serial_number) ==> step(state, answer).dev.serial_number
            == state.dev.serial_number,
        !is_blank(state.dev.product_string) ==> step(state, answer).dev.product_string
            == state.dev.product_string,
{
}

/// A USB node whose instance identifier names one function of a composite
/// controller is left for its parent, one level up, before the hardware
/// identifiers are asked for; any other USB node is asked itself.
pub proof fn lemma_composite_function_escalates_once(
    state: ResolutionView,
    node: u32,
    id: Seq<u16>,
    parent: u32,
)
    requires
        state.stage == (Stage::UsbInstanceId { node }),
    ensures
        names_composite_function(id) ==> query_of(step(state, AnswerView::Units(id))) == Some(
            QueryView::Parent { node },
        ) && query_of(step(step(state, AnswerView::Units(id)), AnswerView::Node(parent)))
            == Some(QueryView::NodeProperty { node: parent, key: PropertyKey::HardwareIds }),
        !names_composite_function(id) ==> query_of(step(state, AnswerView::Units(id))) == Some(
            QueryView::NodeProperty { node, key: PropertyKey::HardwareIds },
        ),
{
}

/// The interface number is unknown after the hardware identifiers were read
/// only if it was unknown before and no identifier holds `MI_` with a
/// number behind it. This is stated for lists in which no such number is
/// FFFFFFFF, which as a signed number is the mark of an unknown interface.
pub proof fn lemma_interface_unknown_without_token(dev: DeviceInfoView, ids: Seq<Seq<u16>>)
    requires
        forall|i: int|
            0 <= i < ids.len() ==> token_value(upper_units(#[trigger] ids[i]), encode_utf16("MI_"@))
                != Some(0xFFFF_FFFFu32),
    ensures
        with_hardware_ids(dev, ids).interface_number == UNKNOWN_INTERFACE ==> dev.interface_number
            == UNKNOWN_INTERFACE && forall|i: int|
            0 <= i < ids.len() ==> token_value(upper_units(#[trigger] ids[i]), encode_utf16("MI_"@))
                is None,
{
    lemma_first_token_value(ids, encode_utf16("MI_"@));
}

/// At the end of a resolution the interface number is known: one that was
/// still unknown has become 0.
pub proof fn lemma_interface_is_normalized(
    platform: spec_fn(QueryView) -> AnswerView,
    dev: DeviceInfoView,
)
    ensures
        resolved(platform, dev).interface_number != UNKNOWN_INTERFACE,
        dev.interface_number != UNKNOWN_INTERFACE ==> resolved(platform, dev).interface_number
            == dev.interface_number,
{
}

} // verus!
