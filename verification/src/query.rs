//! The questions that resolution puts to the platform, and the answers it
//! takes.

use vstd::prelude::*;

verus! {

/// The properties that resolution reads.
#[derive(Clone, Copy, Debug, PartialEq, Eq, Structural)]
pub enum PropertyKey {
    InstanceId,
    CompatibleIds,
    HardwareIds,
    Manufacturer,
    Name,
    BluetoothManufacturer,
    BluetoothDeviceAddress,
    BluetoothModelNumber,
}

/// A question to the platform.
#[derive(Clone, Debug, PartialEq, Eq)]
pub enum Query {
    /// A property of the device interface whose record is being resolved.
    InterfaceProperty { key: PropertyKey },
    /// The node of the device tree that has this instance identifier.
    LocateNode { instance_id: Vec<u16> },
    /// The parent of a node.
    Parent { node: u32 },
    /// A property of a node.
    NodeProperty { node: u32, key: PropertyKey },
}

/// What a `Query` holds.
pub enum QueryView {
    InterfaceProperty { key: PropertyKey },
    LocateNode { instance_id: Seq<u16> },
    Parent { node: u32 },
    NodeProperty { node: u32, key: PropertyKey },
}

impl View for Query {
    type V = QueryView;

    open spec fn view(&self) -> QueryView {
        match self {
            Query::InterfaceProperty { key } => QueryView::InterfaceProperty { key: *key },
            Query::LocateNode { instance_id } => QueryView::LocateNode {
                instance_id: instance_id@,
            },
            Query::Parent { node } => QueryView::Parent { node: *node },
            Query::NodeProperty { node, key } => QueryView::NodeProperty {
                node: *node,
                key: *key,
            },
        }
    }
}

/// The platform's answer to a question. A failed lookup, a missing property
/// and a property of another type than expected are all `Absent`.
#[derive(Clone, Debug, PartialEq, Eq)]
pub enum Answer {
    Absent,
    /// The value of a property, in UTF-16 code units.
    Units(Vec<u16>),
    /// A node of the device tree.
    Node(u32),
}

/// What an `Answer` holds.
pub enum AnswerView {
    Absent,
    Units(Seq<u16>),
    Node(u32),
}

impl View for Answer {
    type V = AnswerView;

    open spec fn view(&self) -> AnswerView {
        match self {
            Answer::Absent => AnswerView::Absent,
            Answer::Units(units) => AnswerView::Units(units@),
            Answer::Node(node) => AnswerView::Node(*node),
        }
    }
}

/// The property value in an answer. A node is no value.
pub open spec fn units_of(answer: AnswerView) -> Option<Seq<u16>> {
    match answer {
        AnswerView::Units(units) => Some(units),
        _ => None,
    }
}

/// The node in an answer. A property value is no node.
pub open spec fn node_of(answer: AnswerView) -> Option<u32> {
    match answer {
        AnswerView::Node(node) => Some(node),
        _ => None,
    }
}

} // verus!
