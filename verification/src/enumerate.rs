//! Listing the HID device interfaces that are present.
//!
//! The platform is asked for the size of the list and then for the list. If
//! interfaces were added between the two calls the buffer is too small, and
//! the whole cycle starts again. `list_step` decides on each reply; the
//! caller makes the calls.

use vstd::prelude::*;
use vstd::string::StringExecFns;
use crate::error::{HidError, HidErrorView};
use crate::property::ConfigStatus;

verus! {

/// The call that failed for good.
#[derive(Clone, Copy, Debug, PartialEq, Eq, Structural)]
pub enum ListFailure {
    /// The size query.
    Size,
    /// The fetch, with another outcome than a buffer too small.
    Fetch,
}

/// Where the listing stands.
#[derive(Clone, Copy, Debug, PartialEq, Eq, Structural)]
pub enum ListStage {
    /// The size of the list is to be asked.
    Size,
    /// The list is to be fetched into a buffer of `len` units.
    Fetch { len: u32 },
    /// The buffer holds the list.
    Listed,
    /// The platform failed in a way that no retry mends.
    Failed(ListFailure),
}

/// The platform's reply to a call.
#[derive(Clone, Copy, Debug, PartialEq, Eq, Structural)]
pub enum ListReply {
    /// To the size query: its status and the size it reported.
    Size { status: ConfigStatus, len: u32 },
    /// To the fetch: its status.
    Fetched { status: ConfigStatus },
}

/// The stage that follows a reply. A size query that fails is final. A fetch
/// that finds the buffer too small leads back to the size query; one that
/// fails otherwise is final. A reply that does not belong to the stage
/// changes nothing.
pub open spec fn list_next(stage: ListStage, reply: ListReply) -> ListStage {
    match (stage, reply) {
        (ListStage::Size, ListReply::Size { status, len }) => if status == ConfigStatus::Success {
            ListStage::Fetch { len }
        } else {
            ListStage::Failed(ListFailure::Size)
        },
        (ListStage::Fetch { .. }, ListReply::Fetched { status }) => match status {
            ConfigStatus::Success => ListStage::Listed,
            ConfigStatus::BufferSmall => ListStage::Size,
            ConfigStatus::Failure => ListStage::Failed(ListFailure::Fetch),
        },
        _ => stage,
    }
}

/// Decides on a reply of the platform while the interfaces are listed.
pub fn list_step(stage: ListStage, reply: ListReply) -> (next: ListStage)
    ensures
        next == list_next(stage, reply),
{
    match stage {
        ListStage::Size => match reply {
            ListReply::Size { status, len } => match status {
                ConfigStatus::Success => ListStage::Fetch { len },
                _ => ListStage::Failed(ListFailure::Size),
            },
            _ => stage,
        },
        ListStage::Fetch { .. } => match reply {
            ListReply::Fetched { status } => match status {
                ConfigStatus::Success => ListStage::Listed,
                ConfigStatus::BufferSmall => ListStage::Size,
                ConfigStatus::Failure => ListStage::Failed(ListFailure::Fetch),
            },
            _ => stage,
        },
        _ => stage,
    }
}

/// Only a fetch that succeeded ends the listing with a list, and only a call
/// that failed ends it without one. A buffer too small is never an end.
pub proof fn lemma_list_ends(stage: ListStage, reply: ListReply)
    requires
        stage != ListStage::Listed,
        !(stage is Failed),
    ensures
        list_next(stage, reply) == ListStage::Listed <==> stage is Fetch && reply
            == (ListReply::Fetched { status: ConfigStatus::Success }),
        list_next(stage, reply) is Failed ==> (reply matches ListReply::Size { status, .. }
            && status != ConfigStatus::Success) || reply == (ListReply::Fetched {
            status: ConfigStatus::Failure,
        }),
        reply == (ListReply::Fetched { status: ConfigStatus::BufferSmall }) && stage is Fetch
            ==> list_next(stage, reply) == ListStage::Size,
{
}

/// The error that a failed listing is reported with.
pub open spec fn list_error(failure: ListFailure) -> HidErrorView {
    match failure {
        ListFailure::Size => HidErrorView::HidApiError {
            message: "Failed to get size of HID device interface list"@,
        },
        ListFailure::Fetch => HidErrorView::HidApiError {
            message: "Failed to get HID device interface list"@,
        },
    }
}

impl ListFailure {
    /// The error that this failure is reported with.
    pub fn into_error(self) -> (error: HidError)
        ensures
            error@ == list_error(self),
    {
        match self {
            ListFailure::Size => HidError::HidApiError {
                message: String::from_str("Failed to get size of HID device interface list"),
            },
            ListFailure::Fetch => HidError::HidApiError {
                message: String::from_str("Failed to get HID device interface list"),
            },
        }
    }
}

} // verus!
