//! The errors that the library reports.

use vstd::prelude::*;
use crate::wstring::{WcharString, WcharStringView};

verus! {

/// What went wrong with a HID operation.
#[derive(Clone, Debug, PartialEq, Eq)]
pub enum HidError {
    /// The platform layer failed and said why.
    HidApiError { message: String },
    /// The platform layer failed and gave no readable reason.
    HidApiErrorEmpty,
    /// A report to send had no bytes.
    InvalidZeroSizeData,
    /// Only a part of a report was sent.
    IncompleteSendError { sent: usize, all: usize },
    /// The blocking mode could not be set.
    SetBlockingModeError { mode: &'static str },
}

/// What a `HidError` holds.
pub enum HidErrorView {
    HidApiError { message: Seq<char> },
    HidApiErrorEmpty,
    InvalidZeroSizeData,
    IncompleteSendError { sent: usize, all: usize },
    SetBlockingModeError { mode: Seq<char> },
}

impl View for HidError {
    type V = HidErrorView;

    open spec fn view(&self) -> HidErrorView {
        match self {
            HidError::HidApiError { message } => HidErrorView::HidApiError { message: message@ },
            HidError::HidApiErrorEmpty => HidErrorView::HidApiErrorEmpty,
            HidError::InvalidZeroSizeData => HidErrorView::InvalidZeroSizeData,
            HidError::IncompleteSendError { sent, all } => HidErrorView::IncompleteSendError {
                sent: *sent,
                all: *all,
            },
            HidError::SetBlockingModeError { mode } => HidErrorView::SetBlockingModeError {
                mode: mode@,
            },
        }
    }
}

pub type HidResult<T> = Result<T, HidError>;

/// The error that the platform layer's last error message stands for: the
/// message itself where it is text, else the error without a message.
pub open spec fn error_of(message: WcharStringView) -> Result<HidErrorView, HidErrorView> {
    match message {
        WcharStringView::String(text) => Ok(HidErrorView::HidApiError { message: text }),
        _ => Err(HidErrorView::HidApiErrorEmpty),
    }
}

/// Turns the platform layer's last error message into an error. It is `Ok`
/// with the message where the message is text, and `Err` without one where it
/// is not.
pub fn error_from_message(message: WcharString) -> (error: HidResult<HidError>)
    ensures
        match error {
            Ok(with_message) => error_of(message@) == Ok::<HidErrorView, HidErrorView>(
                with_message@,
            ),
            Err(without) => error_of(message@) == Err::<HidErrorView, HidErrorView>(without@),
        },
{
    match message {
        WcharString::String(text) => Ok(HidError::HidApiError { message: text }),
        _ => Err(HidError::HidApiErrorEmpty),
    }
}

/// The error in either arm of what `error_from_message` gives.
pub fn into_error(outcome: HidResult<HidError>) -> (error: HidError)
    ensures
        error == match outcome {
            Ok(inner) => inner,
            Err(inner) => inner,
        },
{
    match outcome {
        Ok(error) => error,
        Err(error) => error,
    }
}

} // verus!
