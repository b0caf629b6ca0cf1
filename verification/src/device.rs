//! An open HID device of the C library, and what the results of its calls
//! mean. The calls themselves are made by the caller.

use vstd::prelude::*;
use crate::error::{error_from_message, error_of, HidError, HidErrorView, HidResult};
use crate::wstring::{wchar_to_string, wide_string_of, WcharString, WcharStringView};

verus! {

/// Object for accessing a HID device.
#[derive(Debug, PartialEq, Eq)]
pub struct HidDevice {
    _hid_device: usize,
}

/// The size that a call reported in its result: none for -1, which marks a
/// failed call, else the result as an unsigned number.
pub open spec fn size_in(res: i32) -> Option<usize> {
    if res == -1 {
        None
    } else if res >= 0 {
        Some(res as usize)
    } else {
        Some((usize::MAX + 1 + res) as usize)
    }
}

/// The text in a buffer that a string query filled, if it is text.
pub open spec fn buffer_text(buffer: Seq<u16>) -> Option<Seq<char>> {
    match wide_string_of(buffer) {
        WcharStringView::String(text) => Some(text),
        _ => None,
    }
}

impl HidDevice {
    /// The address of the C library's device object.
    pub closed spec fn raw(&self) -> usize {
        self._hid_device
    }

    /// Wraps the device object at an address that the C library gave.
    pub fn from_raw(device: usize) -> (dev: Self)
        ensures
            dev.raw() == device,
    {
        Self { _hid_device: device }
    }

    /// The address of the C library's device object, for calls on it.
    pub fn as_raw(&self) -> (device: usize)
        ensures
            device == self.raw(),
    {
        self._hid_device
    }

    /// Checks the size that a call returned. For -1 there is none, and the
    /// caller asks the C library for its error; any other result is the
    /// size as an unsigned number.
    pub fn check_size(&self, res: i32) -> (size: Option<usize>)
        ensures
            size == size_in(res),
    {
        if res == -1 {
            None
        } else if res >= 0 {
            Some(res as usize)
        } else {
            Some(usize::MAX - ((-(res + 1)) as usize))
        }
    }

    /// Turns the C library's last error message for this device into an
    /// error.
    pub fn check_error(&self, message: WcharString) -> (error: HidResult<HidError>)
        ensures
            match error {
                Ok(with_message) => error_of(message@) == Ok::<HidErrorView, HidErrorView>(
                    with_message@,
                ),
                Err(without) => error_of(message@) == Err::<HidErrorView, HidErrorView>(
                    without@,
                ),
            },
    {
        error_from_message(message)
    }

    /// Whether a report can be sent: one without bytes cannot.
    pub fn check_report(data: &[u8]) -> (checked: HidResult<()>)
        ensures
            checked is Ok <==> data@.len() > 0,
            checked matches Err(error) ==> error@ == HidErrorView::InvalidZeroSizeData,
    {
        if data.len() == 0 {
            Err(HidError::InvalidZeroSizeData)
        } else {
            Ok(())
        }
    }

    /// Whether a feature report was sent whole.
    pub fn feature_report_sent(sent: usize, all: usize) -> (checked: HidResult<()>)
        ensures
            checked is Ok <==> sent == all,
            checked matches Err(error) ==> error@ == (HidErrorView::IncompleteSendError {
                sent,
                all,
            }),
    {
        if sent != all {
            Err(HidError::IncompleteSendError { sent, all })
        } else {
            Ok(())
        }
    }

    /// Whether the blocking mode was set: the call fails with -1, and the
    /// error names the mode that was asked for.
    pub fn blocking_mode_set(res: i32, blocking: bool) -> (checked: HidResult<()>)
        ensures
            checked is Ok <==> res != -1,
            checked matches Err(error) ==> error@ == (HidErrorView::SetBlockingModeError {
                mode: if blocking {
                    "blocking"@
                } else {
                    "not blocking"@
                },
            }),
    {
        if res == -1 {
            Err(
                HidError::SetBlockingModeError {
                    mode: match blocking {
                        true => "blocking",
                        false => "not blocking",
                    },
                },
            )
        } else {
            Ok(())
        }
    }

    /// The string that a string query wrote into its buffer: the text up to
    /// the first NUL, or nothing where that is no text.
    pub fn buffer_string(buffer: &[u16]) -> (text: Option<String>)
        ensures
            text is Some <==> buffer_text(buffer@) is Some,
            text matches Some(held) ==> buffer_text(buffer@) == Some(held@),
    {
        wchar_to_string(Some(buffer)).into_text()
    }
}

} // verus!
