//! Opening a device interface by its path.

use vstd::prelude::*;

verus! {

/// The value with which the platform answers an open that failed.
pub const INVALID_HANDLE: isize = -1;

/// What an open asks of the platform.
#[derive(Clone, Copy, Debug, PartialEq, Eq, Structural)]
pub struct OpenRequest {
    /// Access to read from the device.
    pub read: bool,
    /// Access to write to the device.
    pub write: bool,
    /// Others may read from the device while it is open.
    pub share_read: bool,
    /// Others may write to the device while it is open.
    pub share_write: bool,
    /// The handle can be used for overlapped transfers.
    pub overlapped: bool,
}

/// The request by which a device is opened: never for exclusive use, always
/// fit for overlapped transfers, with access to read and write for a device
/// that is to be used and with none for one that is only to be described.
pub open spec fn request_for(open_rw: bool) -> OpenRequest {
    OpenRequest {
        read: open_rw,
        write: open_rw,
        share_read: true,
        share_write: true,
        overlapped: true,
    }
}

/// The request by which to open a device.
pub fn open_request(open_rw: bool) -> (request: OpenRequest)
    ensures
        request == request_for(open_rw),
{
    OpenRequest {
        read: open_rw,
        write: open_rw,
        share_read: true,
        share_write: true,
        overlapped: true,
    }
}

/// A handle to an open device. It is not copied: whoever holds it closes
/// it, once.
#[derive(Debug, PartialEq, Eq)]
pub struct DeviceHandle {
    raw: isize,
}

impl DeviceHandle {
    /// The platform's value of the handle.
    pub closed spec fn value(&self) -> isize {
        self.raw
    }

    /// Takes what an open returned. A failed open gives no handle, which is
    /// no error: the interface is passed over.
    pub fn accept(raw: isize) -> (handle: Option<DeviceHandle>)
        ensures
            handle is Some <==> raw != INVALID_HANDLE,
            handle matches Some(opened) ==> opened.value() == raw,
    {
        if raw != INVALID_HANDLE {
            Some(DeviceHandle { raw })
        } else {
            None
        }
    }

    /// The platform's value of the handle, for calls on the open device.
    pub fn raw(&self) -> (raw: isize)
        ensures
            raw == self.value(),
    {
        self.raw
    }

    /// Gives the handle up for closing.
    pub fn release(self) -> (raw: isize)
        ensures
            raw == self.value(),
    {
        self.raw
    }
}

} // verus!
