//! Discovery and identity resolution for HID device interfaces on Windows.
//!
//! The platform is never called from here. Every function is a decision over
//! plain values: what to ask the platform next, and what its answer means for
//! the device record being built. The caller makes the calls.
//!
//! - `enumerate`, `open`, `property`: the protocols by which interfaces are
//!   listed, a device is opened and a property is read.
//! - `query`, `resolve`, `outcome`, `replay`: the resolution of one device's
//!   identity as a sequence of questions, what it comes to on every
//!   platform, and its run against answers that were written down.
//! - `bus`, `usb`, `token`, `list`, `utf16`, `wstring`: what identifier
//!   strings tell, down to the code units.
//! - `device_info`, `device`, `backend`, `error`: the device record, an open
//!   device, the entry points and their errors.

pub mod backend;
pub mod bus;
pub mod device;
pub mod device_info;
pub mod enumerate;
pub mod error;
pub mod list;
pub mod open;
pub mod outcome;
pub mod property;
pub mod query;
pub mod replay;
pub mod resolve;
pub mod token;
pub mod usb;
pub mod utf16;
pub mod wstring;
