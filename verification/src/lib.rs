//! Host-side core of a removable-device management agent.
//!
//! The library covers the logic of the agent: a length-prefixed framing
//! codec for the byte channel, the command grammar and its dispatcher
//! state machine, the device-locator parsers that resolve the target
//! device's mount point from OS enumeration output, and the file-listing
//! model. All I/O (the byte channel itself, process invocation, the
//! filesystem) lives in the unverified driver around the library, which
//! feeds plain values in and carries requests out.

use vstd::prelude::*;

pub mod command;
pub mod dispatch;
pub mod fileops;
pub mod frame;
pub mod listing;
pub mod locator;
pub mod models;
pub mod session;
pub mod text;

verus! {

/// Vendor identifier of the target removable device.
pub const TARGET_VID: &'static str = "0xb1b0";

/// Product identifier of the target removable device.
pub const TARGET_PID: &'static str = "0x8055";

} // verus!
