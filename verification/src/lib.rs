//! Update orchestrator for UF2 mass-storage bootloader devices.
//!
//! The library models the full update sequence for a USB-attached board:
//! locating the device across re-enumeration snapshots, driving it into
//! UF2 bootloader mode through a serial-port line-state toggle, selecting
//! the firmware payloads for its kind, and writing them to the mounted
//! volumes in bounded chunks while reporting progress.
//!
//! All hardware-paced work (enumeration, serial ports, the file system,
//! sleeping) is performed by the caller: the state machines here decide,
//! step by step, which action to perform next, and the caller hands the
//! outcome of each action back as an event.

use vstd::prelude::*;

pub mod bootloader;
pub mod catalog;
pub mod locator;
pub mod types;
pub mod updater;
pub mod writer;

verus! {

/// The number of polling attempts the device locator makes before giving up.
pub const LOCATE_ATTEMPT_CEILING: u32 = 600;

/// Milliseconds between two locator polling attempts.
pub const LOCATE_INTERVAL_MS: u64 = 10;

/// Milliseconds between two bootloader-entry confirmation polls.
pub const ENTRY_POLL_INTERVAL_MS: u64 = 100;

/// The number of confirmation polls before bootloader entry times out
/// (300 polls at 100 ms spacing, about 30 s).
pub const ENTRY_POLL_CEILING: u32 = 300;

/// Milliseconds the driver waits after confirmed bootloader entry, to let
/// the host finish mounting the exposed volumes.
pub const SETTLE_DELAY_MS: u64 = 6000;

/// Baud rate of the serial open/close toggle that triggers bootloader entry.
pub const TOGGLE_BAUD_RATE: u32 = 1200;

} // verus!
