//! The bootloader-entry driver's decisions: which serial ports to toggle
//! for a device kind, how to judge the errors the toggle can raise, when a
//! confirmation poll counts as entered, and when the whole entry attempt
//! has timed out.
//!
//! The toggle itself is one open-and-close of a serial port at the
//! signalling baud rate; no data is transferred, only the line-state
//! transition matters.  The caller opens the port and reports what
//! happened; the functions here decide what follows.

use vstd::prelude::*;
use vstd::string::StringExecFns;
use crate::types::{DeviceType, Error, UsbDeviceType, UsbEndpoint, UsbEndpointModel};

verus! {

/// How to go on after a failed serial open during the toggle.
#[derive(Clone, Copy, Debug, PartialEq, Eq, Structural)]
pub enum ToggleVerdict {
    /// An expected error: the device is already mid-reset and the port
    /// handle disappeared under the call.  Continue.
    Proceed,
    /// The host's device-is-transitioning error code.  Informational;
    /// continue.
    ProceedTransitioning,
    /// A genuinely unexpected I/O error.  Terminal for this device.
    Fail,
}

/// The toggle error judgment as a function of the error's shape: a broken
/// pipe is expected; the transitioning code 31 is informational; any other
/// coded error is absorbed on a Windows host and terminal elsewhere; an
/// uncoded error is terminal everywhere.
pub open spec fn spec_serial_toggle_verdict(
    broken_pipe: bool,
    raw_os_error: Option<i32>,
    windows_host: bool,
) -> ToggleVerdict {
    if broken_pipe {
        ToggleVerdict::Proceed
    } else if raw_os_error == Some(31i32) {
        ToggleVerdict::ProceedTransitioning
    } else if raw_os_error is Some {
        if windows_host {
            ToggleVerdict::Proceed
        } else {
            ToggleVerdict::Fail
        }
    } else {
        ToggleVerdict::Fail
    }
}

/// Judges one failed serial open during the bootloader toggle.
pub fn serial_toggle_verdict(broken_pipe: bool, raw_os_error: Option<i32>, windows_host: bool)
    -> (v: ToggleVerdict)
    ensures
        v == spec_serial_toggle_verdict(broken_pipe, raw_os_error, windows_host),
{
    if broken_pipe {
        ToggleVerdict::Proceed
    } else {
        match raw_os_error {
            Some(code) => {
                if code == 31 {
                    ToggleVerdict::ProceedTransitioning
                } else if windows_host {
                    ToggleVerdict::Proceed
                } else {
                    ToggleVerdict::Fail
                }
            },
            None => ToggleVerdict::Fail,
        }
    }
}

/// Whether this kind's main channel must reach mass-storage mode.
pub open spec fn requires_main_channel(kind: DeviceType) -> bool {
    match kind {
        DeviceType::Freewili => true,
        DeviceType::Defcon2024Badge => true,
        DeviceType::Defcon2025FwBadge => true,
        DeviceType::Winky => true,
        DeviceType::Uf2 => false,
        DeviceType::Unknown => false,
    }
}

/// Whether this kind's display channel must reach mass-storage mode.
pub open spec fn requires_display_channel(kind: DeviceType) -> bool {
    kind is Freewili
}

/// The serial-port names to toggle for one channel: the channel's port,
/// when the channel is present, reports the expected serial role, and
/// names a port.
pub open spec fn spec_channel_port(
    ep: Option<UsbEndpointModel>,
    role: UsbDeviceType,
) -> Option<Seq<char>> {
    if ep matches Some(e) && e.kind == role && e.port is Some {
        Some(ep.unwrap().port.unwrap())
    } else {
        None
    }
}

/// What the toggle stage does for a device, given the kind and channels
/// the latest snapshot reports.
pub enum TogglePlan {
    /// Open and close each named port in order, then poll for entry.
    Toggle(Vec<String>),
    /// The device already reports the bootloader kind: no toggle, no poll,
    /// only the settle delay.
    AlreadyInBootloader,
    /// The kind does not support bootloader mode: terminal.
    Unsupported,
    /// A required channel's descriptor was not available in this snapshot:
    /// terminal, as the device cannot be driven without it.
    EndpointUnavailable,
}

/// The ports the toggle stage opens, in order: the main channel's serial
/// port first, then (for a dual-channel device) the display channel's.
pub open spec fn spec_toggle_ports(
    kind: DeviceType,
    main: Option<UsbEndpointModel>,
    display: Option<UsbEndpointModel>,
) -> Seq<Seq<char>> {
    let main_part: Seq<Seq<char>> = match spec_channel_port(main, UsbDeviceType::SerialMain) {
        Some(p) => seq![p],
        None => seq![],
    };
    let display_part: Seq<Seq<char>> = match spec_channel_port(
        display,
        UsbDeviceType::SerialDisplay,
    ) {
        Some(p) => seq![p],
        None => seq![],
    };
    if requires_display_channel(kind) {
        main_part + display_part
    } else {
        main_part
    }
}

/// Builds the toggle stage's plan for a located device.
pub fn toggle_plan(kind: DeviceType, main: Option<&UsbEndpoint>, display: Option<&UsbEndpoint>)
    -> (r: TogglePlan)
    ensures
        kind is Unknown <==> r is Unsupported,
        kind is Uf2 <==> r is AlreadyInBootloader,
        ({
            let main_m = match main {
                Some(e) => Some(e@),
                None => None::<UsbEndpointModel>,
            };
            let display_m = match display {
                Some(e) => Some(e@),
                None => None::<UsbEndpointModel>,
            };
            &&& (r is EndpointUnavailable <==> requires_main_channel(kind) && (main_m is None
                || (requires_display_channel(kind) && display_m is None)))
            &&& (r matches TogglePlan::Toggle(ports) ==> ports@.map_values(|p: String| p@)
                == spec_toggle_ports(kind, main_m, display_m))
            &&& (r is Toggle <==> requires_main_channel(kind) && main_m is Some && (
                requires_display_channel(kind) ==> display_m is Some))
        }),
{
    let ghost main_m = match main {
        Some(e) => Some(e@),
        None => None::<UsbEndpointModel>,
    };
    let ghost display_m = match display {
        Some(e) => Some(e@),
        None => None::<UsbEndpointModel>,
    };
    match kind {
        DeviceType::Unknown => TogglePlan::Unsupported,
        DeviceType::Uf2 => TogglePlan::AlreadyInBootloader,
        _ => {
            let main_ep = match main {
                Some(e) => e,
                None => {
                    return TogglePlan::EndpointUnavailable;
                },
            };
            let mut ports: Vec<String> = Vec::new();
            if main_ep.kind == UsbDeviceType::SerialMain {
                if let Some(p) = &main_ep.port {
                    ports.push(p.clone());
                }
            }
            if kind == DeviceType::Freewili {
                let display_ep = match display {
                    Some(e) => e,
                    None => {
                        return TogglePlan::EndpointUnavailable;
                    },
                };
                if display_ep.kind == UsbDeviceType::SerialDisplay {
                    if let Some(p) = &display_ep.port {
                        ports.push(p.clone());
                    }
                }
            }
            proof {
                assert(ports@.map_values(|p: String| p@) =~= spec_toggle_ports(
                    kind,
                    main_m,
                    display_m,
                ));
            }
            TogglePlan::Toggle(ports)
        },
    }
}

/// What one confirmation poll of the channels says.
#[derive(Clone, Copy, Debug, PartialEq, Eq, Structural)]
pub enum EntryStatus {
    /// Every required channel reports mass-storage mode with a mount path.
    Ready,
    /// Every required channel reports mass-storage mode, but a mount path
    /// is still missing: the host has not finished mounting.  Keep polling.
    NotSettled,
    /// Some required channel is absent or not yet in mass-storage mode.
    NotReady,
}

/// Whether a channel observation is in mass-storage mode.
pub open spec fn channel_in_mass_storage(ep: Option<UsbEndpointModel>) -> bool {
    ep matches Some(e) && e.kind is MassStorage
}

/// Whether a channel observation is in mass-storage mode with a mount path.
pub open spec fn channel_mounted(ep: Option<UsbEndpointModel>) -> bool {
    ep matches Some(e) && e.kind is MassStorage && e.path is Some
}

/// The judgment of one confirmation poll, as a function of the kind's
/// required channels and the observed channel states.
pub open spec fn spec_entry_status(
    kind: DeviceType,
    main: Option<UsbEndpointModel>,
    display: Option<UsbEndpointModel>,
) -> EntryStatus {
    let modes_ok = (requires_main_channel(kind) ==> channel_in_mass_storage(main))
        && (requires_display_channel(kind) ==> channel_in_mass_storage(display));
    let paths_ok = (requires_main_channel(kind) ==> channel_mounted(main))
        && (requires_display_channel(kind) ==> channel_mounted(display));
    if modes_ok && paths_ok {
        EntryStatus::Ready
    } else if modes_ok {
        EntryStatus::NotSettled
    } else {
        EntryStatus::NotReady
    }
}

/// Judges one confirmation poll of a device's channels.
pub fn entry_status(kind: DeviceType, main: Option<&UsbEndpoint>, display: Option<&UsbEndpoint>)
    -> (r: EntryStatus)
    ensures
        ({
            let main_m = match main {
                Some(e) => Some(e@),
                None => None::<UsbEndpointModel>,
            };
            let display_m = match display {
                Some(e) => Some(e@),
                None => None::<UsbEndpointModel>,
            };
            r == spec_entry_status(kind, main_m, display_m)
        }),
{
    let main_mass = match main {
        Some(e) => e.kind == UsbDeviceType::MassStorage,
        None => false,
    };
    let main_mounted = match main {
        Some(e) => e.kind == UsbDeviceType::MassStorage && e.path.is_some(),
        None => false,
    };
    let display_mass = match display {
        Some(e) => e.kind == UsbDeviceType::MassStorage,
        None => false,
    };
    let display_mounted = match display {
        Some(e) => e.kind == UsbDeviceType::MassStorage && e.path.is_some(),
        None => false,
    };
    let need_main = match kind {
        DeviceType::Uf2 => false,
        DeviceType::Unknown => false,
        _ => true,
    };
    let need_display = kind == DeviceType::Freewili;
    let modes_ok = (!need_main || main_mass) && (!need_display || display_mass);
    let paths_ok = (!need_main || main_mounted) && (!need_display || display_mounted);
    if modes_ok && paths_ok {
        EntryStatus::Ready
    } else if modes_ok {
        EntryStatus::NotSettled
    } else {
        EntryStatus::NotReady
    }
}

/// One recorded confirmation poll: the two channels as the device reported
/// them after that cycle's re-location.
pub struct PollObservation {
    pub main: Option<UsbEndpoint>,
    pub display: Option<UsbEndpoint>,
}

/// The status of the poll at position `i` of a recording; a position past
/// its end counts as a cycle in which the device reported nothing.
pub open spec fn spec_poll_status(
    kind: DeviceType,
    polls: Seq<PollObservation>,
    i: int,
) -> EntryStatus {
    if 0 <= i < polls.len() {
        spec_entry_status(
            kind,
            match polls[i].main {
                Some(ref e) => Some(e@),
                None => None,
            },
            match polls[i].display {
                Some(ref e) => Some(e@),
                None => None,
            },
        )
    } else {
        EntryStatus::NotReady
    }
}

/// Replays the confirmation poll loop over a recorded run of observations,
/// one per cycle at `poll_interval_ms` spacing, up to `poll_ceiling`
/// cycles.
///
/// Succeeds exactly when some cycle within the ceiling reports `Ready`, at
/// the earliest such cycle, and then returns the modeled elapsed time:
/// one interval per cycle waited, plus the trailing settle delay — so the
/// elapsed time of a successful entry is never below the settle delay.
/// Otherwise the entry attempt has timed out: a critical error.
pub fn confirm_entry(
    kind: DeviceType,
    polls: &Vec<PollObservation>,
    poll_interval_ms: u64,
    poll_ceiling: u32,
    settle_ms: u64,
) -> (r: Result<u64, Error>)
    requires
        poll_ceiling as int * poll_interval_ms as int + settle_ms as int <= u64::MAX as int,
    ensures
        ({
            let n = poll_ceiling as int;
            match r {
                Ok(elapsed) => {
                    exists|i: int|
                        {
                            &&& 0 <= i < n
                            &&& #[trigger] spec_poll_status(kind, polls@, i) is Ready
                            &&& forall|j: int| 0 <= j < i
                                ==> !(#[trigger] spec_poll_status(kind, polls@, j) is Ready)
                            &&& elapsed == i * poll_interval_ms + settle_ms
                        }
                },
                Err(e) => {
                    &&& forall|j: int| 0 <= j < n
                        ==> !(#[trigger] spec_poll_status(kind, polls@, j) is Ready)
                    &&& e matches Error::Critical(m)
                        && m@ == "Timeout waiting for device to enter UF2 mode"@
                },
            }
        }),
        r matches Ok(elapsed) ==> elapsed >= settle_ms,
{
    let mut i: u32 = 0;
    while i < poll_ceiling
        invariant
            poll_ceiling as int * poll_interval_ms as int + settle_ms as int <= u64::MAX as int,
            i <= poll_ceiling,
            forall|j: int| 0 <= j < i
                ==> !(#[trigger] spec_poll_status(kind, polls@, j) is Ready),
        decreases poll_ceiling - i,
    {
        let status = if (i as usize) < polls.len() {
            let obs = &polls[i as usize];
            entry_status(kind, obs.main.as_ref(), obs.display.as_ref())
        } else {
            EntryStatus::NotReady
        };
        if status == EntryStatus::Ready {
            proof {
                assert(spec_poll_status(kind, polls@, i as int) is Ready);
                vstd::arithmetic::mul::lemma_mul_inequality(
                    i as int,
                    poll_ceiling as int,
                    poll_interval_ms as int,
                );
                assert(i as int * poll_interval_ms as int >= 0) by (nonlinear_arith)
                    requires
                        i as int >= 0,
                        poll_interval_ms as int >= 0,
                ;
            }
            let elapsed = (i as u64) * poll_interval_ms + settle_ms;
            return Ok(elapsed);
        }
        i = i + 1;
    }
    Err(Error::Critical("Timeout waiting for device to enter UF2 mode".to_owned()))
}

} // verus!
